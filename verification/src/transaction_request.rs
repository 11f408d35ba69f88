//! A booking as read from the transaction source.

use crate::entity_payload::EntityPayload;
use crate::entity_type::EntityType;
use vstd::prelude::*;

verus! {

/// One booking: what it costs at the hotel, the bank and the airline.
/// A leg that costs nothing takes no part in the prepare phase.
#[derive(Debug, Copy, Clone, PartialEq, Eq, Structural)]
pub struct TransactionRequest {
    id: u64,
    hotel_cost: u64,
    bank_cost: u64,
    airline_cost: u64,
}

/// The prepare request of one leg, or nothing for a leg that costs nothing.
pub open spec fn leg(entity: EntityType, id: u64, cost: u64) -> Seq<(EntityType, EntityPayload)> {
    if cost > 0 {
        seq![
            (
                entity,
                EntityPayload {
                    transaction_state: crate::transaction_state::TransactionState::Prepare,
                    transaction_id: id,
                    cost,
                },
            ),
        ]
    } else {
        Seq::empty()
    }
}

impl TransactionRequest {
    pub closed spec fn id(self) -> u64 {
        self.id
    }

    pub closed spec fn hotel_cost(self) -> u64 {
        self.hotel_cost
    }

    pub closed spec fn bank_cost(self) -> u64 {
        self.bank_cost
    }

    pub closed spec fn airline_cost(self) -> u64 {
        self.airline_cost
    }

    /// The booking with the given id and costs.
    pub closed spec fn of_costs(
        id: u64,
        hotel_cost: u64,
        bank_cost: u64,
        airline_cost: u64,
    ) -> TransactionRequest {
        TransactionRequest { id, hotel_cost, bank_cost, airline_cost }
    }

    /// The prepare requests of the booking: hotel, bank, airline, in that
    /// order, without the legs that cost nothing.
    pub open spec fn entities_data(self) -> Seq<(EntityType, EntityPayload)> {
        leg(EntityType::Hotel, self.id(), self.hotel_cost()) + leg(
            EntityType::Bank,
            self.id(),
            self.bank_cost(),
        ) + leg(EntityType::Airline, self.id(), self.airline_cost())
    }

    pub fn new(id: u64, hotel_cost: u64, bank_cost: u64, airline_cost: u64) -> (request: Self)
        ensures
            request == Self::of_costs(id, hotel_cost, bank_cost, airline_cost),
            request.id() == id,
            request.hotel_cost() == hotel_cost,
            request.bank_cost() == bank_cost,
            request.airline_cost() == airline_cost,
    {
        TransactionRequest { id, hotel_cost, bank_cost, airline_cost }
    }

    pub fn get_entities_data(&self) -> (data: Vec<(EntityType, EntityPayload)>)
        ensures
            data@ == self.entities_data(),
    {
        let mut data: Vec<(EntityType, EntityPayload)> = Vec::new();
        if self.hotel_cost > 0 {
            data.push((EntityType::Hotel, EntityPayload::new(self.id, self.hotel_cost)));
        }
        if self.bank_cost > 0 {
            data.push((EntityType::Bank, EntityPayload::new(self.id, self.bank_cost)));
        }
        if self.airline_cost > 0 {
            data.push((EntityType::Airline, EntityPayload::new(self.id, self.airline_cost)));
        }
        data
    }

    pub fn get_transaction_id(&self) -> (id: u64)
        ensures
            id == self.id(),
    {
        self.id
    }

    /// The costs of the three legs: hotel, bank, airline.
    pub fn costs(&self) -> (costs: (u64, u64, u64))
        ensures
            costs == (self.hotel_cost(), self.bank_cost(), self.airline_cost()),
    {
        (self.hotel_cost, self.bank_cost, self.airline_cost)
    }
}

} // verus!
