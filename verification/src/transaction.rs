//! A booking, as the messenger sends it.

use crate::entity_data::{Entity, EntityData};
use vstd::prelude::*;

verus! {

/// The state of a transaction in the log of the messenger.
#[derive(Debug, Copy, Clone, PartialEq, Eq, Hash, Structural)]
pub enum TransactionState {
    Wait,
    Commit,
    Abort,
}

/// One booking: what it costs at the hotel, the bank and the airline.
#[derive(Debug, Copy, Clone, PartialEq, Eq, Structural)]
pub struct Transaction {
    pub id: u64,
    pub hotel_cost: u64,
    pub bank_cost: u64,
    pub airline_cost: u64,
}

/// The datagram of one leg, or nothing for a leg that costs nothing.
pub open spec fn leg(entity: Entity, id: u64, cost: u64) -> Seq<(Entity, EntityData)> {
    if cost > 0 {
        seq![(entity, EntityData { transaction_id: id, cost })]
    } else {
        Seq::empty()
    }
}

impl Transaction {
    /// The legs of the booking: hotel, bank, airline, in that order,
    /// without those that cost nothing.
    pub open spec fn entities_data(self) -> Seq<(Entity, EntityData)> {
        leg(Entity::Hotel, self.id, self.hotel_cost) + leg(Entity::Bank, self.id, self.bank_cost)
            + leg(Entity::Airline, self.id, self.airline_cost)
    }

    pub fn get_entities_data(&self) -> (data: Vec<(Entity, EntityData)>)
        ensures
            data@ == self.entities_data(),
    {
        let mut data: Vec<(Entity, EntityData)> = Vec::new();
        if self.hotel_cost > 0 {
            data.push((Entity::Hotel, EntityData::new(self.id, self.hotel_cost)));
        }
        if self.bank_cost > 0 {
            data.push((Entity::Bank, EntityData::new(self.id, self.bank_cost)));
        }
        if self.airline_cost > 0 {
            data.push((Entity::Airline, EntityData::new(self.id, self.airline_cost)));
        }
        data
    }
}

} // verus!
