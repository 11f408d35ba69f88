//! The driver of the two phases: it sends the prepare requests of a
//! transaction and, once the coordinator has resolved it, the final state.
//!
//! The driver has no clock. Its caller tells it the time, in nanoseconds
//! since a moment of the caller's choice.

use crate::bootstrapper::entities;
use crate::entity_payload::EntityPayload;
use crate::entity_type::EntityType;
use crate::file_reader::FindTransaction;
use crate::file_writer::RegisterDoneTransactionId;
use crate::statistics_handler::{RegisterTransaction, UnregisterTransaction};
use crate::transaction_coordinator::WaitTransactionStateResponse;
use crate::transaction_request::TransactionRequest;
use crate::transaction_state::TransactionState;
use std::collections::HashMap;
use vstd::prelude::*;

verus! {

broadcast use vstd::std_specs::hash::group_hash_axioms;

/// Hands a transaction to the driver.
#[derive(Debug, Copy, Clone, PartialEq, Eq, Structural)]
pub struct PrepareTransaction {
    pub transaction: TransactionRequest,
}

impl PrepareTransaction {
    pub fn new(transaction: TransactionRequest) -> (message: Self)
        ensures
            message.transaction == transaction,
    {
        PrepareTransaction { transaction }
    }
}

/// Tells the driver that a transaction is resolved and which state has to
/// reach the participants.
#[derive(Debug, Copy, Clone, PartialEq, Eq, Structural)]
pub struct BroadcastTransactionState {
    pub transaction_id: u64,
    pub transaction_state: TransactionState,
}

impl BroadcastTransactionState {
    pub fn new(transaction_id: u64, transaction_state: TransactionState) -> (message: Self)
        ensures
            message == (BroadcastTransactionState { transaction_id, transaction_state }),
    {
        BroadcastTransactionState { transaction_id, transaction_state }
    }
}

/// A datagram and the participant it is for.
#[derive(Debug)]
pub struct Datagram {
    pub entity: EntityType,
    pub payload: Vec<u8>,
}

/// What the driver does to open a transaction. The wait is registered
/// with the coordinator before the datagrams leave, so that no answer can
/// arrive before the coordinator tracks it.
#[derive(Debug)]
pub struct Preparation {
    /// For the coordinator, first.
    pub wait: WaitTransactionStateResponse,
    /// The prepare requests, one for each leg that costs something.
    pub datagrams: Vec<Datagram>,
}

/// What a resolved transaction means for the ledgers.
#[derive(Debug, Copy, Clone, PartialEq, Eq, Structural)]
pub enum LedgerUpdate {
    /// The transaction is committed: its id goes to the done-ledger.
    Done(RegisterDoneTransactionId),
    /// The transaction is aborted: its row goes to the failed-ledger.
    Failed(FindTransaction),
}

/// What the driver does to close a transaction.
#[derive(Debug)]
pub struct Broadcast {
    /// For the statistics: the transaction is over, and how long it took.
    pub unregister: UnregisterTransaction,
    /// The request that carries the final state, with no cost.
    pub payload: Vec<u8>,
    /// Every participant, whether it had a leg in the transaction or not.
    pub targets: Vec<EntityType>,
    /// For the ledgers, once the datagrams have left.
    pub ledger: Option<LedgerUpdate>,
}

/// Why the driver cannot close a transaction.
#[derive(Debug, Copy, Clone, PartialEq, Eq, Structural)]
pub enum DriverError {
    /// The driver never opened the transaction.
    UntrackedTransaction,
    /// The state is internal: it has no place in a datagram.
    StateNotOnWire,
}

/// The wait that the driver registers for a transaction: it enters `Wait`
/// and expects every participant to answer `Commit`.
pub open spec fn wait_for(transaction: TransactionRequest) -> WaitTransactionStateResponse {
    WaitTransactionStateResponse {
        transaction_id: transaction.id(),
        transaction_state: TransactionState::Wait,
        expected_transaction_state: TransactionState::Commit,
        should_await_next_response: true,
    }
}

/// What a resolved transaction means for the ledgers.
pub open spec fn ledger_update(id: u64, state: TransactionState) -> Option<LedgerUpdate> {
    match state {
        TransactionState::Commit => Some(
            LedgerUpdate::Done(RegisterDoneTransactionId { transaction_id: id }),
        ),
        TransactionState::Abort => Some(
            LedgerUpdate::Failed(FindTransaction { transaction_id: id }),
        ),
        _ => None,
    }
}

/// The time from `start` to `now`, zero if `now` is the earlier.
pub open spec fn elapsed(start: u64, now: u64) -> u64 {
    if now >= start {
        (now - start) as u64
    } else {
        0
    }
}

/// The driver of one pipeline.
pub struct EntitySender {
    transaction_timestamps: HashMap<u64, u64>,
}

impl View for EntitySender {
    type V = Map<u64, u64>;

    /// When each transaction was opened, by transaction id.
    closed spec fn view(&self) -> Map<u64, u64> {
        self.transaction_timestamps@
    }
}

impl EntitySender {
    /// A driver that has opened no transaction.
    pub fn new() -> (sender: Self)
        ensures
            sender@ == Map::<u64, u64>::empty(),
    {
        EntitySender { transaction_timestamps: HashMap::new() }
    }

    /// Opens a transaction: the wait for the coordinator, and one prepare
    /// request for each leg that costs something, in the order hotel,
    /// bank, airline. Nothing is awaited here.
    pub fn prepare_transaction(&self, msg: &PrepareTransaction) -> (preparation: Preparation)
        ensures
            preparation.wait == wait_for(msg.transaction),
            preparation.datagrams@.len() == msg.transaction.entities_data().len(),
            forall|i: int|
                0 <= i < preparation.datagrams@.len() ==> {
                    &&& (#[trigger] preparation.datagrams@[i]).entity
                        == msg.transaction.entities_data()[i].0
                    &&& preparation.datagrams@[i].payload@
                        == msg.transaction.entities_data()[i].1.wire_format()
                },
    {
        let wait = WaitTransactionStateResponse::new(
            msg.transaction.get_transaction_id(),
            TransactionState::Wait,
            TransactionState::Commit,
            true,
        );
        let data: Vec<(EntityType, EntityPayload)> = msg.transaction.get_entities_data();
        let mut datagrams: Vec<Datagram> = Vec::new();
        let mut i: usize = 0;
        while i < data.len()
            invariant
                i <= data.len(),
                data@ == msg.transaction.entities_data(),
                datagrams@.len() == i,
                forall|j: int|
                    0 <= j < i ==> {
                        &&& (#[trigger] datagrams@[j]).entity == data@[j].0
                        &&& datagrams@[j].payload@ == data@[j].1.wire_format()
                    },
            decreases data.len() - i,
        {
            let entity: EntityType = data[i].0;
            let payload: EntityPayload = data[i].1;
            proof {
                lemma_legs_are_prepare(msg.transaction, i as int);
            }
            datagrams.push(Datagram { entity, payload: payload.encode() });
            i = i + 1;
        }
        Preparation { wait, datagrams }
    }

    /// Takes note that the prepare requests of a transaction have left at
    /// `now`, and tells so for the statistics.
    pub fn transaction_sent(&mut self, msg: PrepareTransaction, now: u64) -> (register:
        RegisterTransaction)
        ensures
            final(self)@ == old(self)@.insert(msg.transaction.id(), now),
            register.transaction_id == msg.transaction.id(),
    {
        let id: u64 = msg.transaction.get_transaction_id();
        self.transaction_timestamps.insert(id, now);
        RegisterTransaction::new(id)
    }

    /// Closes a transaction that the coordinator has resolved: the final
    /// state goes to every participant, and the ledgers learn of a commit
    /// or an abort. A transaction that the driver never opened, or a
    /// state that has no place in a datagram, is an error.
    pub fn broadcast_transaction_state(&self, msg: BroadcastTransactionState, now: u64) -> (closing:
        Result<Broadcast, DriverError>)
        ensures
            !self@.contains_key(msg.transaction_id) ==> closing is Err && closing->Err_0
                == DriverError::UntrackedTransaction,
            self@.contains_key(msg.transaction_id) && !msg.transaction_state.is_wire_visible()
                ==> closing is Err && closing->Err_0 == DriverError::StateNotOnWire,
            self@.contains_key(msg.transaction_id) && msg.transaction_state.is_wire_visible()
                ==> closing is Ok,
            closing matches Ok(broadcast) ==> {
                &&& broadcast.unregister == (UnregisterTransaction {
                    transaction_id: msg.transaction_id,
                    duration: elapsed(self@[msg.transaction_id], now),
                })
                &&& broadcast.payload@ == (EntityPayload {
                    transaction_state: msg.transaction_state,
                    transaction_id: msg.transaction_id,
                    cost: 0,
                }).wire_format()
                &&& broadcast.targets@ == seq![
                    EntityType::Hotel,
                    EntityType::Bank,
                    EntityType::Airline,
                ]
                &&& broadcast.ledger == ledger_update(msg.transaction_id, msg.transaction_state)
            },
    {
        let start: u64 = match self.transaction_timestamps.get(&msg.transaction_id) {
            Some(start) => *start,
            None => {
                return Err(DriverError::UntrackedTransaction);
            },
        };
        if !msg.transaction_state.on_wire() {
            return Err(DriverError::StateNotOnWire);
        }
        let duration: u64 = if now >= start {
            now - start
        } else {
            0
        };
        let payload = EntityPayload {
            transaction_state: msg.transaction_state,
            transaction_id: msg.transaction_id,
            cost: 0,
        };
        let ledger: Option<LedgerUpdate> = match msg.transaction_state {
            TransactionState::Commit => Some(
                LedgerUpdate::Done(RegisterDoneTransactionId::new(msg.transaction_id)),
            ),
            TransactionState::Abort => Some(
                LedgerUpdate::Failed(FindTransaction::new(msg.transaction_id)),
            ),
            _ => None,
        };
        Ok(
            Broadcast {
                unregister: UnregisterTransaction::new(msg.transaction_id, duration),
                payload: payload.encode(),
                targets: entities(),
                ledger,
            },
        )
    }
}

/// Every leg of a transaction is a prepare request for the transaction,
/// with a cost above zero.
pub proof fn lemma_legs_are_prepare(transaction: TransactionRequest, i: int)
    requires
        0 <= i < transaction.entities_data().len(),
    ensures
        transaction.entities_data()[i].1.transaction_state == TransactionState::Prepare,
        transaction.entities_data()[i].1.transaction_id == transaction.id(),
        transaction.entities_data()[i].1.cost > 0,
{
}

/// A transaction has as many prepare requests as legs that cost
/// something.
pub proof fn lemma_zero_cost_legs_are_left_out(transaction: TransactionRequest)
    ensures
        transaction.entities_data().len() == (if transaction.hotel_cost() > 0 {
            1int
        } else {
            0int
        }) + (if transaction.bank_cost() > 0 {
            1int
        } else {
            0int
        }) + (if transaction.airline_cost() > 0 {
            1int
        } else {
            0int
        }),
{
}

} // verus!
