//! The messenger: it sends each leg of a transaction to its participant
//! as a short request, and waits for nothing.

use crate::entity_data::{Entity, EntityData};
use crate::transaction::Transaction;
use vstd::prelude::*;

verus! {

/// Hands a transaction to the messenger.
#[derive(Debug, Copy, Clone, PartialEq, Eq, Structural)]
pub struct ServeTransaction {
    pub transaction: Transaction,
}

impl ServeTransaction {
    pub fn new(transaction: Transaction) -> (message: Self)
        ensures
            message.transaction == transaction,
    {
        ServeTransaction { transaction }
    }
}

/// A short request and the participant it is for.
#[derive(Debug)]
pub struct Delivery {
    pub entity: Entity,
    pub payload: Vec<u8>,
}

/// The datagrams of a transaction: one for each leg that costs something,
/// in the order hotel, bank, airline.
pub fn serve_transaction(msg: ServeTransaction) -> (deliveries: Vec<Delivery>)
    ensures
        deliveries@.len() == msg.transaction.entities_data().len(),
        forall|i: int|
            0 <= i < deliveries@.len() ==> {
                &&& (#[trigger] deliveries@[i]).entity == msg.transaction.entities_data()[i].0
                &&& deliveries@[i].payload@ == msg.transaction.entities_data()[i].1.wire_format()
            },
{
    let data: Vec<(Entity, EntityData)> = msg.transaction.get_entities_data();
    let mut deliveries: Vec<Delivery> = Vec::new();
    let mut i: usize = 0;
    while i < data.len()
        invariant
            i <= data.len(),
            data@ == msg.transaction.entities_data(),
            deliveries@.len() == i,
            forall|j: int|
                0 <= j < i ==> {
                    &&& (#[trigger] deliveries@[j]).entity == data@[j].0
                    &&& deliveries@[j].payload@ == data@[j].1.wire_format()
                },
        decreases data.len() - i,
    {
        let entity: Entity = data[i].0;
        let leg: EntityData = data[i].1;
        deliveries.push(Delivery { entity, payload: leg.encode() });
        i = i + 1;
    }
    deliveries
}

} // verus!
