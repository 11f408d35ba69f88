//! The short request datagram: transaction id and cost, without a
//! state.

use crate::big_endian::{be_bytes, push_be_u64};
use vstd::prelude::*;

verus! {

/// Length of a short request datagram.
pub const PAYLOAD_SIZE: usize = 16;

/// A participant service, as the messenger names it.
#[derive(Eq, Hash, PartialEq, Debug, Copy, Clone, Structural)]
pub enum Entity {
    Hotel,
    Bank,
    Airline,
}

/// What one leg of a transaction costs.
#[derive(Debug, Copy, Clone, PartialEq, Eq, Structural)]
pub struct EntityData {
    pub transaction_id: u64,
    pub cost: u64,
}

impl EntityData {
    /// The datagram of the leg: id and cost, eight bytes each.
    pub open spec fn wire_format(self) -> Seq<u8> {
        be_bytes(self.transaction_id as nat, 8) + be_bytes(self.cost as nat, 8)
    }

    pub fn new(transaction_id: u64, cost: u64) -> (data: Self)
        ensures
            data == (EntityData { transaction_id, cost }),
    {
        EntityData { transaction_id, cost }
    }

    /// Writes the leg as a datagram.
    pub fn encode(&self) -> (datagram: Vec<u8>)
        ensures
            datagram@ == self.wire_format(),
    {
        let mut datagram: Vec<u8> = Vec::new();
        push_be_u64(&mut datagram, self.transaction_id);
        push_be_u64(&mut datagram, self.cost);
        datagram
    }
}

} // verus!
