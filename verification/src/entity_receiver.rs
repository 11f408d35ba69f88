//! The receiver of the answers of the participants: the only place where
//! their datagrams are decoded.

use crate::transaction_coordinator::TransactionUpdate;
use crate::transaction_response::TransactionResponse;
use crate::transaction_state::DecodeError;
use vstd::prelude::*;

verus! {

/// Asks the receiver to take the next datagram.
#[derive(Debug, Copy, Clone, PartialEq, Eq, Structural)]
pub struct ReceiveEntityResponse {}

/// What the receiver does with a datagram.
pub open spec fn update_of(datagram: Seq<u8>) -> Result<TransactionUpdate, DecodeError> {
    match TransactionResponse::parse(datagram) {
        Ok(response) => Ok(TransactionUpdate { transaction_response: response }),
        Err(e) => Err(e),
    }
}

/// The receiver of one pipeline.
pub struct EntityReceiver {}

impl EntityReceiver {
    pub fn new() -> (receiver: Self) {
        EntityReceiver {  }
    }

    /// Decodes the datagram of a participant for the coordinator. A
    /// datagram that does not decode is reported and can be dropped; the
    /// receiver is ready for the next one either way.
    pub fn receive_entity_response(&self, msg: ReceiveEntityResponse, datagram: &[u8]) -> (update:
        Result<TransactionUpdate, DecodeError>)
        ensures
            update == update_of(datagram@),
    {
        match TransactionResponse::decode(datagram) {
            Ok(response) => Ok(TransactionUpdate::new(response)),
            Err(e) => Err(e),
        }
    }
}

} // verus!
