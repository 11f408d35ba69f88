//! The request datagram that a coordinator sends to a participant.

use crate::big_endian::{
    be_byte_buffer_to_u64, be_bytes, be_value, lemma_be_value_of_bytes, lemma_byte_range_of_u64,
    push_be_u64,
};
use crate::transaction_state::{DecodeError, TransactionState};
use vstd::prelude::*;
use vstd::slice::slice_subrange;

verus! {

/// Length of a request datagram: state, transaction id, cost.
pub const PAYLOAD_SIZE: usize = 17;

/// A request to a participant about one leg of a transaction.
#[derive(Debug, Copy, Clone, PartialEq, Eq, Structural)]
pub struct EntityPayload {
    pub transaction_state: TransactionState,
    pub transaction_id: u64,
    pub cost: u64,
}

impl EntityPayload {
    /// The datagram of a payload whose state is wire-visible.
    pub open spec fn wire_format(self) -> Seq<u8> {
        seq![self.transaction_state.wire_byte()] + be_bytes(self.transaction_id as nat, 8)
            + be_bytes(self.cost as nat, 8)
    }

    /// What a buffer decodes to.
    pub open spec fn parse(bytes: Seq<u8>) -> Result<EntityPayload, DecodeError> {
        if bytes.len() != PAYLOAD_SIZE {
            Err(DecodeError::Length)
        } else {
            match TransactionState::of_wire_byte(bytes[0]) {
                None => Err(DecodeError::State),
                Some(state) => Ok(
                    EntityPayload {
                        transaction_state: state,
                        transaction_id: be_value(bytes.subrange(1, 9)) as u64,
                        cost: be_value(bytes.subrange(9, 17)) as u64,
                    },
                ),
            }
        }
    }

    /// A request that opens a transaction: it starts in `Prepare`.
    pub fn new(transaction_id: u64, cost: u64) -> (payload: Self)
        ensures
            payload == (EntityPayload {
                transaction_state: TransactionState::Prepare,
                transaction_id,
                cost,
            }),
    {
        EntityPayload { transaction_state: TransactionState::Prepare, transaction_id, cost }
    }

    /// Writes the payload as a datagram.
    pub fn encode(&self) -> (datagram: Vec<u8>)
        requires
            self.transaction_state.is_wire_visible(),
        ensures
            datagram@ == self.wire_format(),
            datagram@.len() == PAYLOAD_SIZE,
            Self::parse(datagram@) == Ok::<EntityPayload, DecodeError>(*self),
    {
        let mut datagram: Vec<u8> = Vec::new();
        datagram.push(self.transaction_state.into_byte());
        push_be_u64(&mut datagram, self.transaction_id);
        push_be_u64(&mut datagram, self.cost);
        proof {
            lemma_request_round_trip(*self);
        }
        datagram
    }

    /// Reads a datagram. A buffer of any other length than
    /// [`PAYLOAD_SIZE`], or with an unknown state byte, is rejected.
    pub fn decode(buffer: &[u8]) -> (decoded: Result<Self, DecodeError>)
        ensures
            decoded == Self::parse(buffer@),
            buffer@.len() != PAYLOAD_SIZE ==> decoded == Err::<Self, DecodeError>(
                DecodeError::Length,
            ),
    {
        if buffer.len() != PAYLOAD_SIZE {
            return Err(DecodeError::Length);
        }
        match TransactionState::decode(buffer[0]) {
            Err(e) => Err(e),
            Ok(transaction_state) => {
                let id_bytes = slice_subrange(buffer, 1, 9);
                let cost_bytes = slice_subrange(buffer, 9, 17);
                assert(id_bytes@.subrange(0, 8) =~= buffer@.subrange(1, 9));
                assert(cost_bytes@.subrange(0, 8) =~= buffer@.subrange(9, 17));
                Ok(
                    EntityPayload {
                        transaction_state,
                        transaction_id: be_byte_buffer_to_u64(id_bytes),
                        cost: be_byte_buffer_to_u64(cost_bytes),
                    },
                )
            },
        }
    }
}

/// Encoding a request and decoding the datagram yields the request.
pub proof fn lemma_request_round_trip(payload: EntityPayload)
    requires
        payload.transaction_state.is_wire_visible(),
    ensures
        payload.wire_format().len() == PAYLOAD_SIZE,
        EntityPayload::parse(payload.wire_format()) == Ok::<EntityPayload, DecodeError>(payload),
{
    let bytes = payload.wire_format();
    lemma_byte_range_of_u64();
    lemma_be_value_of_bytes(payload.transaction_id as nat, 8);
    lemma_be_value_of_bytes(payload.cost as nat, 8);
    assert(bytes.subrange(1, 9) =~= be_bytes(payload.transaction_id as nat, 8));
    assert(bytes.subrange(9, 17) =~= be_bytes(payload.cost as nat, 8));
}

} // verus!
