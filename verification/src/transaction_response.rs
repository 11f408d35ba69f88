//! The response datagram that a participant sends back.

use crate::big_endian::{
    be_byte_buffer_to_u64, be_bytes, be_value, lemma_be_value_of_bytes, lemma_byte_range_of_u64,
    push_be_u64,
};
use crate::transaction_state::{DecodeError, TransactionState};
use vstd::prelude::*;
use vstd::slice::slice_subrange;

verus! {

/// Length of a response datagram: state, transaction id.
pub const TRANSACTION_RESPONSE_PAYLOAD_SIZE: usize = 9;

/// What a participant answers about a transaction.
#[derive(Debug, Copy, Clone, PartialEq, Eq, Structural)]
pub struct TransactionResponse {
    pub transaction_id: u64,
    pub transaction_state: TransactionState,
}

impl TransactionResponse {
    /// The datagram of a response whose state is wire-visible.
    pub open spec fn wire_format(self) -> Seq<u8> {
        seq![self.transaction_state.wire_byte()] + be_bytes(self.transaction_id as nat, 8)
    }

    /// What a buffer decodes to.
    pub open spec fn parse(bytes: Seq<u8>) -> Result<TransactionResponse, DecodeError> {
        if bytes.len() != TRANSACTION_RESPONSE_PAYLOAD_SIZE {
            Err(DecodeError::Length)
        } else {
            match TransactionState::of_wire_byte(bytes[0]) {
                None => Err(DecodeError::State),
                Some(state) => Ok(
                    TransactionResponse {
                        transaction_id: be_value(bytes.subrange(1, 9)) as u64,
                        transaction_state: state,
                    },
                ),
            }
        }
    }

    pub fn new(transaction_id: u64, transaction_state: TransactionState) -> (response: Self)
        ensures
            response == (TransactionResponse { transaction_id, transaction_state }),
    {
        TransactionResponse { transaction_id, transaction_state }
    }

    /// Writes the response as a datagram.
    pub fn encode(&self) -> (datagram: Vec<u8>)
        requires
            self.transaction_state.is_wire_visible(),
        ensures
            datagram@ == self.wire_format(),
            datagram@.len() == TRANSACTION_RESPONSE_PAYLOAD_SIZE,
            Self::parse(datagram@) == Ok::<TransactionResponse, DecodeError>(*self),
    {
        let mut datagram: Vec<u8> = Vec::new();
        datagram.push(self.transaction_state.into_byte());
        push_be_u64(&mut datagram, self.transaction_id);
        proof {
            lemma_response_round_trip(*self);
        }
        datagram
    }

    /// Reads a datagram. A buffer of any other length than
    /// [`TRANSACTION_RESPONSE_PAYLOAD_SIZE`], or with an unknown state
    /// byte, is rejected.
    pub fn decode(buffer: &[u8]) -> (decoded: Result<Self, DecodeError>)
        ensures
            decoded == Self::parse(buffer@),
            buffer@.len() != TRANSACTION_RESPONSE_PAYLOAD_SIZE ==> decoded == Err::<
                Self,
                DecodeError,
            >(DecodeError::Length),
    {
        if buffer.len() != TRANSACTION_RESPONSE_PAYLOAD_SIZE {
            return Err(DecodeError::Length);
        }
        match TransactionState::decode(buffer[0]) {
            Err(e) => Err(e),
            Ok(transaction_state) => {
                let id_bytes = slice_subrange(buffer, 1, 9);
                assert(id_bytes@.subrange(0, 8) =~= buffer@.subrange(1, 9));
                Ok(
                    TransactionResponse {
                        transaction_id: be_byte_buffer_to_u64(id_bytes),
                        transaction_state,
                    },
                )
            },
        }
    }
}

/// Encoding a response and decoding the datagram yields the response.
pub proof fn lemma_response_round_trip(response: TransactionResponse)
    requires
        response.transaction_state.is_wire_visible(),
    ensures
        response.wire_format().len() == TRANSACTION_RESPONSE_PAYLOAD_SIZE,
        TransactionResponse::parse(response.wire_format()) == Ok::<
            TransactionResponse,
            DecodeError,
        >(response),
{
    let bytes = response.wire_format();
    lemma_byte_range_of_u64();
    lemma_be_value_of_bytes(response.transaction_id as nat, 8);
    assert(bytes.subrange(1, 9) =~= be_bytes(response.transaction_id as nat, 8));
}

} // verus!
