//! The states of a transaction and their one-byte form on the wire.

use vstd::prelude::*;

verus! {

/// Wire byte of `Prepare`.
pub const PREPARE: u8 = 0x0;

/// Wire byte of `Commit`.
pub const COMMIT: u8 = 0x1;

/// Wire byte of `Abort`.
pub const ABORT: u8 = 0x2;

/// State of a transaction as seen by a coordinator or a participant.
///
/// `Wait` and `Accept` are internal and never cross the wire.
#[derive(Debug, Copy, Clone, PartialEq, Eq, Structural)]
pub enum TransactionState {
    Wait,
    Prepare,
    Accept,
    Commit,
    Abort,
}

/// Why a datagram could not be decoded.
#[derive(Debug, Copy, Clone, PartialEq, Eq, Structural)]
pub enum DecodeError {
    /// The buffer does not have the length of the datagram kind.
    Length,
    /// The state byte is not one of the three wire states.
    State,
}

impl TransactionState {
    /// Whether the state may appear in a datagram.
    pub open spec fn is_wire_visible(self) -> bool {
        self is Prepare || self is Commit || self is Abort
    }

    /// The byte that stands for a wire-visible state.
    pub open spec fn wire_byte(self) -> u8 {
        match self {
            TransactionState::Commit => COMMIT,
            TransactionState::Abort => ABORT,
            _ => PREPARE,
        }
    }

    /// The state that a byte stands for, if any.
    pub open spec fn of_wire_byte(byte: u8) -> Option<TransactionState> {
        if byte == PREPARE {
            Some(TransactionState::Prepare)
        } else if byte == COMMIT {
            Some(TransactionState::Commit)
        } else if byte == ABORT {
            Some(TransactionState::Abort)
        } else {
            None
        }
    }

    /// Tells whether the state may appear in a datagram.
    pub fn on_wire(self) -> (visible: bool)
        ensures
            visible == self.is_wire_visible(),
    {
        match self {
            TransactionState::Prepare | TransactionState::Commit | TransactionState::Abort => true,
            _ => false,
        }
    }

    /// Reads a state byte that is known to be valid.
    pub fn from(payload_byte: u8) -> (state: Self)
        requires
            payload_byte <= ABORT,
        ensures
            Self::of_wire_byte(payload_byte) == Some(state),
            state.is_wire_visible(),
            state.wire_byte() == payload_byte,
    {
        if payload_byte == PREPARE {
            TransactionState::Prepare
        } else if payload_byte == COMMIT {
            TransactionState::Commit
        } else {
            TransactionState::Abort
        }
    }

    /// Reads a state byte, rejecting every byte that is not a wire state.
    pub fn decode(payload_byte: u8) -> (decoded: Result<Self, DecodeError>)
        ensures
            match Self::of_wire_byte(payload_byte) {
                Some(state) => decoded == Ok::<Self, DecodeError>(state),
                None => decoded == Err::<Self, DecodeError>(DecodeError::State),
            },
    {
        if payload_byte <= ABORT {
            Ok(Self::from(payload_byte))
        } else {
            Err(DecodeError::State)
        }
    }

    /// Writes a wire-visible state as its byte.
    pub fn into_byte(self) -> (byte: u8)
        requires
            self.is_wire_visible(),
        ensures
            byte == self.wire_byte(),
            Self::of_wire_byte(byte) == Some(self),
    {
        match self {
            TransactionState::Commit => COMMIT,
            TransactionState::Abort => ABORT,
            _ => PREPARE,
        }
    }
}

/// A state survives being written as a byte and read back; a byte that
/// decodes survives the way back.
pub proof fn lemma_state_byte_round_trip(state: TransactionState, byte: u8)
    ensures
        state.is_wire_visible() ==> TransactionState::of_wire_byte(state.wire_byte()) == Some(
            state,
        ),
        TransactionState::of_wire_byte(byte) is Some ==> TransactionState::of_wire_byte(
            byte,
        )->Some_0.wire_byte() == byte,
        TransactionState::of_wire_byte(byte) is Some <==> byte <= ABORT,
{
}

} // verus!
