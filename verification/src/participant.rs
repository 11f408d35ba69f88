//! A participant of the two-phase commit: it votes on the prepare request
//! of a transaction and follows what the coordinator decides.

use crate::entity_payload::EntityPayload;
use crate::transaction_response::TransactionResponse;
use crate::transaction_state::TransactionState;
use std::collections::HashMap;
use vstd::prelude::*;

verus! {

broadcast use vstd::std_specs::hash::group_hash_axioms;

/// A request that the two phases do not allow: a commit or an abort for a
/// transaction that the participant did not accept, or a state that no
/// request carries.
#[derive(Debug, Copy, Clone, PartialEq, Eq, Structural)]
pub struct ProtocolViolation {
    pub transaction_id: u64,
    /// The state that was asked for.
    pub requested: TransactionState,
    /// What the participant had logged for the transaction.
    pub logged: Option<TransactionState>,
}

/// What a participant answers to a request, given what it has logged for
/// the transaction and whether it would accept a new one.
pub open spec fn answer(
    logged: Option<TransactionState>,
    requested: TransactionState,
    accepts: bool,
) -> Option<TransactionState> {
    match requested {
        TransactionState::Prepare => match logged {
            Some(TransactionState::Accept) | Some(TransactionState::Commit) => Some(
                TransactionState::Commit,
            ),
            Some(TransactionState::Abort) => Some(TransactionState::Abort),
            None => if accepts {
                Some(TransactionState::Commit)
            } else {
                Some(TransactionState::Abort)
            },
            _ => None,
        },
        TransactionState::Commit => match logged {
            Some(TransactionState::Accept) | Some(TransactionState::Commit) => Some(
                TransactionState::Commit,
            ),
            _ => None,
        },
        TransactionState::Abort => match logged {
            Some(TransactionState::Accept) | Some(TransactionState::Abort) => Some(
                TransactionState::Abort,
            ),
            _ => None,
        },
        _ => None,
    }
}

/// What a participant logs for a transaction after a request.
pub open spec fn logged_after(
    logged: Option<TransactionState>,
    requested: TransactionState,
    accepts: bool,
) -> Option<TransactionState> {
    match (requested, logged) {
        (TransactionState::Prepare, None) => if accepts {
            Some(TransactionState::Accept)
        } else {
            Some(TransactionState::Abort)
        },
        (TransactionState::Commit, Some(TransactionState::Accept)) => Some(
            TransactionState::Commit,
        ),
        (TransactionState::Abort, Some(TransactionState::Accept)) => Some(TransactionState::Abort),
        _ => logged,
    }
}

/// What a map holds for a key, if anything.
pub open spec fn lookup(log: Map<u64, TransactionState>, id: u64) -> Option<TransactionState> {
    if log.contains_key(id) {
        Some(log[id])
    } else {
        None
    }
}

/// The log of a participant after a request.
pub open spec fn log_after(
    log: Map<u64, TransactionState>,
    request: EntityPayload,
    accepts: bool,
) -> Map<u64, TransactionState> {
    match logged_after(lookup(log, request.transaction_id), request.transaction_state, accepts) {
        Some(state) => log.insert(request.transaction_id, state),
        None => log,
    }
}

/// A participant and what it has logged for each transaction.
pub struct Participant {
    log: HashMap<u64, TransactionState>,
}

impl View for Participant {
    type V = Map<u64, TransactionState>;

    closed spec fn view(&self) -> Map<u64, TransactionState> {
        self.log@
    }
}

impl Participant {
    /// A participant that has heard of no transaction.
    pub fn new() -> (participant: Self)
        ensures
            participant@ == Map::<u64, TransactionState>::empty(),
    {
        Participant { log: HashMap::new() }
    }

    /// Handles a request of the coordinator. `accepts` is the vote that
    /// the participant casts if the request opens a transaction. A
    /// request that the two phases do not allow changes nothing and is
    /// reported.
    pub fn handle(&mut self, request: EntityPayload, accepts: bool) -> (response: Result<
        TransactionResponse,
        ProtocolViolation,
    >)
        ensures
            match answer(
                lookup(old(self)@, request.transaction_id),
                request.transaction_state,
                accepts,
            ) {
                Some(state) => {
                    &&& response == Ok::<TransactionResponse, ProtocolViolation>(
                        TransactionResponse {
                            transaction_id: request.transaction_id,
                            transaction_state: state,
                        },
                    )
                    &&& final(self)@ == log_after(old(self)@, request, accepts)
                },
                None => {
                    &&& response == Err::<TransactionResponse, ProtocolViolation>(
                        ProtocolViolation {
                            transaction_id: request.transaction_id,
                            requested: request.transaction_state,
                            logged: lookup(old(self)@, request.transaction_id),
                        },
                    )
                    &&& final(self)@ == old(self)@
                },
            },
    {
        let id: u64 = request.transaction_id;
        let logged: Option<TransactionState> = match self.log.get(&id) {
            Some(state) => Some(*state),
            None => None,
        };
        let violation = ProtocolViolation {
            transaction_id: id,
            requested: request.transaction_state,
            logged,
        };
        match request.transaction_state {
            TransactionState::Prepare => match logged {
                Some(TransactionState::Accept) | Some(TransactionState::Commit) => {
                    Ok(TransactionResponse::new(id, TransactionState::Commit))
                },
                Some(TransactionState::Abort) => {
                    Ok(TransactionResponse::new(id, TransactionState::Abort))
                },
                None => {
                    if accepts {
                        self.log.insert(id, TransactionState::Accept);
                        Ok(TransactionResponse::new(id, TransactionState::Commit))
                    } else {
                        self.log.insert(id, TransactionState::Abort);
                        Ok(TransactionResponse::new(id, TransactionState::Abort))
                    }
                },
                _ => Err(violation),
            },
            TransactionState::Commit => match logged {
                Some(TransactionState::Accept) => {
                    self.log.insert(id, TransactionState::Commit);
                    Ok(TransactionResponse::new(id, TransactionState::Commit))
                },
                Some(TransactionState::Commit) => {
                    Ok(TransactionResponse::new(id, TransactionState::Commit))
                },
                _ => Err(violation),
            },
            TransactionState::Abort => match logged {
                Some(TransactionState::Accept) => {
                    self.log.insert(id, TransactionState::Abort);
                    Ok(TransactionResponse::new(id, TransactionState::Abort))
                },
                Some(TransactionState::Abort) => {
                    Ok(TransactionResponse::new(id, TransactionState::Abort))
                },
                _ => Err(violation),
            },
            _ => Err(violation),
        }
    }
}

/// A participant never answers with a state that has no place in a
/// datagram, and once it has answered a prepare request it answers every
/// repetition of the request in the same way.
pub proof fn lemma_votes_are_final(
    logged: Option<TransactionState>,
    requested: TransactionState,
    accepts: bool,
    later: bool,
)
    ensures
        answer(logged, requested, accepts) matches Some(state) ==> state
            == TransactionState::Commit || state == TransactionState::Abort,
        requested == TransactionState::Prepare && answer(logged, requested, accepts) is Some
            ==> answer(logged_after(logged, requested, accepts), requested, later) == answer(
            logged,
            requested,
            accepts,
        ),
{
}

} // verus!
