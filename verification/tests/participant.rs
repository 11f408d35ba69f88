use alglobo::entity_payload::EntityPayload;
use alglobo::participant::{Participant, ProtocolViolation};
use alglobo::transaction_response::TransactionResponse;
use alglobo::transaction_state::TransactionState;
use alglobo::transaction_state::TransactionState::{Abort, Accept, Commit, Prepare, Wait};

fn request(id: u64, state: TransactionState) -> EntityPayload {
    EntityPayload {
        transaction_state: state,
        transaction_id: id,
        cost: 10,
    }
}

fn violation(id: u64, requested: TransactionState, logged: Option<TransactionState>) -> ProtocolViolation {
    ProtocolViolation {
        transaction_id: id,
        requested,
        logged,
    }
}

#[test]
fn accepted_transaction_is_committed() {
    let mut hotel = Participant::new();
    assert_eq!(hotel.handle(request(1, Prepare), true), Ok(TransactionResponse::new(1, Commit)));
    // The vote stands when the request is repeated.
    assert_eq!(hotel.handle(request(1, Prepare), false), Ok(TransactionResponse::new(1, Commit)));
    assert_eq!(hotel.handle(request(1, Commit), false), Ok(TransactionResponse::new(1, Commit)));
    assert_eq!(hotel.handle(request(1, Commit), false), Ok(TransactionResponse::new(1, Commit)));
    assert_eq!(hotel.handle(request(1, Prepare), false), Ok(TransactionResponse::new(1, Commit)));
    assert_eq!(
        hotel.handle(request(1, Abort), true),
        Err(violation(1, Abort, Some(Commit)))
    );
}

#[test]
fn refused_transaction_is_aborted() {
    let mut bank = Participant::new();
    assert_eq!(bank.handle(request(2, Prepare), false), Ok(TransactionResponse::new(2, Abort)));
    assert_eq!(bank.handle(request(2, Prepare), true), Ok(TransactionResponse::new(2, Abort)));
    assert_eq!(bank.handle(request(2, Abort), true), Ok(TransactionResponse::new(2, Abort)));
    assert_eq!(
        bank.handle(request(2, Commit), true),
        Err(violation(2, Commit, Some(Abort)))
    );
}

#[test]
fn accepted_transaction_can_be_aborted() {
    let mut airline = Participant::new();
    assert_eq!(airline.handle(request(3, Prepare), true), Ok(TransactionResponse::new(3, Commit)));
    assert_eq!(airline.handle(request(3, Abort), true), Ok(TransactionResponse::new(3, Abort)));
    assert_eq!(airline.handle(request(3, Abort), true), Ok(TransactionResponse::new(3, Abort)));
    assert_eq!(airline.handle(request(3, Prepare), true), Ok(TransactionResponse::new(3, Abort)));
}

#[test]
fn unknown_transaction_cannot_be_closed() {
    let mut hotel = Participant::new();
    assert_eq!(hotel.handle(request(4, Commit), true), Err(violation(4, Commit, None)));
    assert_eq!(hotel.handle(request(4, Abort), true), Err(violation(4, Abort, None)));
    assert_eq!(hotel.handle(request(4, Wait), true), Err(violation(4, Wait, None)));
    assert_eq!(hotel.handle(request(4, Accept), true), Err(violation(4, Accept, None)));
    // Nothing of that has left a trace.
    assert_eq!(hotel.handle(request(4, Prepare), true), Ok(TransactionResponse::new(4, Commit)));
}
