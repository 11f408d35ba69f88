use alglobo::entity_payload::EntityPayload;
use alglobo::entity_sender::{
    BroadcastTransactionState, DriverError, EntitySender, LedgerUpdate, PrepareTransaction,
};
use alglobo::entity_receiver::{EntityReceiver, ReceiveEntityResponse};
use alglobo::entity_type::EntityType;
use alglobo::file_reader::{FindTransaction, ReadStatus};
use alglobo::file_writer::RegisterDoneTransactionId;
use alglobo::participant::{Participant, ProtocolViolation};
use alglobo::pipeline::{Closing, Deadline, Pipeline};
use alglobo::record::RecordError;
use alglobo::statistics_handler::{GetMeanDuration, MeanDuration};
use alglobo::transaction_coordinator::{TransactionUpdate, UpdateOutcome, WaitTransactionStateResponse};
use alglobo::transaction_dispatcher::Dispatch;
use alglobo::transaction_request::TransactionRequest;
use alglobo::transaction_response::TransactionResponse;
use alglobo::transaction_state::{DecodeError, TransactionState};

const SECOND: u64 = 1_000_000_000;

fn row(fields: &[&str]) -> Vec<String> {
    fields.iter().map(|field| field.to_string()).collect()
}

struct Participants {
    hotel: Participant,
    bank: Participant,
    airline: Participant,
}

impl Participants {
    fn new() -> Participants {
        Participants {
            hotel: Participant::new(),
            bank: Participant::new(),
            airline: Participant::new(),
        }
    }

    fn deliver(&mut self, entity: EntityType, datagram: &[u8]) -> Result<Vec<u8>, ProtocolViolation> {
        let request = EntityPayload::decode(datagram).unwrap();
        let participant = match entity {
            EntityType::Hotel => &mut self.hotel,
            EntityType::Bank => &mut self.bank,
            EntityType::Airline => &mut self.airline,
        };
        participant.handle(request, true).map(|response| response.encode())
    }

    fn broadcast(&mut self, closing: &Closing) -> Vec<Result<Vec<u8>, ProtocolViolation>> {
        closing
            .targets
            .clone()
            .into_iter()
            .map(|entity| self.deliver(entity, &closing.payload))
            .collect()
    }
}

#[test]
fn booking_with_three_legs_is_committed() {
    let mut pipeline = Pipeline::new();
    let mut participants = Participants::new();
    let submission = pipeline.serve_next_transaction(Some(row(&["1", "10", "3", "5"])), 10 * SECOND);
    assert_eq!(submission.status, ReadStatus::KeepReading);
    assert_eq!(
        submission.deadline,
        Some(Deadline { transaction_id: 1, window_s: 10 })
    );
    assert_eq!(
        submission.dispatch,
        Some(Dispatch::Prepare(PrepareTransaction::new(TransactionRequest::new(1, 10, 3, 5))))
    );
    let legs: Vec<EntityType> = submission.datagrams.iter().map(|d| d.entity).collect();
    assert_eq!(legs, vec![EntityType::Hotel, EntityType::Bank, EntityType::Airline]);
    assert_eq!(submission.datagrams[1].payload, EntityPayload::new(1, 3).encode());

    let mut closing = None;
    for (i, datagram) in submission.datagrams.iter().enumerate() {
        let answer = participants.deliver(datagram.entity, &datagram.payload).unwrap();
        assert_eq!(answer, TransactionResponse::new(1, TransactionState::Commit).encode());
        let reception = pipeline.receive_entity_response(&answer, 12 * SECOND).unwrap();
        if i < 2 {
            assert_eq!(reception.outcome, UpdateOutcome::Recorded);
            assert!(reception.closing.is_none());
        } else {
            assert_eq!(
                reception.outcome,
                UpdateOutcome::Resolved(BroadcastTransactionState::new(1, TransactionState::Commit))
            );
            closing = reception.closing;
        }
    }
    let closing = closing.unwrap();
    assert_eq!(closing.transaction_id, 1);
    assert_eq!(closing.transaction_state, TransactionState::Commit);
    assert_eq!(
        closing.payload,
        vec![1u8, 0, 0, 0, 0, 0, 0, 0, 1, 0, 0, 0, 0, 0, 0, 0, 0]
    );
    assert_eq!(
        closing.targets,
        vec![EntityType::Hotel, EntityType::Bank, EntityType::Airline]
    );
    assert_eq!(closing.done, Some(RegisterDoneTransactionId::new(1)));
    assert!(closing.failed.is_none());
    for answer in participants.broadcast(&closing) {
        assert_eq!(
            answer.unwrap(),
            TransactionResponse::new(1, TransactionState::Commit).encode()
        );
    }
    assert_eq!(closing.done.unwrap().record(), vec!["1".to_string()]);
    assert_eq!(pipeline.coordinator().state_of(1), Some(TransactionState::Commit));
    assert_eq!(
        pipeline.statistics().mean_duration(GetMeanDuration {}),
        MeanDuration { seconds: 2, transactions: 1 }
    );
    // The deadline that was started comes too late to change anything.
    assert!(pipeline.deadline_elapsed(1, 20 * SECOND).is_none());
}

#[test]
fn booking_with_a_leg_that_costs_nothing_sends_two_requests() {
    let mut pipeline = Pipeline::new();
    let mut participants = Participants::new();
    let submission = pipeline.serve_next_transaction(Some(row(&["1", "10", "0", "5"])), 0);
    let legs: Vec<EntityType> = submission.datagrams.iter().map(|d| d.entity).collect();
    assert_eq!(legs, vec![EntityType::Hotel, EntityType::Airline]);
    assert_eq!(submission.datagrams[0].payload, EntityPayload::new(1, 10).encode());
    assert_eq!(submission.datagrams[1].payload, EntityPayload::new(1, 5).encode());
    assert_eq!(
        submission.deadline,
        Some(Deadline { transaction_id: 1, window_s: 10 })
    );
    for datagram in &submission.datagrams {
        let answer = participants.deliver(datagram.entity, &datagram.payload).unwrap();
        assert_eq!(answer, TransactionResponse::new(1, TransactionState::Commit).encode());
        let reception = pipeline.receive_entity_response(&answer, SECOND).unwrap();
        assert_eq!(reception.outcome, UpdateOutcome::Recorded);
    }
    // Two answers resolve nothing: the third is missing at the deadline.
    let closing = pipeline.deadline_elapsed(1, 10 * SECOND).unwrap();
    assert_eq!(closing.transaction_state, TransactionState::Abort);
    assert_eq!(closing.payload[0], 2);
    assert_eq!(closing.done, None);
    assert_eq!(closing.failed.as_ref().unwrap().raw_transaction, row(&["1", "10", "0", "5"]));
    assert_eq!(closing.targets.len(), 3);
    let answers = participants.broadcast(&closing);
    assert_eq!(
        answers[0],
        Ok(TransactionResponse::new(1, TransactionState::Abort).encode())
    );
    assert_eq!(
        answers[1],
        Err(ProtocolViolation {
            transaction_id: 1,
            requested: TransactionState::Abort,
            logged: None
        })
    );
    assert_eq!(
        answers[2],
        Ok(TransactionResponse::new(1, TransactionState::Abort).encode())
    );
    assert_eq!(pipeline.coordinator().state_of(1), Some(TransactionState::Abort));
    assert!(pipeline.deadline_elapsed(1, 11 * SECOND).is_none());
}

#[test]
fn new_leader_skips_what_the_done_ledger_lists() {
    let mut pipeline = Pipeline::new();
    pipeline.read_done_transactions(&row(&["id", "5"]));
    let mut opened = Vec::new();
    for id in ["4", "5", "6"] {
        let submission = pipeline.serve_next_transaction(Some(row(&[id, "1", "1", "1"])), 0);
        assert_eq!(submission.status, ReadStatus::KeepReading);
        match submission.dispatch {
            Some(Dispatch::Prepare(sent)) => {
                assert_eq!(submission.datagrams.len(), 3);
                assert_eq!(
                    submission.deadline.unwrap().transaction_id,
                    sent.transaction.get_transaction_id()
                );
                opened.push(sent.transaction.get_transaction_id());
            }
            Some(Dispatch::AlreadyDone(done)) => {
                assert_eq!(done, 5);
                assert!(submission.datagrams.is_empty());
                assert_eq!(submission.deadline, None);
            }
            other => panic!("unexpected: {:?}", other),
        }
    }
    assert_eq!(opened, vec![4, 6]);
    assert_eq!(pipeline.coordinator().state_of(5), None);
    assert_eq!(
        pipeline.statistics().mean_duration(GetMeanDuration {}).transactions,
        2
    );
    // A ledger without an id leaves the known ids alone.
    pipeline.read_done_transactions(&row(&["id"]));
    let submission = pipeline.serve_next_transaction(Some(row(&["5", "1", "1", "1"])), 0);
    assert_eq!(submission.dispatch, Some(Dispatch::AlreadyDone(5)));
}

#[test]
fn rows_that_are_no_transactions_are_dropped() {
    let mut pipeline = Pipeline::new();
    let submission = pipeline.serve_next_transaction(Some(row(&["id", "hotel_cost", "bank_cost", "airline_cost"])), 0);
    assert_eq!(submission.status, ReadStatus::ParseError(RecordError::InvalidId));
    assert_eq!(submission.dispatch, None);
    let submission = pipeline.serve_next_transaction(Some(row(&["3", "x", "1", "1"])), 0);
    assert_eq!(submission.status, ReadStatus::KeepReading);
    assert_eq!(submission.dispatch, Some(Dispatch::Dropped(RecordError::Malformed)));
    assert!(submission.datagrams.is_empty());
    let submission = pipeline.serve_next_transaction(None, 0);
    assert_eq!(submission.status, ReadStatus::Eof);
    assert_eq!(
        pipeline.statistics().mean_duration(GetMeanDuration {}).transactions,
        0
    );
}

#[test]
fn datagrams_that_do_not_decode_are_dropped() {
    let mut pipeline = Pipeline::new();
    pipeline.serve_next_transaction(Some(row(&["1", "1", "1", "1"])), 0);
    assert_eq!(
        pipeline.receive_entity_response(&[1, 0, 0], 0).unwrap_err(),
        DecodeError::Length
    );
    assert_eq!(
        pipeline
            .receive_entity_response(&[7, 0, 0, 0, 0, 0, 0, 0, 1], 0)
            .unwrap_err(),
        DecodeError::State
    );
    let receiver = EntityReceiver::new();
    assert_eq!(
        receiver.receive_entity_response(ReceiveEntityResponse {}, &[1, 0, 0, 0, 0, 0, 0, 0, 9]),
        Ok(TransactionUpdate::new(TransactionResponse::new(9, TransactionState::Commit)))
    );
    assert_eq!(
        receiver.receive_entity_response(ReceiveEntityResponse {}, &[]),
        Err(DecodeError::Length)
    );
}

#[test]
fn driver_opens_and_closes_a_transaction() {
    let mut sender = EntitySender::new();
    let message = PrepareTransaction::new(TransactionRequest::new(3, 0, 7, 0));
    let preparation = sender.prepare_transaction(&message);
    assert_eq!(
        preparation.wait,
        WaitTransactionStateResponse::new(3, TransactionState::Wait, TransactionState::Commit, true)
    );
    assert_eq!(preparation.datagrams.len(), 1);
    assert_eq!(preparation.datagrams[0].entity, EntityType::Bank);
    assert_eq!(
        preparation.datagrams[0].payload,
        vec![0u8, 0, 0, 0, 0, 0, 0, 0, 3, 0, 0, 0, 0, 0, 0, 0, 7]
    );
    assert_eq!(
        sender
            .broadcast_transaction_state(BroadcastTransactionState::new(3, TransactionState::Abort), 0)
            .unwrap_err(),
        DriverError::UntrackedTransaction
    );
    assert_eq!(sender.transaction_sent(message, 5 * SECOND).transaction_id, 3);
    let closing = sender
        .broadcast_transaction_state(BroadcastTransactionState::new(3, TransactionState::Abort), 7 * SECOND)
        .unwrap();
    assert_eq!(closing.unregister.transaction_id, 3);
    assert_eq!(closing.unregister.duration, 2 * SECOND);
    assert_eq!(closing.ledger, Some(LedgerUpdate::Failed(FindTransaction::new(3))));
    assert_eq!(
        closing.targets,
        vec![EntityType::Hotel, EntityType::Bank, EntityType::Airline]
    );
    assert_eq!(
        closing.payload,
        vec![2u8, 0, 0, 0, 0, 0, 0, 0, 3, 0, 0, 0, 0, 0, 0, 0, 0]
    );
    let closing = sender
        .broadcast_transaction_state(BroadcastTransactionState::new(3, TransactionState::Commit), SECOND)
        .unwrap();
    assert_eq!(closing.unregister.duration, 0);
    assert_eq!(
        closing.ledger,
        Some(LedgerUpdate::Done(RegisterDoneTransactionId::new(3)))
    );
    let closing = sender
        .broadcast_transaction_state(BroadcastTransactionState::new(3, TransactionState::Prepare), SECOND)
        .unwrap();
    assert_eq!(closing.ledger, None);
    assert_eq!(
        sender
            .broadcast_transaction_state(BroadcastTransactionState::new(3, TransactionState::Wait), 0)
            .unwrap_err(),
        DriverError::StateNotOnWire
    );
    assert_eq!(
        sender
            .broadcast_transaction_state(BroadcastTransactionState::new(4, TransactionState::Wait), 0)
            .unwrap_err(),
        DriverError::UntrackedTransaction
    );
}
