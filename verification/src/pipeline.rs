//! The transaction pipeline of a leader: reader, dispatcher, driver,
//! coordinator and statistics, wired together.
//!
//! The pipeline takes what the program around it has read or received, a
//! row of the source, a datagram of a participant, the end of a deadline,
//! and gives back what the program has to send, to start and to write.
//! With each it takes the time, in nanoseconds since a moment of the
//! program's choice.

use crate::entity_payload::EntityPayload;
use crate::entity_receiver::{update_of, EntityReceiver, ReceiveEntityResponse};
use crate::entity_sender::{
    elapsed, ledger_update, BroadcastTransactionState, Datagram, EntitySender, LedgerUpdate,
};
use crate::entity_type::EntityType;
use crate::file_reader::{
    dispatch_of_row, done_ids, row_id, FileReader, ReadDoneTransactions, ReadStatus,
    ServeNextTransaction,
};
use crate::file_writer::{FailedTransaction, RegisterDoneTransactionId};
use crate::record::field_texts;
use crate::statistics_handler::{StatisticsHandler, StatisticsState};
use crate::transaction_coordinator::{
    lemma_missing_answer_aborts, lemma_three_matching_answers_resolve, CoordinatorState,
    PendingView, TransactionCoordinator, UpdateOutcome, WaitOutcome, PARTICIPANTS, TIMEOUT_S,
};
use crate::transaction_dispatcher::{Dispatch, TransactionDispatcher};
use crate::transaction_request::TransactionRequest;
use crate::transaction_state::{DecodeError, TransactionState};
use vstd::prelude::*;

verus! {

/// The deadline of a transaction: `window_s` seconds from now.
#[derive(Debug, Copy, Clone, PartialEq, Eq, Structural)]
pub struct Deadline {
    pub transaction_id: u64,
    pub window_s: u64,
}

/// What the pipeline did with what the source gave.
#[derive(Debug)]
pub struct Submission {
    pub status: ReadStatus,
    /// What the dispatcher decided about the row, if the reader handed it
    /// out.
    pub dispatch: Option<Dispatch>,
    /// The prepare requests to send.
    pub datagrams: Vec<Datagram>,
    /// The deadline to start, if there is one: before the prepare
    /// requests are sent.
    pub deadline: Option<Deadline>,
}

/// What the program does about a transaction that is resolved.
#[derive(Debug)]
pub struct Closing {
    pub transaction_id: u64,
    pub transaction_state: TransactionState,
    /// The request that carries the final state.
    pub payload: Vec<u8>,
    /// The participants that the request goes to.
    pub targets: Vec<EntityType>,
    /// The entry for the done-ledger, after a commit.
    pub done: Option<RegisterDoneTransactionId>,
    /// The row that the transaction was read from, for the
    /// failed-ledger, after an abort.
    pub failed: Option<FailedTransaction>,
}

/// What the pipeline did with the answer of a participant.
#[derive(Debug)]
pub struct Reception {
    pub outcome: UpdateOutcome,
    /// What to do about the transaction, if the answer resolved it.
    pub closing: Option<Closing>,
}

/// The pipeline as a mathematical value.
pub struct PipelineState {
    pub coordinator: CoordinatorState,
    /// When each transaction was opened.
    pub opened: Map<u64, u64>,
    /// The rows of the transactions that were opened and are not closed,
    /// by transaction id.
    pub rows: Map<u64, Seq<Seq<char>>>,
    /// The transactions of the done-ledger.
    pub done: Set<u64>,
    pub statistics: StatisticsState,
}

impl PipelineState {
    /// What holds of every pipeline that this module builds: whoever
    /// waits for a transaction expects `Commit` of it, the driver has
    /// opened it, and its row is kept.
    pub open spec fn wf(self) -> bool {
        &&& self.statistics.wf()
        &&& forall|id: u64| #[trigger]
            self.coordinator.pending.contains_key(id) && self.coordinator.pending[id].expected
                is Some ==> self.coordinator.pending[id].expected == Some(
                TransactionState::Commit,
            ) && self.opened.contains_key(id) && self.rows.contains_key(id)
    }

    /// The pipeline after the ids of a done-ledger were read. A ledger
    /// that lists no id changes nothing.
    pub open spec fn load_done(self, rows: Seq<Seq<char>>) -> PipelineState {
        if done_ids(rows).is_empty() {
            self
        } else {
            PipelineState { done: done_ids(rows), ..self }
        }
    }

    /// The pipeline after the driver has opened a transaction that was
    /// read from `row`, at `now`.
    pub open spec fn open(
        self,
        transaction: TransactionRequest,
        row: Seq<Seq<char>>,
        now: u64,
    ) -> PipelineState {
        PipelineState {
            coordinator: self.coordinator.register_wait(
                transaction.id(),
                TransactionState::Commit,
            ),
            opened: self.opened.insert(transaction.id(), now),
            rows: self.rows.insert(transaction.id(), row),
            statistics: self.statistics.register(transaction.id()),
            ..self
        }
    }

    /// What the dispatcher decides about a row.
    pub open spec fn dispatch(self, row: Seq<Seq<char>>) -> Dispatch {
        dispatch_of_row(self.done, row)
    }

    /// The pipeline after it has taken a row of the source at `now`: a row
    /// that is a transaction and is not done is opened, any other row
    /// changes nothing.
    pub open spec fn submit(self, row: Seq<Seq<char>>, now: u64) -> PipelineState {
        match row_id(row) {
            Err(_) => self,
            Ok(_) => match self.dispatch(row) {
                Dispatch::Prepare(sent) => self.open(sent.transaction, row, now),
                _ => self,
            },
        }
    }

    /// The pipeline after the driver has closed a transaction at `now`:
    /// the statistics count it as finished, and the row of a transaction
    /// that is committed or aborted is let go.
    pub open spec fn close(self, resolved: BroadcastTransactionState, now: u64) -> PipelineState {
        PipelineState {
            statistics: self.statistics.unregister(
                resolved.transaction_id,
                elapsed(self.opened[resolved.transaction_id], now),
            ),
            rows: if ledger_update(resolved.transaction_id, resolved.transaction_state) is Some {
                self.rows.remove(resolved.transaction_id)
            } else {
                self.rows
            },
            ..self
        }
    }

    /// The pipeline after it has taken the answer of a participant.
    pub open spec fn answer(self, id: u64, state: TransactionState, now: u64) -> PipelineState {
        let recorded = PipelineState {
            coordinator: self.coordinator.record_response(id, state),
            ..self
        };
        match self.coordinator.response_outcome(id, state) {
            UpdateOutcome::Resolved(resolved) => recorded.close(resolved, now),
            _ => recorded,
        }
    }

    /// The pipeline after the deadline of a transaction has passed.
    pub open spec fn deadline(self, id: u64, now: u64) -> PipelineState {
        let aborted = PipelineState { coordinator: self.coordinator.deadline_elapsed(id), ..self };
        match self.coordinator.deadline_outcome(id) {
            Some(resolved) => aborted.close(resolved, now),
            None => aborted,
        }
    }
}

/// Whether `closing` is what the program has to do about `resolved`, for a
/// pipeline that held `rows` before.
pub open spec fn closes(
    closing: Closing,
    resolved: BroadcastTransactionState,
    rows: Map<u64, Seq<Seq<char>>>,
) -> bool {
    &&& closing.transaction_id == resolved.transaction_id
    &&& closing.transaction_state == resolved.transaction_state
    &&& closing.payload@ == (EntityPayload {
        transaction_state: resolved.transaction_state,
        transaction_id: resolved.transaction_id,
        cost: 0,
    }).wire_format()
    &&& closing.targets@ == seq![EntityType::Hotel, EntityType::Bank, EntityType::Airline]
    &&& closing.done == (if resolved.transaction_state == TransactionState::Commit {
        Some(RegisterDoneTransactionId { transaction_id: resolved.transaction_id })
    } else {
        None
    })
    &&& closing.failed is Some <==> resolved.transaction_state == TransactionState::Abort
    &&& closing.failed matches Some(row) ==> field_texts(row.raw_transaction@)
        == rows[resolved.transaction_id]
}

/// The transaction pipeline of a leader.
pub struct Pipeline {
    coordinator: TransactionCoordinator,
    sender: EntitySender,
    receiver: EntityReceiver,
    reader: FileReader,
    dispatcher: TransactionDispatcher,
    statistics: StatisticsHandler,
}

impl View for Pipeline {
    type V = PipelineState;

    closed spec fn view(&self) -> PipelineState {
        PipelineState {
            coordinator: self.coordinator@,
            opened: self.sender@,
            rows: self.reader@,
            done: self.dispatcher@,
            statistics: self.statistics@,
        }
    }
}

impl Pipeline {
    /// A pipeline that has seen no transaction: nothing is logged, no
    /// answer is held and nobody waits, no transaction is opened, no row
    /// is kept, no transaction is known as done, and the statistics have
    /// counted nothing.
    pub fn new() -> (pipeline: Self)
        ensures
            pipeline@ == (PipelineState {
                coordinator: CoordinatorState {
                    log: Map::<u64, TransactionState>::empty(),
                    pending: Map::<u64, PendingView>::empty(),
                },
                opened: Map::<u64, u64>::empty(),
                rows: Map::<u64, Seq<Seq<char>>>::empty(),
                done: Set::<u64>::empty(),
                statistics: StatisticsState {
                    in_flight: Set::<u64>::empty(),
                    total: 0,
                    finished: 0,
                    elapsed: 0,
                },
            }),
            pipeline@.wf(),
    {
        Pipeline {
            coordinator: TransactionCoordinator::new(),
            sender: EntitySender::new(),
            receiver: EntityReceiver::new(),
            reader: FileReader::new(),
            dispatcher: TransactionDispatcher::new(),
            statistics: StatisticsHandler::new(),
        }
    }

    /// The statistics of the pipeline.
    pub fn statistics(&self) -> (statistics: &StatisticsHandler)
        ensures
            statistics@ == self@.statistics,
    {
        &self.statistics
    }

    /// The coordinator of the pipeline.
    pub fn coordinator(&self) -> (coordinator: &TransactionCoordinator)
        ensures
            coordinator@ == self@.coordinator,
    {
        &self.coordinator
    }

    /// Takes the rows of the done-ledger: the transactions they list will
    /// not be opened again.
    pub fn read_done_transactions(&mut self, rows: &Vec<String>)
        ensures
            final(self)@ == old(self)@.load_done(field_texts(rows@)),
            old(self)@.wf() ==> final(self)@.wf(),
    {
        match self.reader.read_done_transactions(ReadDoneTransactions {  }, rows) {
            Some(save) => {
                self.dispatcher.save_done_transactions(save);
            },
            None => {},
        }
    }

    /// Takes what the source gave at `now`: a row, or nothing at its end.
    /// A row that is a transaction and is not done is opened: its wait is
    /// registered, its prepare requests are handed back, and the
    /// statistics count it.
    pub fn serve_next_transaction(&mut self, record: Option<Vec<String>>, now: u64) -> (submission:
        Submission)
        requires
            old(self)@.wf(),
            old(self)@.statistics.total < u64::MAX,
        ensures
            final(self)@.wf(),
            match record {
                None => {
                    &&& submission.status == ReadStatus::Eof
                    &&& submission.dispatch is None
                    &&& submission.datagrams@.len() == 0
                    &&& submission.deadline is None
                    &&& final(self)@ == old(self)@
                },
                Some(fields) => {
                    let row = field_texts(fields@);
                    &&& final(self)@ == old(self)@.submit(row, now)
                    &&& match row_id(row) {
                        Err(e) => {
                            &&& submission.status == ReadStatus::ParseError(e)
                            &&& submission.dispatch is None
                            &&& submission.datagrams@.len() == 0
                            &&& submission.deadline is None
                        },
                        Ok(_) => {
                            &&& submission.status == ReadStatus::KeepReading
                            &&& submission.dispatch == Some(old(self)@.dispatch(row))
                            &&& match old(self)@.dispatch(row) {
                                Dispatch::Prepare(sent) => {
                                    let legs = sent.transaction.entities_data();
                                    &&& submission.deadline == (if old(
                                        self,
                                    )@.coordinator.log.contains_key(sent.transaction.id()) {
                                        None
                                    } else {
                                        Some(
                                            Deadline {
                                                transaction_id: sent.transaction.id(),
                                                window_s: TIMEOUT_S,
                                            },
                                        )
                                    })
                                    &&& submission.datagrams@.len() == legs.len()
                                    &&& forall|i: int|
                                        0 <= i < legs.len() ==> {
                                            &&& (#[trigger] submission.datagrams@[i]).entity
                                                == legs[i].0
                                            &&& submission.datagrams@[i].payload@
                                                == legs[i].1.wire_format()
                                        }
                                },
                                _ => {
                                    &&& submission.datagrams@.len() == 0
                                    &&& submission.deadline is None
                                },
                            }
                        },
                    }
                },
            },
    {
        let served = self.reader.serve_next_transaction(
            ServeNextTransaction {  },
            record,
            &self.dispatcher,
        );
        match served.dispatch {
            Some(Dispatch::Prepare(sent)) => {
                let preparation = self.sender.prepare_transaction(&sent);
                let waiting: WaitOutcome = match self.coordinator.register_wait(
                    preparation.wait,
                ) {
                    Ok(waiting) => waiting,
                    // Whoever waits expects `Commit`, as this wait does.
                    Err(_) => unreached(),
                };
                let register = self.sender.transaction_sent(sent, now);
                self.statistics.register_transaction(register);
                let deadline: Option<Deadline> = match waiting {
                    WaitOutcome::DeadlineStarted { window_s } => Some(
                        Deadline { transaction_id: preparation.wait.transaction_id, window_s },
                    ),
                    WaitOutcome::AlreadyRegistered => None,
                };
                Submission {
                    status: served.status,
                    dispatch: served.dispatch,
                    datagrams: preparation.datagrams,
                    deadline,
                }
            },
            _ => Submission {
                status: served.status,
                dispatch: served.dispatch,
                datagrams: Vec::new(),
                deadline: None,
            },
        }
    }

    /// Closes a transaction that the coordinator has just resolved.
    fn close(&mut self, resolved: BroadcastTransactionState, now: u64) -> (closing: Closing)
        requires
            old(self)@.statistics.wf(),
            old(self)@.opened.contains_key(resolved.transaction_id),
            old(self)@.rows.contains_key(resolved.transaction_id),
            resolved.transaction_state.is_wire_visible(),
        ensures
            final(self)@ == old(self)@.close(resolved, now),
            closes(closing, resolved, old(self)@.rows),
    {
        let broadcast = match self.sender.broadcast_transaction_state(resolved, now) {
            Ok(broadcast) => broadcast,
            // The transaction is opened and its state has a place in a
            // datagram, so the driver cannot refuse.
            Err(_) => unreached(),
        };
        self.statistics.unregister_transaction(broadcast.unregister);
        let mut done: Option<RegisterDoneTransactionId> = None;
        let mut failed: Option<FailedTransaction> = None;
        match broadcast.ledger {
            Some(LedgerUpdate::Done(entry)) => {
                self.reader.forget_transaction(entry.transaction_id);
                done = Some(entry);
            },
            Some(LedgerUpdate::Failed(find)) => {
                failed = self.reader.find_transaction(find);
            },
            None => {},
        }
        Closing {
            transaction_id: resolved.transaction_id,
            transaction_state: resolved.transaction_state,
            payload: broadcast.payload,
            targets: broadcast.targets,
            done,
            failed,
        }
    }

    /// Takes the datagram of a participant at `now`. A datagram that does
    /// not decode changes nothing. The answer that resolves a transaction
    /// closes it: the final state goes to every participant, and the
    /// ledgers learn of it.
    pub fn receive_entity_response(&mut self, datagram: &[u8], now: u64) -> (reception: Result<
        Reception,
        DecodeError,
    >)
        requires
            old(self)@.wf(),
        ensures
            final(self)@.wf(),
            match update_of(datagram@) {
                Err(e) => reception is Err && reception->Err_0 == e && final(self)@ == old(self)@,
                Ok(update) => {
                    let id = update.transaction_response.transaction_id;
                    let state = update.transaction_response.transaction_state;
                    let outcome = old(self)@.coordinator.response_outcome(id, state);
                    &&& reception is Ok
                    &&& reception->Ok_0.outcome == outcome
                    &&& final(self)@ == old(self)@.answer(id, state, now)
                    &&& match outcome {
                        UpdateOutcome::Resolved(resolved) => {
                            &&& reception->Ok_0.closing is Some
                            &&& closes(reception->Ok_0.closing->Some_0, resolved, old(self)@.rows)
                        },
                        _ => reception->Ok_0.closing is None,
                    }
                },
            },
    {
        let update = match self.receiver.receive_entity_response(
            ReceiveEntityResponse {  },
            datagram,
        ) {
            Ok(update) => update,
            Err(e) => {
                return Err(e);
            },
        };
        let outcome: UpdateOutcome = self.coordinator.record_response(update);
        match outcome {
            UpdateOutcome::Resolved(resolved) => {
                let closing = self.close(resolved, now);
                Ok(Reception { outcome, closing: Some(closing) })
            },
            _ => {
                Ok(Reception { outcome, closing: None })
            },
        }
    }

    /// Takes the end of the deadline of a transaction at `now`. A
    /// transaction that still waits is aborted and closed; for any other
    /// the call changes nothing.
    pub fn deadline_elapsed(&mut self, transaction_id: u64, now: u64) -> (closing: Option<Closing>)
        requires
            old(self)@.wf(),
        ensures
            final(self)@.wf(),
            final(self)@ == old(self)@.deadline(transaction_id, now),
            match old(self)@.coordinator.deadline_outcome(transaction_id) {
                Some(resolved) => closing is Some && closes(
                    closing->Some_0,
                    resolved,
                    old(self)@.rows,
                ),
                None => closing is None,
            },
    {
        match self.coordinator.deadline_elapsed(transaction_id) {
            Some(resolved) => {
                Some(self.close(resolved, now))
            },
            None => None,
        }
    }
}

/// A row of a transaction that the done-ledger lists changes nothing and
/// sends nothing, and neither does a row that is no transaction: a leader
/// that reads the source from its start skips what is finished.
pub proof fn lemma_finished_rows_change_nothing(pre: PipelineState, row: Seq<Seq<char>>, now: u64)
    ensures
        pre.dispatch(row) matches Dispatch::AlreadyDone(id) ==> pre.done.contains(id),
        pre.dispatch(row) matches Dispatch::Prepare(sent) ==> !pre.done.contains(
            sent.transaction.id(),
        ),
        !(pre.dispatch(row) is Prepare) ==> pre.submit(row, now) == pre,
        row_id(row) is Err ==> pre.submit(row, now) == pre,
{
}

/// A transaction that the pipeline opens for the first time and that
/// every participant answers with `Commit` is committed by the third
/// answer: the driver broadcasts `Commit`, the id goes to the done-ledger,
/// the log holds `Commit`, and the statistics count it as finished.
pub proof fn lemma_three_commits_reach_the_done_ledger(
    pre: PipelineState,
    transaction: TransactionRequest,
    row: Seq<Seq<char>>,
    opened_at: u64,
    first_at: u64,
    second_at: u64,
    third_at: u64,
)
    requires
        pre.wf(),
        pre.coordinator.fresh(transaction.id()),
        !pre.statistics.in_flight.contains(transaction.id()),
    ensures
        ({
            let id = transaction.id();
            let commit = TransactionState::Commit;
            let opened = pre.open(transaction, row, opened_at);
            let first = opened.answer(id, commit, first_at);
            let second = first.answer(id, commit, second_at);
            let third = second.answer(id, commit, third_at);
            let resolved = BroadcastTransactionState { transaction_id: id, transaction_state: commit };
            &&& opened.coordinator.response_outcome(id, commit) == UpdateOutcome::Recorded
            &&& first.coordinator.response_outcome(id, commit) == UpdateOutcome::Recorded
            &&& second.coordinator.response_outcome(id, commit) == UpdateOutcome::Resolved(resolved)
            &&& ledger_update(id, commit) == Some(
                LedgerUpdate::Done(RegisterDoneTransactionId { transaction_id: id }),
            )
            &&& third.coordinator.log[id] == commit
            &&& third.coordinator.fired(id)
            &&& third.statistics.finished == pre.statistics.finished + 1
            &&& third.statistics.elapsed == pre.statistics.elapsed + elapsed(opened_at, third_at)
            &&& third.rows == pre.rows.remove(id)
        }),
{
    lemma_three_matching_answers_resolve(pre.coordinator, transaction.id(), TransactionState::Commit);
}

/// A transaction that the pipeline opens for the first time and that
/// fewer than three participants answer is aborted by its deadline: the
/// driver broadcasts `Abort`, nothing goes to the done-ledger, and the
/// row that the transaction was read from leaves the pipeline for the
/// failed-ledger.
pub proof fn lemma_missing_answers_reach_the_failed_ledger(
    pre: PipelineState,
    transaction: TransactionRequest,
    row: Seq<Seq<char>>,
    answers: Seq<TransactionState>,
    opened_at: u64,
    deadline_at: u64,
)
    requires
        pre.wf(),
        pre.coordinator.fresh(transaction.id()),
        answers.len() < PARTICIPANTS,
    ensures
        ({
            let id = transaction.id();
            let abort = TransactionState::Abort;
            let opened = pre.open(transaction, row, opened_at);
            let late = PipelineState {
                coordinator: opened.coordinator.after_answers(id, answers),
                ..opened
            };
            let closed = late.deadline(id, deadline_at);
            &&& late.coordinator.deadline_outcome(id) == Some(
                BroadcastTransactionState { transaction_id: id, transaction_state: abort },
            )
            &&& ledger_update(id, abort) == Some(
                LedgerUpdate::Failed(crate::file_reader::FindTransaction { transaction_id: id }),
            )
            &&& closed.coordinator.log[id] == abort
            &&& closed.coordinator.fired(id)
            &&& late.rows[id] == row
            &&& !closed.rows.contains_key(id)
        }),
{
    lemma_missing_answer_aborts(
        pre.coordinator,
        transaction.id(),
        TransactionState::Commit,
        answers,
    );
}

} // verus!
