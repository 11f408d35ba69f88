//! The coordinator of the two-phase commit: it collects what the
//! participants answer about a transaction and decides commit or abort.
//!
//! A transaction is resolved once: by three answers that agree, or by its
//! deadline. The program around the coordinator owns the timer; it calls
//! [`TransactionCoordinator::register_wait`] before the prepare requests
//! leave, [`TransactionCoordinator::record_response`] for each answer and
//! [`TransactionCoordinator::deadline_elapsed`] when the window has passed.

use crate::entity_sender::BroadcastTransactionState;
use crate::transaction_response::TransactionResponse;
use crate::transaction_state::TransactionState;
use std::collections::HashMap;
use vstd::prelude::*;

verus! {

broadcast use vstd::std_specs::hash::group_hash_axioms;

/// Seconds that the participants have to answer.
pub const TIMEOUT_S: u64 = 10;

/// Number of participants, and so of answers that resolve a transaction.
pub const PARTICIPANTS: usize = 3;

/// An answer of a participant, on its way to the coordinator.
#[derive(Debug, Copy, Clone, PartialEq, Eq, Structural)]
pub struct TransactionUpdate {
    pub transaction_response: TransactionResponse,
}

impl TransactionUpdate {
    pub fn new(transaction_response: TransactionResponse) -> (update: Self)
        ensures
            update.transaction_response == transaction_response,
    {
        TransactionUpdate { transaction_response }
    }
}

/// Asks the coordinator to wait for the answers about a transaction.
#[derive(Debug, Copy, Clone, PartialEq, Eq, Structural)]
pub struct WaitTransactionStateResponse {
    pub transaction_id: u64,
    /// The state that the transaction enters while it waits.
    pub transaction_state: TransactionState,
    /// The state that all participants have to answer with.
    pub expected_transaction_state: TransactionState,
    pub should_await_next_response: bool,
}

impl WaitTransactionStateResponse {
    pub fn new(
        transaction_id: u64,
        transaction_state: TransactionState,
        expected_transaction_state: TransactionState,
        should_await_next_response: bool,
    ) -> (wait: Self)
        ensures
            wait == (WaitTransactionStateResponse {
                transaction_id,
                transaction_state,
                expected_transaction_state,
                should_await_next_response,
            }),
    {
        WaitTransactionStateResponse {
            transaction_id,
            transaction_state,
            expected_transaction_state,
            should_await_next_response,
        }
    }
}

/// What the coordinator did with a request to wait.
#[derive(Debug, Copy, Clone, PartialEq, Eq, Structural)]
pub enum WaitOutcome {
    /// The transaction is in the log already: nothing was changed, and no
    /// deadline is to be started.
    AlreadyRegistered,
    /// The wait is registered: the caller starts the deadline, of
    /// `window_s` seconds.
    DeadlineStarted { window_s: u64 },
}

/// A request that breaks the two phases: the coordinator refuses it and
/// changes nothing.
#[derive(Debug, Copy, Clone, PartialEq, Eq, Structural)]
pub enum CoordinatorError {
    /// A wait was asked for a transaction whose answers are awaited
    /// already, with another expectation than `waiting_for`.
    ReusedWhilePending { transaction_id: u64, waiting_for: TransactionState },
}

/// What the coordinator did with an answer of a participant.
#[derive(Debug, Copy, Clone, PartialEq, Eq, Structural)]
pub enum UpdateOutcome {
    /// The answer was appended; the transaction stays as it was.
    Recorded,
    /// Three answers are held already: the answer was dropped.
    Ignored,
    /// Three answers agreed, but nobody waits for them: they were dropped.
    Discarded,
    /// Three answers agreed and resolved the transaction: the driver must
    /// broadcast the state.
    Resolved(BroadcastTransactionState),
}

/// The answers collected for one transaction, and the state that a waiter
/// expects of them, if one waits.
#[derive(Debug)]
pub struct PendingResolution {
    pub expected: Option<TransactionState>,
    pub responses: Vec<TransactionState>,
}

/// A [`PendingResolution`] as a mathematical value.
pub struct PendingView {
    pub expected: Option<TransactionState>,
    pub responses: Seq<TransactionState>,
}

impl View for PendingResolution {
    type V = PendingView;

    open spec fn view(&self) -> PendingView {
        PendingView { expected: self.expected, responses: self.responses@ }
    }
}

/// Whether every answer is `state`.
pub open spec fn all_share(responses: Seq<TransactionState>, state: TransactionState) -> bool {
    forall|i: int| 0 <= i < responses.len() ==> responses[i] == state
}

/// The state that a transaction is resolved to by the answers collected
/// for it: the expected state if all three participants answered with it,
/// `Abort` otherwise.
pub open spec fn resolution(
    expected: TransactionState,
    responses: Seq<TransactionState>,
) -> TransactionState {
    if responses.len() == PARTICIPANTS && all_share(responses, expected) {
        expected
    } else {
        TransactionState::Abort
    }
}

/// The coordinator as a mathematical value: the log of the transactions it
/// has heard of, and the answers it holds.
pub struct CoordinatorState {
    pub log: Map<u64, TransactionState>,
    pub pending: Map<u64, PendingView>,
}

impl CoordinatorState {
    /// The state that a waiter expects for `id`, if one waits.
    pub open spec fn expectation(self, id: u64) -> Option<TransactionState> {
        if self.pending.contains_key(id) {
            self.pending[id].expected
        } else {
            None
        }
    }

    /// The answers held for `id`.
    pub open spec fn collected(self, id: u64) -> Seq<TransactionState> {
        if self.pending.contains_key(id) {
            self.pending[id].responses
        } else {
            Seq::empty()
        }
    }

    /// Whether a waiter for `id` can still be woken.
    pub open spec fn armed(self, id: u64) -> bool {
        self.expectation(id) is Some
    }

    /// Whether `id` has been resolved.
    pub open spec fn fired(self, id: u64) -> bool {
        self.log.contains_key(id) && !self.armed(id)
    }

    /// Whether an answer `state` for `id` completes three answers that
    /// agree, for a transaction that is not yet resolved.
    pub open spec fn completes(self, id: u64, state: TransactionState) -> bool {
        let answers = self.collected(id).push(state);
        answers.len() == PARTICIPANTS && all_share(answers, state) && !self.fired(id)
    }

    /// Whether a wait for `id` with expectation `expected` reuses the id
    /// of a transaction whose answers are awaited with another one.
    pub open spec fn conflicts(self, id: u64, expected: TransactionState) -> bool {
        self.armed(id) && self.expectation(id) != Some(expected)
    }

    /// The coordinator after a request to wait for `id`: a transaction
    /// that is not in the log is logged with the expected state, and its
    /// waiter can be woken; any other request changes nothing.
    pub open spec fn register_wait(self, id: u64, expected: TransactionState) -> CoordinatorState {
        if self.conflicts(id, expected) || self.log.contains_key(id) {
            self
        } else {
            CoordinatorState {
                log: self.log.insert(id, expected),
                pending: self.pending.insert(
                    id,
                    PendingView { expected: Some(expected), responses: self.collected(id) },
                ),
            }
        }
    }

    /// What a request to wait for `id` is answered with.
    pub open spec fn wait_outcome(self, id: u64, expected: TransactionState) -> Result<
        WaitOutcome,
        CoordinatorError,
    > {
        if self.conflicts(id, expected) {
            Err(
                CoordinatorError::ReusedWhilePending {
                    transaction_id: id,
                    waiting_for: self.expectation(id)->Some_0,
                },
            )
        } else if self.log.contains_key(id) {
            Ok(WaitOutcome::AlreadyRegistered)
        } else {
            Ok(WaitOutcome::DeadlineStarted { window_s: TIMEOUT_S })
        }
    }

    /// The coordinator after an answer `state` about `id`. The answer is
    /// appended unless three are held. If it completes three answers that
    /// agree, the answers leave the coordinator, and the log takes what
    /// they resolve the transaction to, if somebody waits for it.
    pub open spec fn record_response(self, id: u64, state: TransactionState) -> CoordinatorState {
        let answers = self.collected(id).push(state);
        if self.collected(id).len() >= PARTICIPANTS {
            self
        } else if self.completes(id, state) {
            match self.expectation(id) {
                Some(expected) => CoordinatorState {
                    log: self.log.insert(id, resolution(expected, answers)),
                    pending: self.pending.remove(id),
                },
                None => CoordinatorState { log: self.log, pending: self.pending.remove(id) },
            }
        } else {
            CoordinatorState {
                log: self.log,
                pending: self.pending.insert(
                    id,
                    PendingView { expected: self.expectation(id), responses: answers },
                ),
            }
        }
    }

    /// What an answer `state` about `id` comes to.
    pub open spec fn response_outcome(self, id: u64, state: TransactionState) -> UpdateOutcome {
        if self.collected(id).len() >= PARTICIPANTS {
            UpdateOutcome::Ignored
        } else if self.completes(id, state) {
            match self.expectation(id) {
                Some(expected) => UpdateOutcome::Resolved(
                    BroadcastTransactionState {
                        transaction_id: id,
                        transaction_state: resolution(expected, self.collected(id).push(state)),
                    },
                ),
                None => UpdateOutcome::Discarded,
            }
        } else {
            UpdateOutcome::Recorded
        }
    }

    /// The coordinator after the deadline of `id`: a transaction whose
    /// waiter can still be woken is aborted, and what was collected for it
    /// leaves the coordinator.
    pub open spec fn deadline_elapsed(self, id: u64) -> CoordinatorState {
        if self.armed(id) {
            CoordinatorState {
                log: self.log.insert(id, TransactionState::Abort),
                pending: self.pending.remove(id),
            }
        } else {
            self
        }
    }

    /// What the driver has to broadcast after the deadline of `id`, if
    /// anything.
    pub open spec fn deadline_outcome(self, id: u64) -> Option<BroadcastTransactionState> {
        if self.armed(id) {
            Some(
                BroadcastTransactionState {
                    transaction_id: id,
                    transaction_state: TransactionState::Abort,
                },
            )
        } else {
            None
        }
    }
}

impl CoordinatorState {
    /// The coordinator after a run of answers about one transaction.
    pub open spec fn after_answers(
        self,
        id: u64,
        answers: Seq<TransactionState>,
    ) -> CoordinatorState
        decreases answers.len(),
    {
        if answers.len() == 0 {
            self
        } else {
            self.after_answers(id, answers.drop_last()).record_response(id, answers.last())
        }
    }

    /// What holds of every coordinator that was built by the operations of
    /// this module: no more than three answers are held for a transaction,
    /// and whoever waits for a transaction has logged it.
    pub open spec fn wf(self) -> bool {
        forall|id: u64| #[trigger]
            self.pending.contains_key(id) ==> self.pending[id].responses.len() <= PARTICIPANTS && (
            self.pending[id].expected is Some ==> self.log.contains_key(id))
    }

    /// Whether nothing has been heard of `id`: it is not logged, nobody
    /// waits for it and no answer is held for it.
    pub open spec fn fresh(self, id: u64) -> bool {
        !self.log.contains_key(id) && !self.armed(id) && self.collected(id).len() == 0
    }
}

/// Where a transaction stands in the two phases.
pub enum Phase {
    /// Nobody has asked to wait for it.
    NotStarted,
    /// Its answers are awaited.
    Preparing,
    /// It is resolved to the state given: committed or aborted.
    Resolved(TransactionState),
}

impl CoordinatorState {
    /// Where a transaction stands.
    pub open spec fn phase(self, id: u64) -> Phase {
        if !self.log.contains_key(id) {
            Phase::NotStarted
        } else if self.armed(id) {
            Phase::Preparing
        } else {
            Phase::Resolved(self.log[id])
        }
    }
}

/// Whether a transaction may pass from one phase to another: it starts,
/// then it is resolved, and what it is resolved to stays.
pub open spec fn follows(before: Phase, after: Phase) -> bool {
    match before {
        Phase::NotStarted => after is NotStarted || after is Preparing,
        Phase::Preparing => after is Preparing || after is Resolved,
        Phase::Resolved(_) => after == before,
    }
}

/// A transaction goes through its phases in order, whatever is asked of
/// the coordinator, about this transaction or another: not started, then
/// preparing, then resolved, to the state that its waiter expected or to
/// `Abort`.
pub proof fn lemma_phases_are_ordered(
    pre: CoordinatorState,
    id: u64,
    other: u64,
    state: TransactionState,
)
    requires
        pre.wf(),
    ensures
        follows(pre.phase(id), pre.register_wait(other, state).phase(id)),
        follows(pre.phase(id), pre.record_response(other, state).phase(id)),
        follows(pre.phase(id), pre.deadline_elapsed(other).phase(id)),
        pre.phase(id) is Preparing ==> (pre.record_response(other, state).phase(id)
            matches Phase::Resolved(resolved) ==> resolved == pre.expectation(id)->Some_0
            || resolved == TransactionState::Abort),
        pre.phase(id) is Preparing ==> (pre.deadline_elapsed(other).phase(id)
            matches Phase::Resolved(resolved) ==> resolved == TransactionState::Abort),
{
}

/// Every operation keeps a well-formed coordinator well-formed.
pub proof fn lemma_operations_keep_wf(pre: CoordinatorState, id: u64, state: TransactionState)
    requires
        pre.wf(),
    ensures
        pre.register_wait(id, state).wf(),
        pre.record_response(id, state).wf(),
        pre.deadline_elapsed(id).wf(),
{
}

/// After the wait for a new transaction is registered, three answers with
/// the expected state resolve it to that state: the first two are only
/// recorded, the third tells the driver to broadcast the state, and the
/// log holds it.
pub proof fn lemma_three_matching_answers_resolve(
    pre: CoordinatorState,
    id: u64,
    expected: TransactionState,
)
    requires
        pre.fresh(id),
    ensures
        ({
            let waiting = pre.register_wait(id, expected);
            let first = waiting.record_response(id, expected);
            let second = first.record_response(id, expected);
            let third = second.record_response(id, expected);
            &&& pre.wait_outcome(id, expected) == Ok::<WaitOutcome, CoordinatorError>(
                WaitOutcome::DeadlineStarted { window_s: TIMEOUT_S },
            )
            &&& waiting.response_outcome(id, expected) == UpdateOutcome::Recorded
            &&& first.response_outcome(id, expected) == UpdateOutcome::Recorded
            &&& second.response_outcome(id, expected) == UpdateOutcome::Resolved(
                BroadcastTransactionState { transaction_id: id, transaction_state: expected },
            )
            &&& third.log[id] == expected
            &&& third.fired(id)
            &&& third.deadline_outcome(id) is None
        }),
{
    let waiting = pre.register_wait(id, expected);
    let first = waiting.record_response(id, expected);
    let second = first.record_response(id, expected);
    let answers = seq![expected, expected, expected];
    assert(waiting.collected(id) =~= Seq::<TransactionState>::empty());
    assert(first.collected(id) =~= seq![expected]);
    assert(second.collected(id) =~= seq![expected, expected]);
    assert(second.collected(id).push(expected) =~= answers);
    assert(all_share(answers, expected));
}

/// After the wait for a new transaction is registered, three answers of
/// which one is not the expected state never resolve it to the expected
/// state: the transaction is aborted, by the third answer if the three
/// agree, by the deadline otherwise, and by exactly one of the two.
pub proof fn lemma_dissent_aborts(
    pre: CoordinatorState,
    id: u64,
    expected: TransactionState,
    answers: Seq<TransactionState>,
)
    requires
        pre.fresh(id),
        answers.len() == PARTICIPANTS,
        !all_share(answers, expected),
    ensures
        ({
            let waiting = pre.register_wait(id, expected);
            let second = waiting.after_answers(id, answers.subrange(0, 2));
            let third = waiting.after_answers(id, answers);
            let last = second.response_outcome(id, answers[2]);
            let abort = BroadcastTransactionState {
                transaction_id: id,
                transaction_state: TransactionState::Abort,
            };
            &&& waiting.response_outcome(id, answers[0]) == UpdateOutcome::Recorded
            &&& last == UpdateOutcome::Resolved(abort) || last == UpdateOutcome::Recorded
            &&& last == UpdateOutcome::Resolved(abort) <==> third.deadline_outcome(id) is None
            &&& last == UpdateOutcome::Recorded <==> third.deadline_outcome(id) == Some(abort)
            &&& third.deadline_elapsed(id).log[id] == TransactionState::Abort
            &&& third.deadline_elapsed(id).fired(id)
        }),
{
    let waiting = pre.register_wait(id, expected);
    let two = answers.subrange(0, 2);
    let one = two.drop_last();
    assert(one.drop_last() =~= Seq::<TransactionState>::empty());
    assert(answers.drop_last() =~= two);
    reveal_with_fuel(CoordinatorState::after_answers, 4);
    let first = waiting.record_response(id, answers[0]);
    let second = first.record_response(id, answers[1]);
    assert(waiting.after_answers(id, one) == first);
    assert(waiting.after_answers(id, two) == second);
    assert(waiting.collected(id) =~= Seq::<TransactionState>::empty());
    assert(first.collected(id) =~= seq![answers[0]]);
    assert(second.collected(id) =~= seq![answers[0], answers[1]]);
    assert(second.collected(id).push(answers[2]) =~= answers);
    if all_share(answers, answers[2]) {
        assert(answers[2] != expected);
        assert(answers[0] == answers[2]);
    }
}

/// After the wait for a new transaction is registered, fewer than three
/// answers leave it waiting, whatever they say, and the deadline then
/// aborts it.
pub proof fn lemma_missing_answer_aborts(
    pre: CoordinatorState,
    id: u64,
    expected: TransactionState,
    answers: Seq<TransactionState>,
)
    requires
        pre.fresh(id),
        answers.len() < PARTICIPANTS,
    ensures
        ({
            let late = pre.register_wait(id, expected).after_answers(id, answers);
            &&& late.armed(id)
            &&& late.collected(id) == answers
            &&& late.deadline_outcome(id) == Some(
                BroadcastTransactionState {
                    transaction_id: id,
                    transaction_state: TransactionState::Abort,
                },
            )
            &&& late.deadline_elapsed(id).log[id] == TransactionState::Abort
            &&& late.deadline_elapsed(id).fired(id)
        }),
    decreases answers.len(),
{
    let waiting = pre.register_wait(id, expected);
    if answers.len() == 0 {
        assert(waiting.collected(id) =~= answers);
    } else {
        lemma_missing_answer_aborts(pre, id, expected, answers.drop_last());
        let earlier = waiting.after_answers(id, answers.drop_last());
        assert(earlier.collected(id).push(answers.last()) =~= answers);
    }
}

/// Asking twice to wait for the same transaction, with the same
/// expectation, is asking once: the second request changes nothing and
/// starts no second deadline.
pub proof fn lemma_register_wait_is_idempotent(
    pre: CoordinatorState,
    id: u64,
    expected: TransactionState,
)
    ensures
        ({
            let once = pre.register_wait(id, expected);
            &&& once.register_wait(id, expected) == once
            &&& pre.wait_outcome(id, expected) is Ok ==> once.wait_outcome(id, expected) == Ok::<
                WaitOutcome,
                CoordinatorError,
            >(WaitOutcome::AlreadyRegistered)
        }),
{
}

/// A wait is refused if and only if the answers of the transaction are
/// awaited with another expectation, and a wait that is refused changes
/// nothing.
pub proof fn lemma_reuse_while_pending_is_refused(
    pre: CoordinatorState,
    id: u64,
    expected: TransactionState,
)
    ensures
        pre.wait_outcome(id, expected) is Err <==> pre.conflicts(id, expected),
        pre.wf() ==> (pre.conflicts(id, expected) <==> pre.phase(id) is Preparing
            && pre.expectation(id) != Some(expected)),
        pre.wait_outcome(id, expected) is Err ==> pre.register_wait(id, expected) == pre,
{
}

/// A transaction is resolved once: when it is resolved, no request to
/// wait, no answer and no deadline resolves it again or changes what the
/// log holds for it, whichever transaction they are about.
pub proof fn lemma_resolved_once(
    pre: CoordinatorState,
    id: u64,
    other: u64,
    state: TransactionState,
)
    requires
        pre.fired(id),
    ensures
        pre.wait_outcome(id, state) == Ok::<WaitOutcome, CoordinatorError>(
            WaitOutcome::AlreadyRegistered,
        ),
        !(pre.response_outcome(id, state) is Resolved),
        pre.deadline_outcome(id) is None,
        pre.register_wait(other, state).fired(id),
        pre.record_response(other, state).fired(id),
        pre.deadline_elapsed(other).fired(id),
        pre.register_wait(other, state).log[id] == pre.log[id],
        pre.record_response(other, state).log[id] == pre.log[id],
        pre.deadline_elapsed(other).log[id] == pre.log[id],
{
}

/// What can be asked of the coordinator.
pub enum Request {
    /// To wait for the answers about a transaction.
    Wait { id: u64, expected: TransactionState },
    /// To record the answer of a participant.
    Answer { id: u64, state: TransactionState },
    /// To take note that the deadline of a transaction has passed.
    Deadline { id: u64 },
}

impl CoordinatorState {
    /// The coordinator after a request.
    pub open spec fn step(self, request: Request) -> CoordinatorState {
        match request {
            Request::Wait { id, expected } => self.register_wait(id, expected),
            Request::Answer { id, state } => self.record_response(id, state),
            Request::Deadline { id } => self.deadline_elapsed(id),
        }
    }

    /// Whether a request resolves the transaction `id`, and so makes the
    /// driver broadcast its state.
    pub open spec fn resolves(self, request: Request, id: u64) -> bool {
        match request {
            Request::Wait { .. } => false,
            Request::Answer { id: about, state } => about == id && self.response_outcome(
                about,
                state,
            ) is Resolved,
            Request::Deadline { id: about } => about == id && self.deadline_outcome(about) is Some,
        }
    }

    /// How often a run of requests resolves the transaction `id`.
    pub open spec fn resolutions(self, requests: Seq<Request>, id: u64) -> nat
        decreases requests.len(),
    {
        if requests.len() == 0 {
            0
        } else {
            (if self.resolves(requests[0], id) {
                1nat
            } else {
                0nat
            }) + self.step(requests[0]).resolutions(requests.drop_first(), id)
        }
    }
}

/// A transaction that is resolved is not resolved again, whatever is asked
/// of the coordinator from then on.
pub proof fn lemma_resolved_stays_resolved(pre: CoordinatorState, requests: Seq<Request>, id: u64)
    requires
        pre.fired(id),
    ensures
        pre.resolutions(requests, id) == 0,
    decreases requests.len(),
{
    if requests.len() > 0 {
        match requests[0] {
            Request::Wait { id: about, expected } => {
                lemma_resolved_once(pre, id, about, expected);
            },
            Request::Answer { id: about, state } => {
                lemma_resolved_once(pre, id, about, state);
                lemma_resolved_once(pre, id, id, state);
            },
            Request::Deadline { id: about } => {
                lemma_resolved_once(pre, id, about, TransactionState::Abort);
            },
        }
        lemma_resolved_stays_resolved(pre.step(requests[0]), requests.drop_first(), id);
    }
}

/// Whatever is asked of the coordinator, and however often, a transaction
/// is resolved at most once: the driver broadcasts one state for it.
pub proof fn lemma_at_most_one_resolution(pre: CoordinatorState, requests: Seq<Request>, id: u64)
    ensures
        pre.resolutions(requests, id) <= 1,
    decreases requests.len(),
{
    if requests.len() > 0 {
        let first = requests[0];
        if pre.resolves(first, id) {
            match first {
                Request::Answer { id: about, state } => {
                    lemma_resolution_is_expected_or_abort(pre, id, state);
                },
                _ => {},
            }
            lemma_resolved_stays_resolved(pre.step(first), requests.drop_first(), id);
        } else {
            lemma_at_most_one_resolution(pre.step(first), requests.drop_first(), id);
        }
    }
}

/// An answer or a deadline resolves a transaction only to the state its
/// waiter expected or to `Abort`, and resolving it is what makes it
/// resolved.
pub proof fn lemma_resolution_is_expected_or_abort(
    pre: CoordinatorState,
    id: u64,
    state: TransactionState,
)
    ensures
        match pre.response_outcome(id, state) {
            UpdateOutcome::Resolved(broadcast) => {
                &&& pre.armed(id)
                &&& broadcast.transaction_id == id
                &&& broadcast.transaction_state == pre.expectation(id)->Some_0
                    || broadcast.transaction_state == TransactionState::Abort
                &&& pre.record_response(id, state).fired(id)
                &&& pre.record_response(id, state).log[id] == broadcast.transaction_state
            },
            _ => pre.record_response(id, state).log == pre.log,
        },
        pre.armed(id) ==> pre.deadline_elapsed(id).fired(id),
{
}

/// Tells whether every answer is `state`.
pub fn all_answers_are(responses: &Vec<TransactionState>, state: TransactionState) -> (same: bool)
    ensures
        same == all_share(responses@, state),
{
    let mut i: usize = 0;
    while i < responses.len()
        invariant
            i <= responses.len(),
            forall|j: int| 0 <= j < i ==> responses@[j] == state,
        decreases responses.len() - i,
    {
        if responses[i] != state {
            return false;
        }
        i = i + 1;
    }
    true
}

/// Decides what a transaction is resolved to by the answers collected for
/// it: `expected` if exactly three answers were collected and each is
/// `expected`, `Abort` otherwise.
pub fn resolve(expected: TransactionState, responses: &Vec<TransactionState>) -> (state:
    TransactionState)
    ensures
        state == resolution(expected, responses@),
{
    if responses.len() == PARTICIPANTS && all_answers_are(responses, expected) {
        expected
    } else {
        TransactionState::Abort
    }
}

/// The coordinator of the two-phase commit.
pub struct TransactionCoordinator {
    transaction_log: HashMap<u64, TransactionState>,
    pending: HashMap<u64, PendingResolution>,
}

impl View for TransactionCoordinator {
    type V = CoordinatorState;

    closed spec fn view(&self) -> CoordinatorState {
        CoordinatorState {
            log: self.transaction_log@,
            pending: Map::new(
                |id: u64| self.pending@.contains_key(id),
                |id: u64| self.pending@[id]@,
            ),
        }
    }
}

impl TransactionCoordinator {
    /// A coordinator that has heard of no transaction.
    pub fn new() -> (coordinator: Self)
        ensures
            coordinator@.log == Map::<u64, TransactionState>::empty(),
            coordinator@.pending == Map::<u64, PendingView>::empty(),
            coordinator@.wf(),
    {
        let coordinator = TransactionCoordinator {
            transaction_log: HashMap::new(),
            pending: HashMap::new(),
        };
        assert(coordinator@.pending =~= Map::<u64, PendingView>::empty());
        coordinator
    }

    /// The last state logged for a transaction, if it is known.
    pub fn state_of(&self, transaction_id: u64) -> (state: Option<TransactionState>)
        ensures
            state == (if self@.log.contains_key(transaction_id) {
                Some(self@.log[transaction_id])
            } else {
                None
            }),
    {
        match self.transaction_log.get(&transaction_id) {
            Some(state) => Some(*state),
            None => None,
        }
    }

    /// Whether a waiter for the transaction can still be woken.
    pub fn is_waiting(&self, transaction_id: u64) -> (waiting: bool)
        ensures
            waiting == self@.armed(transaction_id),
    {
        match self.pending.get(&transaction_id) {
            Some(entry) => entry.expected.is_some(),
            None => false,
        }
    }

    /// Registers that the driver waits for the answers about a
    /// transaction. A transaction that is in the log already is left
    /// alone; otherwise the expected state is logged and the deadline of
    /// [`TIMEOUT_S`] seconds is to be started. A wait for a transaction
    /// whose answers are awaited with another expectation is an error,
    /// and changes nothing.
    pub fn register_wait(&mut self, msg: WaitTransactionStateResponse) -> (outcome: Result<
        WaitOutcome,
        CoordinatorError,
    >)
        ensures
            final(self)@ == old(self)@.register_wait(
                msg.transaction_id,
                msg.expected_transaction_state,
            ),
            outcome == old(self)@.wait_outcome(
                msg.transaction_id,
                msg.expected_transaction_state,
            ),
            old(self)@.wf() ==> final(self)@.wf(),
    {
        proof {
            if self@.wf() {
                lemma_operations_keep_wf(self@, msg.transaction_id, msg.expected_transaction_state);
            }
        }
        let id: u64 = msg.transaction_id;
        match self.pending.get(&id) {
            Some(entry) => match entry.expected {
                Some(waiting_for) => {
                    if waiting_for != msg.expected_transaction_state {
                        return Err(
                            CoordinatorError::ReusedWhilePending { transaction_id: id, waiting_for },
                        );
                    }
                },
                None => {},
            },
            None => {},
        }
        if self.transaction_log.contains_key(&id) {
            return Ok(WaitOutcome::AlreadyRegistered);
        }
        let responses: Vec<TransactionState> = match self.pending.remove(&id) {
            Some(entry) => entry.responses,
            None => Vec::new(),
        };
        self.transaction_log.insert(id, msg.expected_transaction_state);
        self.pending.insert(
            id,
            PendingResolution { expected: Some(msg.expected_transaction_state), responses },
        );
        assert(self@.pending =~= old(self)@.register_wait(
            id,
            msg.expected_transaction_state,
        ).pending);
        Ok(WaitOutcome::DeadlineStarted { window_s: TIMEOUT_S })
    }

    /// Records the answer of a participant. The third answer, if all three
    /// agree and the transaction is not resolved yet, resolves it.
    pub fn record_response(&mut self, msg: TransactionUpdate) -> (outcome: UpdateOutcome)
        ensures
            final(self)@ == old(self)@.record_response(
                msg.transaction_response.transaction_id,
                msg.transaction_response.transaction_state,
            ),
            outcome == old(self)@.response_outcome(
                msg.transaction_response.transaction_id,
                msg.transaction_response.transaction_state,
            ),
            old(self)@.wf() ==> final(self)@.wf(),
    {
        proof {
            if self@.wf() {
                lemma_operations_keep_wf(
                    self@,
                    msg.transaction_response.transaction_id,
                    msg.transaction_response.transaction_state,
                );
            }
        }
        let id: u64 = msg.transaction_response.transaction_id;
        let state: TransactionState = msg.transaction_response.transaction_state;
        let ghost before = self@;
        let logged: bool = self.transaction_log.contains_key(&id);
        let mut entry: PendingResolution = match self.pending.remove(&id) {
            Some(entry) => entry,
            None => PendingResolution { expected: None, responses: Vec::new() },
        };
        assert(entry@.responses == before.collected(id));
        assert(entry@.expected == before.expectation(id));
        if entry.responses.len() >= PARTICIPANTS {
            self.pending.insert(id, entry);
            assert(self@.pending =~= before.pending);
            return UpdateOutcome::Ignored;
        }
        entry.responses.push(state);
        let completes: bool = entry.responses.len() == PARTICIPANTS && all_answers_are(
            &entry.responses,
            state,
        ) && (!logged || entry.expected.is_some());
        assert(completes == before.completes(id, state));
        if completes {
            assert(self@.pending =~= before.pending.remove(id));
            match entry.expected {
                Some(expected) => {
                    let resolved: TransactionState = resolve(expected, &entry.responses);
                    self.transaction_log.insert(id, resolved);
                    assert(self@.pending =~= before.pending.remove(id));
                    UpdateOutcome::Resolved(BroadcastTransactionState::new(id, resolved))
                },
                None => UpdateOutcome::Discarded,
            }
        } else {
            self.pending.insert(id, entry);
            assert(self@.pending =~= before.record_response(id, state).pending);
            UpdateOutcome::Recorded
        }
    }

    /// Tells the coordinator that the deadline of a transaction has
    /// passed. A transaction that still waits is resolved to `Abort`; for
    /// any other the call changes nothing.
    pub fn deadline_elapsed(&mut self, transaction_id: u64) -> (broadcast: Option<
        BroadcastTransactionState,
    >)
        ensures
            final(self)@ == old(self)@.deadline_elapsed(transaction_id),
            broadcast == old(self)@.deadline_outcome(transaction_id),
            old(self)@.wf() ==> final(self)@.wf(),
    {
        let ghost before = self@;
        proof {
            if before.wf() {
                lemma_operations_keep_wf(before, transaction_id, TransactionState::Abort);
            }
        }
        if !self.is_waiting(transaction_id) {
            return None;
        }
        self.pending.remove(&transaction_id);
        self.transaction_log.insert(transaction_id, TransactionState::Abort);
        assert(self@.pending =~= before.pending.remove(transaction_id));
        Some(BroadcastTransactionState::new(transaction_id, TransactionState::Abort))
    }
}

} // verus!
