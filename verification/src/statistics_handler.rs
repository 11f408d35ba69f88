//! Counts the transactions that were started and finished, and the time
//! that the finished ones took.

use std::collections::HashSet;
use vstd::prelude::*;

verus! {

broadcast use vstd::std_specs::hash::group_hash_axioms;

/// Seconds between two reports.
pub const LOG_PERIOD_S: u64 = 1;

/// Nanoseconds of a second.
pub const NANOS_PER_SECOND: u128 = 1_000_000_000;

/// Tells that the prepare requests of a transaction have left.
#[derive(Debug, Copy, Clone, PartialEq, Eq, Structural)]
pub struct RegisterTransaction {
    pub transaction_id: u64,
}

impl RegisterTransaction {
    pub fn new(transaction_id: u64) -> (message: Self)
        ensures
            message.transaction_id == transaction_id,
    {
        RegisterTransaction { transaction_id }
    }
}

/// Tells that a transaction was resolved, and how long it took, in
/// nanoseconds.
#[derive(Debug, Copy, Clone, PartialEq, Eq, Structural)]
pub struct UnregisterTransaction {
    pub transaction_id: u64,
    pub duration: u64,
}

impl UnregisterTransaction {
    pub fn new(transaction_id: u64, duration: u64) -> (message: Self)
        ensures
            message == (UnregisterTransaction { transaction_id, duration }),
    {
        UnregisterTransaction { transaction_id, duration }
    }
}

/// Asks for the mean time of a transaction.
#[derive(Debug, Copy, Clone, PartialEq, Eq, Structural)]
pub struct GetMeanDuration {}

/// Asks for the periodic report.
#[derive(Debug, Copy, Clone, PartialEq, Eq, Structural)]
pub struct LogPeriodically {}

/// The two numbers whose quotient is a mean time in seconds. With no
/// transaction the mean is zero.
#[derive(Debug, Copy, Clone, PartialEq, Eq, Structural)]
pub struct MeanDuration {
    /// Whole seconds that the finished transactions took together.
    pub seconds: u128,
    /// The number of transactions that the seconds are spread over.
    pub transactions: u64,
}

/// What the periodic report shows.
#[derive(Debug, Copy, Clone, PartialEq, Eq, Structural)]
pub struct Report {
    pub total_transactions: u64,
    pub finished_transactions: u64,
    /// The mean time of a finished transaction.
    pub mean: MeanDuration,
}

/// The statistics as a mathematical value.
pub struct StatisticsState {
    /// The transactions that were started and are not finished.
    pub in_flight: Set<u64>,
    /// How many transactions were started.
    pub total: nat,
    /// How many transactions were finished.
    pub finished: nat,
    /// Nanoseconds that the finished transactions took together.
    pub elapsed: nat,
}

impl StatisticsState {
    /// What holds of all statistics that this module builds: every
    /// transaction that was started is finished or in flight, and no
    /// transaction took longer than a `u64` of nanoseconds.
    pub open spec fn wf(self) -> bool {
        &&& self.in_flight.finite()
        &&& self.total == self.finished + self.in_flight.len()
        &&& self.total <= u64::MAX
        &&& self.elapsed <= self.finished * u64::MAX
    }

    /// The statistics after a transaction was started.
    pub open spec fn register(self, id: u64) -> StatisticsState {
        if self.in_flight.contains(id) {
            self
        } else {
            StatisticsState {
                in_flight: self.in_flight.insert(id),
                total: self.total + 1,
                finished: self.finished,
                elapsed: self.elapsed,
            }
        }
    }

    /// The statistics after a transaction was finished in `duration`
    /// nanoseconds.
    pub open spec fn unregister(self, id: u64, duration: u64) -> StatisticsState {
        if self.in_flight.contains(id) {
            StatisticsState {
                in_flight: self.in_flight.remove(id),
                total: self.total,
                finished: self.finished + 1,
                elapsed: self.elapsed + duration as nat,
            }
        } else {
            self
        }
    }
}

/// The statistics of one pipeline.
pub struct StatisticsHandler {
    transaction_id_timestamp_set: HashSet<u64>,
    total_transactions: u64,
    current_finished_transactions: u64,
    elapsed_time: u128,
}

impl View for StatisticsHandler {
    type V = StatisticsState;

    closed spec fn view(&self) -> StatisticsState {
        StatisticsState {
            in_flight: self.transaction_id_timestamp_set@,
            total: self.total_transactions as nat,
            finished: self.current_finished_transactions as nat,
            elapsed: self.elapsed_time as nat,
        }
    }
}

impl StatisticsHandler {
    /// Statistics of no transaction.
    pub fn new() -> (handler: Self)
        ensures
            handler@ == (StatisticsState {
                in_flight: Set::<u64>::empty(),
                total: 0,
                finished: 0,
                elapsed: 0,
            }),
            handler@.wf(),
    {
        StatisticsHandler {
            transaction_id_timestamp_set: HashSet::new(),
            total_transactions: 0,
            current_finished_transactions: 0,
            elapsed_time: 0,
        }
    }

    /// Counts a transaction as started, unless it is in flight already.
    pub fn register_transaction(&mut self, msg: RegisterTransaction)
        requires
            old(self)@.wf(),
            old(self)@.total < u64::MAX,
        ensures
            final(self)@ == old(self)@.register(msg.transaction_id),
            final(self)@.wf(),
    {
        if self.transaction_id_timestamp_set.contains(&msg.transaction_id) {
            return ;
        }
        self.transaction_id_timestamp_set.insert(msg.transaction_id);
        self.total_transactions = self.total_transactions + 1;
    }

    /// Counts a transaction in flight as finished, and adds its time. A
    /// transaction that is not in flight changes nothing.
    pub fn unregister_transaction(&mut self, msg: UnregisterTransaction)
        requires
            old(self)@.wf(),
        ensures
            final(self)@ == old(self)@.unregister(msg.transaction_id, msg.duration),
            final(self)@.wf(),
    {
        if !self.transaction_id_timestamp_set.contains(&msg.transaction_id) {
            return ;
        }
        proof {
            let finished = self.current_finished_transactions as nat;
            assert(self@.in_flight.len() > 0) by {
                if self@.in_flight.len() == 0 {
                    self@.in_flight.lemma_len0_is_empty();
                }
            }
            assert(finished * u64::MAX + u64::MAX == (finished + 1) * u64::MAX)
                by (nonlinear_arith);
            assert((finished + 1) * u64::MAX <= u64::MAX * u64::MAX) by (nonlinear_arith)
                requires
                    finished + 1 <= u64::MAX,
            ;
        }
        self.transaction_id_timestamp_set.remove(&msg.transaction_id);
        self.current_finished_transactions = self.current_finished_transactions + 1;
        self.elapsed_time = self.elapsed_time + msg.duration as u128;
    }

    /// The whole seconds that the finished transactions took, and the
    /// number of transactions started: the parts of the mean time.
    pub fn mean_duration(&self, msg: GetMeanDuration) -> (mean: MeanDuration)
        ensures
            mean.seconds == self@.elapsed / (NANOS_PER_SECOND as nat),
            mean.transactions == self@.total,
    {
        MeanDuration {
            seconds: self.elapsed_time / NANOS_PER_SECOND,
            transactions: self.total_transactions,
        }
    }

    /// The numbers of the periodic report.
    pub fn report(&self, msg: LogPeriodically) -> (report: Report)
        ensures
            report.total_transactions == self@.total,
            report.finished_transactions == self@.finished,
            report.mean.seconds == self@.elapsed / (NANOS_PER_SECOND as nat),
            report.mean.transactions == self@.finished,
    {
        Report {
            total_transactions: self.total_transactions,
            finished_transactions: self.current_finished_transactions,
            mean: MeanDuration {
                seconds: self.elapsed_time / NANOS_PER_SECOND,
                transactions: self.current_finished_transactions,
            },
        }
    }
}

} // verus!
