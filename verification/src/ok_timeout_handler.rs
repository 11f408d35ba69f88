//! The arbiter of an election: it waits for an `Ok` of a replica of
//! higher pid, and promotes this replica when the window passes without
//! one.
//!
//! The program around the arbiter owns the timer. Each wait gets a ticket;
//! when the window of a wait has passed, the program hands the ticket back.

use crate::beater_responder::BroadcastCoordinator;
use crate::bootstrapper::RunAlGlobo;
use vstd::prelude::*;

verus! {

/// Seconds that a replica of higher pid has to answer an election.
pub const OK_TIMEOUT_S: u64 = 10;

/// Starts the wait for an `Ok`.
#[derive(Debug)]
pub struct WaitTimeout {
    pub all_pids: Vec<u8>,
}

impl WaitTimeout {
    pub fn new(all_pids: Vec<u8>) -> (wait: Self)
        ensures
            wait.all_pids == all_pids,
    {
        WaitTimeout { all_pids }
    }
}

/// Tells the arbiter that an `Ok` has arrived.
#[derive(Debug, Copy, Clone, PartialEq, Eq, Structural)]
pub struct RegisterOkReceived {}

/// Names one wait of the arbiter.
#[derive(Debug, Copy, Clone, PartialEq, Eq, Structural)]
pub struct WaitTicket {
    pub generation: u64,
}

/// What a replica does when it declares itself leader: first it announces
/// itself to every other replica, then it starts its transaction pipeline.
#[derive(Debug)]
pub struct Leadership {
    pub broadcast: BroadcastCoordinator,
    pub run: RunAlGlobo,
}

/// The arbiter as a mathematical value.
pub struct ArbiterState {
    /// How many waits were started, modulo the range of `u64`.
    pub generation: u64,
    /// The replica set of the wait that can still be woken, if there is one.
    pub waiting: Option<Seq<u8>>,
}

impl ArbiterState {
    /// The arbiter after a wait was started: it is the only wait that can
    /// be woken.
    pub open spec fn wait_timeout(self, all_pids: Seq<u8>) -> ArbiterState {
        ArbiterState {
            generation: if self.generation == u64::MAX {
                0
            } else {
                (self.generation + 1) as u64
            },
            waiting: Some(all_pids),
        }
    }

    /// The arbiter after an `Ok`: no wait can be woken any more.
    pub open spec fn register_ok_received(self) -> ArbiterState {
        ArbiterState { generation: self.generation, waiting: None }
    }

    /// Whether the window that `ticket` names passed without an `Ok`.
    pub open spec fn promotes(self, ticket: WaitTicket) -> bool {
        self.waiting is Some && ticket.generation == self.generation
    }

    /// The arbiter after the window that `ticket` names has passed.
    pub open spec fn window_elapsed(self, ticket: WaitTicket) -> ArbiterState {
        if self.promotes(ticket) {
            ArbiterState { generation: self.generation, waiting: None }
        } else {
            self
        }
    }
}

/// The arbiter of one replica.
pub struct OkTimeoutHandler {
    pid: u8,
    generation: u64,
    waiting: Option<Vec<u8>>,
}

impl View for OkTimeoutHandler {
    type V = ArbiterState;

    closed spec fn view(&self) -> ArbiterState {
        ArbiterState {
            generation: self.generation,
            waiting: match self.waiting {
                Some(all_pids) => Some(all_pids@),
                None => None,
            },
        }
    }
}

impl OkTimeoutHandler {
    /// The pid of the replica.
    pub closed spec fn pid(&self) -> u8 {
        self.pid
    }

    /// An arbiter that waits for nothing.
    pub fn new(pid: u8) -> (handler: Self)
        ensures
            handler.pid() == pid,
            handler@ == (ArbiterState { generation: 0, waiting: None }),
    {
        OkTimeoutHandler { pid, generation: 0, waiting: None }
    }

    /// Starts a wait, and gives up any earlier one. The caller starts a
    /// timer of [`OK_TIMEOUT_S`] seconds and hands the ticket back when it
    /// has run down, with [`OkTimeoutHandler::window_elapsed`].
    pub fn wait_timeout(&mut self, msg: WaitTimeout) -> (ticket: WaitTicket)
        ensures
            final(self).pid() == old(self).pid(),
            final(self)@ == old(self)@.wait_timeout(msg.all_pids@),
            ticket.generation == final(self)@.generation,
            final(self)@.promotes(ticket),
    {
        self.generation = if self.generation == u64::MAX {
            0
        } else {
            self.generation + 1
        };
        self.waiting = Some(msg.all_pids);
        WaitTicket { generation: self.generation }
    }

    /// Wakes the wait that is under way: the replica stays a follower. An
    /// `Ok` that finds no wait is dropped. Tells whether a wait was woken.
    pub fn register_ok_received(&mut self, msg: RegisterOkReceived) -> (woken: bool)
        ensures
            final(self).pid() == old(self).pid(),
            final(self)@ == old(self)@.register_ok_received(),
            woken == old(self)@.waiting is Some,
    {
        let woken: bool = self.waiting.is_some();
        self.waiting = None;
        woken
    }

    /// Tells the arbiter that the window of a wait has passed. If that
    /// wait is still under way, the replica declares itself leader;
    /// otherwise the call changes nothing.
    pub fn window_elapsed(&mut self, ticket: WaitTicket) -> (leadership: Option<Leadership>)
        ensures
            final(self).pid() == old(self).pid(),
            final(self)@ == old(self)@.window_elapsed(ticket),
            leadership is Some <==> old(self)@.promotes(ticket),
            leadership matches Some(elected) ==> Some(elected.broadcast.all_pids@) == old(
                self,
            )@.waiting,
    {
        if ticket.generation != self.generation {
            return None;
        }
        match self.waiting.take() {
            Some(all_pids) => Some(
                Leadership { broadcast: BroadcastCoordinator::new(all_pids), run: RunAlGlobo {  } },
            ),
            None => None,
        }
    }
}

/// An election that no replica of higher pid answers ends with this
/// replica as leader: the window of the wait promotes it, once.
pub proof fn lemma_unanswered_election_promotes(pre: ArbiterState, all_pids: Seq<u8>)
    ensures
        ({
            let waiting = pre.wait_timeout(all_pids);
            let ticket = WaitTicket { generation: waiting.generation };
            &&& waiting.promotes(ticket)
            &&& waiting.waiting == Some(all_pids)
            &&& !waiting.window_elapsed(ticket).promotes(ticket)
        }),
{
}

/// An election that a replica of higher pid answers leaves this replica a
/// follower: after the `Ok` no window promotes it, until it starts a new
/// wait.
pub proof fn lemma_answered_election_stays_follower(
    pre: ArbiterState,
    all_pids: Seq<u8>,
    ticket: WaitTicket,
)
    ensures
        !pre.wait_timeout(all_pids).register_ok_received().promotes(ticket),
        !pre.register_ok_received().window_elapsed(ticket).promotes(ticket),
{
}

/// A wait that was given up for a new one promotes nobody: only the
/// ticket of the last wait does.
pub proof fn lemma_stale_ticket_is_ignored(pre: ArbiterState, all_pids: Seq<u8>, ticket: WaitTicket)
    requires
        ticket.generation == pre.generation,
    ensures
        !pre.wait_timeout(all_pids).promotes(ticket),
        pre.wait_timeout(all_pids).window_elapsed(ticket) == pre.wait_timeout(all_pids),
{
}

} // verus!
