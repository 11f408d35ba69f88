//! The follower side of the election: it watches the leader and, when the
//! leader falls silent, looks for a new one among the replicas of higher
//! pid.

use crate::addresses::id_to_dataaddr;
use crate::control_message::{higher_pids, outranks, ControlMessage};
use crate::decimal::decimal_digits;
use crate::ok_timeout_handler::{WaitTimeout, OK_TIMEOUT_S};
use vstd::prelude::*;

verus! {

/// Length of a liveness probe and of its answer.
pub const PING_PONG_SIZE: usize = 4;

/// Seconds that the leader has to answer a probe.
pub const TIMEOUT_S: u64 = 10;

/// Seconds between an answer and the next probe.
pub const PING_RATE_S: u64 = 2;

/// The four letters `PING`.
pub open spec fn ping_literal() -> Seq<u8> {
    seq![0x50u8, 0x49u8, 0x4eu8, 0x47u8]
}

/// The four letters `PONG`.
pub open spec fn pong_literal() -> Seq<u8> {
    seq![0x50u8, 0x4fu8, 0x4eu8, 0x47u8]
}

/// The liveness probe.
pub fn ping_datagram() -> (datagram: Vec<u8>)
    ensures
        datagram@ == ping_literal(),
{
    let mut datagram: Vec<u8> = Vec::new();
    datagram.push(0x50);
    datagram.push(0x49);
    datagram.push(0x4e);
    datagram.push(0x47);
    datagram
}

/// Probes the replica `ping_id`, which is believed to lead.
#[derive(Debug, Copy, Clone, PartialEq, Eq, Structural)]
pub struct Ping {
    pub ping_id: u8,
}

impl Ping {
    pub fn new(ping_id: u8) -> (ping: Self)
        ensures
            ping.ping_id == ping_id,
    {
        Ping { ping_id }
    }
}

/// Starts an election.
#[derive(Debug, Copy, Clone, PartialEq, Eq, Structural)]
pub struct Find {}

impl Find {
    pub fn new() -> (find: Self) {
        Find {  }
    }
}

/// Tells the pinger which replica leads.
#[derive(Debug, Copy, Clone, PartialEq, Eq, Structural)]
pub struct SetNewLeader {
    pub leader: u8,
}

impl SetNewLeader {
    pub fn new(leader: u8) -> (message: Self)
        ensures
            message.leader == leader,
    {
        SetNewLeader { leader }
    }
}

/// A liveness probe: the datagram, where it goes, and the seconds that
/// the leader has to answer.
#[derive(Debug)]
pub struct Probe {
    pub address: String,
    pub payload: Vec<u8>,
    pub timeout_s: u64,
}

/// What follows a probe.
#[derive(Debug, Copy, Clone, PartialEq, Eq, Structural)]
pub enum PingOutcome {
    /// The replica that was probed is not the leader any more, or an
    /// election is under way: the probes of it end.
    Stop,
    /// The leader answered: probe it again after `pause_s` seconds.
    PingAgain { ping: Ping, pause_s: u64 },
    /// The leader did not answer in time: look for a new one.
    FindNew(Find),
}

/// What an election sends. The wait is registered with the arbiter before
/// the datagrams leave, so that no `Ok` can arrive before somebody waits
/// for it.
#[derive(Debug)]
pub struct Election {
    /// For the arbiter, first.
    pub wait: WaitTimeout,
    /// For each replica of `targets`, then.
    pub message: ControlMessage,
    /// The replicas of higher pid.
    pub targets: Vec<u8>,
    /// Seconds until the window of the wait has passed: none if there is
    /// no replica to ask.
    pub window_s: u64,
}

/// What a replica knows of the election: who it is, who the others are and
/// who leads, if it knows.
pub struct PingerFinder {
    leader: Option<u8>,
    pid: u8,
    all_pids: Vec<u8>,
}

impl PingerFinder {
    /// The replica that is believed to lead. `None` while an election is
    /// under way.
    pub closed spec fn leader(&self) -> Option<u8> {
        self.leader
    }

    pub closed spec fn pid(&self) -> u8 {
        self.pid
    }

    pub closed spec fn all_pids(&self) -> Seq<u8> {
        self.all_pids@
    }

    pub fn new(leader: Option<u8>, pid: u8, all_pids: Vec<u8>) -> (finder: Self)
        ensures
            finder.leader() == leader,
            finder.pid() == pid,
            finder.all_pids() == all_pids@,
    {
        PingerFinder { leader, pid, all_pids }
    }

    /// The replica that is believed to lead.
    pub fn known_leader(&self) -> (leader: Option<u8>)
        ensures
            leader == self.leader(),
    {
        self.leader
    }

    /// Whether the replica watches `ping_id`: it is the leader the
    /// replica knows, and not the replica itself.
    pub open spec fn watches(&self, ping_id: u8) -> bool {
        self.leader() == Some(ping_id) && ping_id != self.pid()
    }

    /// Tells whether the replica watches `ping_id`.
    pub fn is_watching(&self, ping_id: u8) -> (watching: bool)
        ensures
            watching == self.watches(ping_id),
    {
        match self.leader {
            Some(leader) => leader == ping_id && ping_id != self.pid,
            None => false,
        }
    }

    /// The probe of the leader: `PING`, to the address on which it takes
    /// probes, to be answered within [`TIMEOUT_S`] seconds. A replica that
    /// is not watched is not probed.
    pub fn ping(&self, msg: &Ping) -> (probe: Option<Probe>)
        ensures
            probe is Some <==> self.watches(msg.ping_id),
            probe matches Some(sent) ==> {
                &&& sent.address@ == "localhost:1235"@ + decimal_digits(msg.ping_id as nat)
                &&& sent.payload@ == ping_literal()
                &&& sent.timeout_s == TIMEOUT_S
            },
    {
        if self.is_watching(msg.ping_id) {
            Some(
                Probe {
                    address: id_to_dataaddr(msg.ping_id as usize),
                    payload: ping_datagram(),
                    timeout_s: TIMEOUT_S,
                },
            )
        } else {
            None
        }
    }

    /// Decides what follows a probe: the next one [`PING_RATE_S`] seconds
    /// after an answer, an election if there was none.
    pub fn ping_result(&self, msg: Ping, answered: bool) -> (outcome: PingOutcome)
        ensures
            outcome == (if !self.watches(msg.ping_id) {
                PingOutcome::Stop
            } else if answered {
                PingOutcome::PingAgain { ping: msg, pause_s: PING_RATE_S }
            } else {
                PingOutcome::FindNew(Find {  })
            }),
    {
        if !self.is_watching(msg.ping_id) {
            PingOutcome::Stop
        } else if answered {
            PingOutcome::PingAgain { ping: msg, pause_s: PING_RATE_S }
        } else {
            PingOutcome::FindNew(Find {  })
        }
    }

    /// Starts an election, unless one is under way: then the call changes
    /// nothing and sends nothing. Otherwise the leader is forgotten and an
    /// `Election` goes to every replica of higher pid. They have
    /// [`OK_TIMEOUT_S`] seconds to answer; if there is none of them, the
    /// window of the wait passes at once.
    pub fn find(&mut self, msg: Find) -> (election: Option<Election>)
        ensures
            final(self).pid() == old(self).pid(),
            final(self).all_pids() == old(self).all_pids(),
            final(self).leader() is None,
            election is Some <==> old(self).leader() is Some,
            election matches Some(sent) ==> {
                &&& sent.wait.all_pids@ == old(self).all_pids()
                &&& sent.message == ControlMessage::Election(old(self).pid())
                &&& sent.targets@ == old(self).all_pids().filter(outranks(old(self).pid()))
                &&& sent.window_s == (if sent.targets@.len() == 0 {
                    0
                } else {
                    OK_TIMEOUT_S
                })
            },
    {
        if self.leader.is_none() {
            return None;
        }
        self.leader = None;
        let targets: Vec<u8> = higher_pids(&self.all_pids, self.pid);
        let all_pids: Vec<u8> = self.all_pids.clone();
        let window_s: u64 = if targets.len() == 0 {
            0
        } else {
            OK_TIMEOUT_S
        };
        Some(
            Election {
                wait: WaitTimeout::new(all_pids),
                message: ControlMessage::Election(self.pid),
                targets,
                window_s,
            },
        )
    }

    /// Takes note of the replica that announced itself as leader.
    pub fn set_new_leader(&mut self, msg: SetNewLeader)
        ensures
            final(self).pid() == old(self).pid(),
            final(self).all_pids() == old(self).all_pids(),
            final(self).leader() == Some(msg.leader),
    {
        self.leader = Some(msg.leader);
    }
}

/// A replica that no other outranks asks nobody: its election has no
/// target, so no `Ok` can stop it from becoming leader.
pub proof fn lemma_highest_pid_asks_nobody(all_pids: Seq<u8>, pid: u8)
    requires
        forall|i: int| 0 <= i < all_pids.len() ==> all_pids[i] <= pid,
    ensures
        all_pids.filter(outranks(pid)).len() == 0,
    decreases all_pids.len(),
{
    reveal(Seq::filter);
    if all_pids.len() > 0 {
        lemma_highest_pid_asks_nobody(all_pids.drop_last(), pid);
    }
}

/// An election asks exactly the replicas that outrank the one that starts
/// it, each as often as it is listed.
pub proof fn lemma_election_asks_the_higher_pids(all_pids: Seq<u8>, pid: u8, other: u8)
    ensures
        all_pids.filter(outranks(pid)).contains(other) <==> all_pids.contains(other) && other
            > pid,
{
    let asked = all_pids.filter(outranks(pid));
    if asked.contains(other) {
        all_pids.lemma_filter_contains_rev(outranks(pid), other);
        let i = choose|i: int| 0 <= i < asked.len() && asked[i] == other;
        all_pids.lemma_filter_pred(outranks(pid), i);
    }
    if all_pids.contains(other) && other > pid {
        let i = choose|i: int| 0 <= i < all_pids.len() && all_pids[i] == other;
        all_pids.lemma_filter_contains(outranks(pid), i);
    }
}

} // verus!
