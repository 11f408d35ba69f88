//! The side of a replica that answers: liveness probes while it leads,
//! and the datagrams of the election at all times.

use crate::control_message::{differs_from, other_pids, ControlMessage};
use crate::ok_timeout_handler::RegisterOkReceived;
use crate::pinger_finder::{ping_literal, pong_literal, Find, Ping, SetNewLeader, PING_PONG_SIZE};
use vstd::prelude::*;

verus! {

/// Answers the next liveness probe.
#[derive(Debug, Copy, Clone, PartialEq, Eq, Structural)]
pub struct Beat {}

/// Handles the next datagram of the election.
#[derive(Debug, Copy, Clone, PartialEq, Eq, Structural)]
pub struct Responder {}

impl Responder {
    pub fn new() -> (responder: Self) {
        Responder {  }
    }
}

/// Announces this replica as leader to the others.
#[derive(Debug)]
pub struct BroadcastCoordinator {
    pub all_pids: Vec<u8>,
}

impl BroadcastCoordinator {
    pub fn new(all_pids: Vec<u8>) -> (broadcast: Self)
        ensures
            broadcast.all_pids == all_pids,
    {
        BroadcastCoordinator { all_pids }
    }
}

/// What a replica does about a datagram of the election.
#[derive(Debug, Copy, Clone, PartialEq, Eq, Structural)]
pub enum ResponderState {
    /// Nothing.
    Continue,
    /// A replica of higher pid is alive: tell the arbiter.
    OkReceived(RegisterOkReceived),
    /// A replica of lower pid looks for a leader: answer it with `reply`
    /// and start an election of one's own.
    FindNew { reply: ControlMessage, find: Find },
    /// A replica announced itself as leader: take note and watch it.
    StartPing { leader: SetNewLeader, ping: Ping },
}

/// The announcement of a new leader.
#[derive(Debug)]
pub struct Announcement {
    /// For each replica of `targets`.
    pub message: ControlMessage,
    /// Every replica but the leader.
    pub targets: Vec<u8>,
    /// What the leader does once the announcement has left.
    pub then: Beat,
}

/// What a replica of pid `pid` does about what a datagram decoded to.
pub open spec fn reaction(pid: u8, message: Option<ControlMessage>) -> ResponderState {
    match message {
        Some(ControlMessage::Okay(_)) => ResponderState::OkReceived(RegisterOkReceived {  }),
        Some(ControlMessage::Election(from)) => if from < pid {
            ResponderState::FindNew { reply: ControlMessage::Okay(pid), find: Find {  } }
        } else {
            ResponderState::Continue
        },
        Some(ControlMessage::Coordinator(from)) => ResponderState::StartPing {
            leader: SetNewLeader { leader: from },
            ping: Ping { ping_id: from },
        },
        None => ResponderState::Continue,
    }
}

/// The answering side of one replica.
pub struct BeaterResponder {
    pid: u8,
}

impl BeaterResponder {
    pub closed spec fn pid(&self) -> u8 {
        self.pid
    }

    pub fn new(pid: u8) -> (responder: Self)
        ensures
            responder.pid() == pid,
    {
        BeaterResponder { pid }
    }

    /// Answers a liveness probe: `PONG` to `PING`, nothing to anything else.
    pub fn beat(&self, msg: Beat, probe: &[u8]) -> (answer: Option<Vec<u8>>)
        ensures
            answer is Some <==> probe@ == ping_literal(),
            answer matches Some(pong) ==> pong@ == pong_literal(),
    {
        if probe.len() == PING_PONG_SIZE && probe[0] == 0x50 && probe[1] == 0x49 && probe[2] == 0x4e
            && probe[3] == 0x47 {
            assert(probe@ =~= ping_literal());
            let mut pong: Vec<u8> = Vec::new();
            pong.push(0x50);
            pong.push(0x4f);
            pong.push(0x4e);
            pong.push(0x47);
            Some(pong)
        } else {
            None
        }
    }

    /// Decides what to do about a datagram of the election. A datagram
    /// that does not decode is dropped. An `Election` is answered only if
    /// it comes from a replica of lower pid.
    pub fn respond(&self, msg: Responder, datagram: &[u8]) -> (state: ResponderState)
        ensures
            state == reaction(self.pid(), ControlMessage::parse(datagram@)),
    {
        match ControlMessage::decode(datagram) {
            Some(ControlMessage::Okay(_)) => ResponderState::OkReceived(RegisterOkReceived {  }),
            Some(ControlMessage::Election(from)) => {
                if from < self.pid {
                    ResponderState::FindNew { reply: ControlMessage::Okay(self.pid), find: Find {  } }
                } else {
                    ResponderState::Continue
                }
            },
            Some(ControlMessage::Coordinator(from)) => ResponderState::StartPing {
                leader: SetNewLeader::new(from),
                ping: Ping::new(from),
            },
            None => ResponderState::Continue,
        }
    }

    /// Announces this replica as leader: `Coordinator` goes to every other
    /// replica, and the replica starts to answer liveness probes.
    pub fn broadcast_coordinator(&self, msg: BroadcastCoordinator) -> (announcement: Announcement)
        ensures
            announcement.message == ControlMessage::Coordinator(self.pid()),
            announcement.targets@ == msg.all_pids@.filter(differs_from(self.pid())),
    {
        Announcement {
            message: ControlMessage::Coordinator(self.pid),
            targets: other_pids(&msg.all_pids, self.pid),
            then: Beat {  },
        }
    }
}

/// An `Election` from a replica of lower pid is always answered with `Ok`
/// and followed by an election of one's own; one from any other replica
/// never is.
pub proof fn lemma_election_is_answered_from_above(pid: u8, from: u8)
    ensures
        from < pid ==> reaction(pid, Some(ControlMessage::Election(from)))
            == (ResponderState::FindNew { reply: ControlMessage::Okay(pid), find: Find {  } }),
        from >= pid ==> reaction(pid, Some(ControlMessage::Election(from)))
            == ResponderState::Continue,
{
}

/// The announcement of a leader reaches every replica but the leader.
pub proof fn lemma_announcement_reaches_the_others(all_pids: Seq<u8>, pid: u8, other: u8)
    ensures
        all_pids.filter(differs_from(pid)).contains(other) <==> all_pids.contains(other) && other
            != pid,
{
    let told = all_pids.filter(differs_from(pid));
    if told.contains(other) {
        all_pids.lemma_filter_contains_rev(differs_from(pid), other);
        let i = choose|i: int| 0 <= i < told.len() && told[i] == other;
        all_pids.lemma_filter_pred(differs_from(pid), i);
    }
    if all_pids.contains(other) && other != pid {
        let i = choose|i: int| 0 <= i < all_pids.len() && all_pids[i] == other;
        all_pids.lemma_filter_contains(differs_from(pid), i);
    }
}

} // verus!
