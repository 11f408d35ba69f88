//! A coordinator replica in the election: pinger, responder, arbiter and
//! bootstrapper, wired together.
//!
//! The replica takes what the program around it has received or timed, a
//! datagram of the election, the result of a probe, the end of a window,
//! and gives back what the program has to send and to start. A wait is
//! registered with the arbiter before the replica hands back the
//! datagrams of an election, so that no `Ok` can arrive before somebody
//! waits for it.

use crate::beater_responder::{
    reaction, Announcement, Beat, BeaterResponder, Responder, ResponderState,
};
use crate::bootstrapper::Bootstrapper;
use crate::control_message::{differs_from, outranks, ControlMessage};
use crate::decimal::decimal_digits;
use crate::ok_timeout_handler::{ArbiterState, OkTimeoutHandler, WaitTicket, OK_TIMEOUT_S};
use crate::pinger_finder::{
    ping_literal, pong_literal, Find, Ping, PingOutcome, PingerFinder, Probe, PING_RATE_S,
    TIMEOUT_S,
};
use vstd::prelude::*;

verus! {

/// An election that the replica has started: the datagram goes to each of
/// `targets`, and the ticket comes back to the replica after `window_s`
/// seconds.
#[derive(Debug)]
pub struct ElectionStarted {
    pub ticket: WaitTicket,
    pub window_s: u64,
    pub message: ControlMessage,
    /// The replicas of higher pid.
    pub targets: Vec<u8>,
}

/// What a replica does about a datagram of the election.
#[derive(Debug)]
pub enum Reaction {
    /// Nothing: the datagram is none of the election, or an `Election` of
    /// a replica that this one does not outrank.
    Nothing,
    /// A replica of higher pid is alive: this one stays a follower.
    /// `woken` tells whether a wait was under way.
    Follower { woken: bool },
    /// A replica of lower pid looks for a leader: `reply` goes back to
    /// it, and this replica has started an election of its own, unless one
    /// is under way.
    TakenOver { reply: ControlMessage, election: Option<ElectionStarted> },
    /// A replica has announced itself as leader: this one has taken note
    /// and probes it.
    Watching { probe: Option<Probe>, ping: Ping },
}

/// What follows a probe of the leader.
#[derive(Debug)]
pub enum Probing {
    /// The replica that was probed is not watched any more.
    Stopped,
    /// The leader answered: it is probed again after `pause_s` seconds.
    Again { ping: Ping, pause_s: u64 },
    /// The leader did not answer: the replica has started an election,
    /// unless one is under way.
    Lost { election: Option<ElectionStarted> },
}

/// What a replica does when it becomes leader: it announces itself, starts
/// its transaction pipeline unless it runs, and answers probes.
#[derive(Debug)]
pub struct Promotion {
    pub announcement: Announcement,
    /// The source of the pipeline to start, if it does not run yet.
    pub source: Option<String>,
}

/// A replica as a mathematical value.
pub struct ReplicaState {
    pub pid: u8,
    /// Every replica of the set, this one too.
    pub all_pids: Seq<u8>,
    /// The replica that is believed to lead. `None` while an election is
    /// under way.
    pub known_leader: Option<u8>,
    pub arbiter: ArbiterState,
    /// Whether the transaction pipeline of the replica was started.
    pub running: bool,
    /// The path of the transaction source.
    pub file_path: Seq<char>,
}

impl ReplicaState {
    /// What holds of every replica that this module builds: a wait of the
    /// arbiter is about the replica set.
    pub open spec fn wf(self) -> bool {
        self.arbiter.waiting matches Some(waiting) ==> waiting == self.all_pids
    }

    /// The ticket of the wait that was started last.
    pub open spec fn ticket(self) -> WaitTicket {
        WaitTicket { generation: self.arbiter.generation }
    }

    /// Whether the replica watches `ping_id`: it is the leader the replica
    /// knows, and not the replica itself.
    pub open spec fn watches(self, ping_id: u8) -> bool {
        self.known_leader == Some(ping_id) && ping_id != self.pid
    }

    /// The replica after it was asked to start an election: in the middle
    /// of one nothing changes; otherwise the leader is forgotten and a
    /// wait is under way.
    pub open spec fn find(self) -> ReplicaState {
        if self.known_leader is None {
            self
        } else {
            ReplicaState {
                known_leader: None,
                arbiter: self.arbiter.wait_timeout(self.all_pids),
                ..self
            }
        }
    }

    /// The replica after a datagram of the election that decoded to
    /// `message`.
    pub open spec fn control(self, message: Option<ControlMessage>) -> ReplicaState {
        match reaction(self.pid, message) {
            ResponderState::Continue => self,
            ResponderState::OkReceived(_) => ReplicaState {
                arbiter: self.arbiter.register_ok_received(),
                ..self
            },
            ResponderState::FindNew { .. } => self.find(),
            ResponderState::StartPing { leader, .. } => ReplicaState {
                known_leader: Some(leader.leader),
                ..self
            },
        }
    }

    /// The replica after a probe of `ping_id`.
    pub open spec fn probed(self, ping_id: u8, answered: bool) -> ReplicaState {
        if self.watches(ping_id) && !answered {
            self.find()
        } else {
            self
        }
    }

    /// The replica after the window that `ticket` names has passed.
    pub open spec fn window_elapsed(self, ticket: WaitTicket) -> ReplicaState {
        if self.arbiter.promotes(ticket) {
            ReplicaState {
                arbiter: self.arbiter.window_elapsed(ticket),
                running: true,
                ..self
            }
        } else {
            self
        }
    }
}

/// Whether `started` is the election that a replica of the given pid and
/// replica set starts, with the arbiter as it is after the start.
pub open spec fn starts(
    started: ElectionStarted,
    pid: u8,
    all_pids: Seq<u8>,
    arbiter: ArbiterState,
) -> bool {
    &&& started.ticket.generation == arbiter.generation
    &&& arbiter.promotes(started.ticket)
    &&& started.message == ControlMessage::Election(pid)
    &&& started.targets@ == all_pids.filter(outranks(pid))
    &&& started.window_s == (if started.targets@.len() == 0 {
        0
    } else {
        OK_TIMEOUT_S
    })
}

/// A coordinator replica in the election.
pub struct Replica {
    finder: PingerFinder,
    responder: BeaterResponder,
    arbiter: OkTimeoutHandler,
    bootstrapper: Bootstrapper,
}

impl View for Replica {
    type V = ReplicaState;

    closed spec fn view(&self) -> ReplicaState {
        ReplicaState {
            pid: self.finder.pid(),
            all_pids: self.finder.all_pids(),
            known_leader: self.finder.leader(),
            arbiter: self.arbiter@,
            running: self.bootstrapper.running(),
            file_path: self.bootstrapper.file_path(),
        }
    }
}

impl Replica {
    /// Whether the parts of the replica agree on who it is.
    pub closed spec fn wf(&self) -> bool {
        &&& self.responder.pid() == self.finder.pid()
        &&& self.arbiter.pid() == self.finder.pid()
        &&& self@.wf()
    }

    /// The replica `pid` of the set `all_pids`, which will run the
    /// transactions of `file_path` when it leads. It starts as its own
    /// leader, so that its first election is not taken for one under way.
    pub fn new(pid: u8, all_pids: Vec<u8>, file_path: String) -> (replica: Self)
        ensures
            replica.wf(),
            replica@ == (ReplicaState {
                pid,
                all_pids: all_pids@,
                known_leader: Some(pid),
                arbiter: ArbiterState { generation: 0, waiting: None },
                running: false,
                file_path: file_path@,
            }),
    {
        Replica {
            finder: PingerFinder::new(Some(pid), pid, all_pids),
            responder: BeaterResponder::new(pid),
            arbiter: OkTimeoutHandler::new(pid),
            bootstrapper: Bootstrapper::new(file_path),
        }
    }

    /// The replica that is believed to lead.
    pub fn known_leader(&self) -> (leader: Option<u8>)
        ensures
            leader == self@.known_leader,
    {
        self.finder.known_leader()
    }

    /// Starts an election, unless one is under way: then the call changes
    /// nothing and sends nothing. Otherwise the leader is forgotten, the
    /// wait for an `Ok` is registered, and an `Election` is handed back
    /// for every replica of higher pid.
    pub fn find(&mut self, msg: Find) -> (started: Option<ElectionStarted>)
        requires
            old(self).wf(),
        ensures
            final(self).wf(),
            final(self)@ == old(self)@.find(),
            started is Some <==> old(self)@.known_leader is Some,
            started matches Some(election) ==> starts(
                election,
                old(self)@.pid,
                old(self)@.all_pids,
                final(self)@.arbiter,
            ),
    {
        match self.finder.find(msg) {
            None => None,
            Some(election) => {
                let ticket: WaitTicket = self.arbiter.wait_timeout(election.wait);
                Some(
                    ElectionStarted {
                        ticket,
                        window_s: election.window_s,
                        message: election.message,
                        targets: election.targets,
                    },
                )
            },
        }
    }

    /// Takes a datagram of the election. A datagram that does not decode
    /// is dropped. An `Ok` wakes the wait that is under way. An `Election`
    /// of a replica of lower pid is answered with `Ok` and followed by an
    /// election of one's own. A `Coordinator` makes its sender the leader
    /// that this replica knows and watches.
    pub fn control_datagram(&mut self, datagram: &[u8]) -> (reaction: Reaction)
        requires
            old(self).wf(),
        ensures
            final(self).wf(),
            final(self)@ == old(self)@.control(ControlMessage::parse(datagram@)),
            match crate::beater_responder::reaction(
                old(self)@.pid,
                ControlMessage::parse(datagram@),
            ) {
                ResponderState::Continue => reaction is Nothing,
                ResponderState::OkReceived(_) => {
                    &&& reaction is Follower
                    &&& reaction->Follower_woken == old(self)@.arbiter.waiting is Some
                },
                ResponderState::FindNew { reply, .. } => {
                    &&& reaction is TakenOver
                    &&& reaction->TakenOver_reply == reply
                    &&& reaction->TakenOver_election is Some <==> old(self)@.known_leader is Some
                    &&& reaction->TakenOver_election matches Some(started) ==> starts(
                        started,
                        old(self)@.pid,
                        old(self)@.all_pids,
                        final(self)@.arbiter,
                    )
                },
                ResponderState::StartPing { leader, ping } => {
                    &&& reaction is Watching
                    &&& reaction->Watching_ping == ping
                    &&& reaction->Watching_probe is Some <==> ping.ping_id != old(self)@.pid
                    &&& reaction->Watching_probe matches Some(sent) ==> {
                        &&& sent.address@ == "localhost:1235"@ + decimal_digits(
                            ping.ping_id as nat,
                        )
                        &&& sent.payload@ == ping_literal()
                        &&& sent.timeout_s == TIMEOUT_S
                    }
                },
            },
    {
        match self.responder.respond(Responder::new(), datagram) {
            ResponderState::Continue => Reaction::Nothing,
            ResponderState::OkReceived(ok) => {
                let woken: bool = self.arbiter.register_ok_received(ok);
                Reaction::Follower { woken }
            },
            ResponderState::FindNew { reply, find } => {
                let election = self.find(find);
                Reaction::TakenOver { reply, election }
            },
            ResponderState::StartPing { leader, ping } => {
                self.finder.set_new_leader(leader);
                let probe = self.finder.ping(&ping);
                Reaction::Watching { probe, ping }
            },
        }
    }

    /// Takes the result of a probe. A leader that answered is probed
    /// again after [`PING_RATE_S`] seconds; one that did not is given up,
    /// and an election starts. A probe of a replica that is not watched
    /// any more has no effect.
    pub fn probed(&mut self, ping: Ping, answered: bool) -> (probing: Probing)
        requires
            old(self).wf(),
        ensures
            final(self).wf(),
            final(self)@ == old(self)@.probed(ping.ping_id, answered),
            !old(self)@.watches(ping.ping_id) ==> probing is Stopped,
            old(self)@.watches(ping.ping_id) && answered ==> {
                &&& probing is Again
                &&& probing->Again_ping == ping
                &&& probing->Again_pause_s == PING_RATE_S
            },
            old(self)@.watches(ping.ping_id) && !answered ==> {
                &&& probing is Lost
                &&& probing->Lost_election is Some
                &&& starts(
                    probing->Lost_election->Some_0,
                    old(self)@.pid,
                    old(self)@.all_pids,
                    final(self)@.arbiter,
                )
            },
    {
        match self.finder.ping_result(ping, answered) {
            PingOutcome::Stop => Probing::Stopped,
            PingOutcome::PingAgain { ping, pause_s } => Probing::Again { ping, pause_s },
            PingOutcome::FindNew(find) => {
                let election = self.find(find);
                Probing::Lost { election }
            },
        }
    }

    /// The probe of the leader that the replica watches, if it watches
    /// one.
    pub fn ping(&self, msg: &Ping) -> (probe: Option<Probe>)
        ensures
            probe is Some <==> self@.watches(msg.ping_id),
            probe matches Some(sent) ==> {
                &&& sent.address@ == "localhost:1235"@ + decimal_digits(msg.ping_id as nat)
                &&& sent.payload@ == ping_literal()
                &&& sent.timeout_s == TIMEOUT_S
            },
    {
        self.finder.ping(msg)
    }

    /// Takes the end of the window of a wait. If the wait is still under
    /// way, no replica of higher pid has answered: this replica becomes
    /// leader. It announces itself to every other replica and starts its
    /// transaction pipeline, unless that runs already.
    pub fn window_elapsed(&mut self, ticket: WaitTicket) -> (promotion: Option<Promotion>)
        requires
            old(self).wf(),
        ensures
            final(self).wf(),
            final(self)@ == old(self)@.window_elapsed(ticket),
            promotion is Some <==> old(self)@.arbiter.promotes(ticket),
            promotion matches Some(promoted) ==> {
                &&& promoted.announcement.message == ControlMessage::Coordinator(old(self)@.pid)
                &&& promoted.announcement.targets@ == old(self)@.all_pids.filter(
                    differs_from(old(self)@.pid),
                )
                &&& promoted.source is Some <==> !old(self)@.running
                &&& promoted.source matches Some(path) ==> path@ == old(self)@.file_path
            },
    {
        match self.arbiter.window_elapsed(ticket) {
            None => None,
            Some(leadership) => {
                let announcement = self.responder.broadcast_coordinator(leadership.broadcast);
                let source = self.bootstrapper.run_al_globo(leadership.run);
                Some(Promotion { announcement, source })
            },
        }
    }

    /// Answers a liveness probe: `PONG` to `PING`, nothing to anything else.
    pub fn beat(&self, probe: &[u8]) -> (answer: Option<Vec<u8>>)
        ensures
            answer is Some <==> probe@ == ping_literal(),
            answer matches Some(pong) ==> pong@ == pong_literal(),
    {
        self.responder.beat(Beat {  }, probe)
    }
}

/// A replica whose election no replica of higher pid answers becomes
/// leader when the window of its wait has passed, and only once: it
/// starts its pipeline, and the same window does not promote it again.
pub proof fn lemma_unanswered_election_makes_a_leader(pre: ReplicaState)
    requires
        pre.known_leader is Some,
    ensures
        ({
            let waiting = pre.find();
            let leading = waiting.window_elapsed(waiting.ticket());
            &&& waiting.known_leader is None
            &&& waiting.arbiter.promotes(waiting.ticket())
            &&& leading.running
            &&& !leading.arbiter.promotes(waiting.ticket())
            &&& leading.window_elapsed(waiting.ticket()) == leading
        }),
{
}

/// A replica whose election a replica of higher pid answers stays a
/// follower: the window of its wait promotes nobody, and the replica
/// starts no election of its own until a leader is announced.
pub proof fn lemma_answered_election_leaves_a_follower(pre: ReplicaState, answering: u8)
    requires
        pre.known_leader is Some,
    ensures
        ({
            let waiting = pre.find();
            let answered = waiting.control(Some(ControlMessage::Okay(answering)));
            &&& !answered.arbiter.promotes(waiting.ticket())
            &&& answered.window_elapsed(waiting.ticket()) == answered
            &&& answered.find() == answered
            &&& answered.running == pre.running
        }),
{
}

/// A replica that gets an `Election` of a replica of lower pid starts an
/// election of its own, as if it had been asked to; one of any other
/// replica changes nothing.
pub proof fn lemma_election_from_below_is_taken_over(pre: ReplicaState, from: u8)
    ensures
        from < pre.pid ==> pre.control(Some(ControlMessage::Election(from))) == pre.find(),
        from >= pre.pid ==> pre.control(Some(ControlMessage::Election(from))) == pre,
{
}

/// A replica that gets the announcement of a leader knows that leader,
/// watches it unless it is the leader itself, and can start an election
/// again.
pub proof fn lemma_announced_leader_is_known(pre: ReplicaState, leader: u8)
    ensures
        ({
            let following = pre.control(Some(ControlMessage::Coordinator(leader)));
            &&& following.known_leader == Some(leader)
            &&& following.watches(leader) <==> leader != pre.pid
            &&& following.find().known_leader is None
            &&& following.find().arbiter.promotes(following.find().ticket())
        }),
{
}

/// Every operation keeps a well-formed replica well-formed.
pub proof fn lemma_replica_stays_wf(
    pre: ReplicaState,
    message: Option<ControlMessage>,
    ping_id: u8,
    answered: bool,
    ticket: WaitTicket,
)
    requires
        pre.wf(),
    ensures
        pre.find().wf(),
        pre.control(message).wf(),
        pre.probed(ping_id, answered).wf(),
        pre.window_elapsed(ticket).wf(),
{
}

} // verus!
