use alglobo::addresses::{id_to_ctrladdr, id_to_dataaddr, PROCESSES};
use alglobo::beater_responder::{
    Beat, BeaterResponder, BroadcastCoordinator, Responder, ResponderState,
};
use alglobo::bootstrapper::{coordinator_address, entities, entity_address, Bootstrapper, RunAlGlobo};
use alglobo::control_message::{higher_pids, other_pids, replica_pids, ControlMessage};
use alglobo::entity_type::EntityType;
use alglobo::ok_timeout_handler::{OkTimeoutHandler, RegisterOkReceived, WaitTicket, WaitTimeout};
use alglobo::pinger_finder::{
    ping_datagram, Find, Ping, PingOutcome, PingerFinder, SetNewLeader,
};
use alglobo::replica::{ElectionStarted, Probing, Reaction, Replica};
use std::collections::VecDeque;

#[test]
fn control_datagrams() {
    assert_eq!(ControlMessage::Okay(3).encode(), vec![b'O', 3]);
    assert_eq!(ControlMessage::Election(0).encode(), vec![b'E', 0]);
    assert_eq!(ControlMessage::Coordinator(2).encode(), vec![b'C', 2]);
    assert_eq!(ControlMessage::decode(b"C\x02"), Some(ControlMessage::Coordinator(2)));
    assert_eq!(ControlMessage::decode(b"E\x00"), Some(ControlMessage::Election(0)));
    assert_eq!(ControlMessage::decode(b"O\xff"), Some(ControlMessage::Okay(255)));
    assert_eq!(ControlMessage::decode(b"X\x02"), None);
    assert_eq!(ControlMessage::decode(b"C"), None);
    assert_eq!(ControlMessage::decode(b"C\x02\x00"), None);
    assert_eq!(ControlMessage::decode(b""), None);
}

#[test]
fn pids_above_and_beside() {
    assert_eq!(replica_pids(PROCESSES), vec![0, 1, 2, 3]);
    assert_eq!(replica_pids(0), Vec::<u8>::new());
    assert_eq!(higher_pids(&vec![0, 1, 2, 3], 1), vec![2, 3]);
    assert_eq!(higher_pids(&vec![0, 1, 2, 3], 3), Vec::<u8>::new());
    assert_eq!(higher_pids(&vec![3, 0, 2, 1], 0), vec![3, 2, 1]);
    assert_eq!(other_pids(&vec![0, 1, 2, 3], 2), vec![0, 1, 3]);
    assert_eq!(other_pids(&vec![2], 2), Vec::<u8>::new());
}

#[test]
fn addresses_of_replicas_and_participants() {
    assert_eq!(id_to_ctrladdr(0), "localhost:12340");
    assert_eq!(id_to_ctrladdr(3), "localhost:12343");
    assert_eq!(id_to_dataaddr(2), "localhost:12352");
    assert_eq!(id_to_dataaddr(10), "localhost:123510");
    assert_eq!(coordinator_address(), "localhost:8888");
    assert_eq!(entity_address(EntityType::Hotel), "localhost:1234");
    assert_eq!(entity_address(EntityType::Bank), "localhost:1235");
    assert_eq!(entity_address(EntityType::Airline), "localhost:1236");
    assert_eq!(
        entities(),
        vec![EntityType::Hotel, EntityType::Bank, EntityType::Airline]
    );
}

#[test]
fn election_is_answered_only_from_above() {
    let responder = BeaterResponder::new(2);
    assert_eq!(
        responder.respond(Responder::new(), b"E\x01"),
        ResponderState::FindNew {
            reply: ControlMessage::Okay(2),
            find: Find::new()
        }
    );
    assert_eq!(responder.respond(Responder::new(), b"E\x02"), ResponderState::Continue);
    assert_eq!(responder.respond(Responder::new(), b"E\x03"), ResponderState::Continue);
    assert_eq!(
        responder.respond(Responder::new(), b"O\x03"),
        ResponderState::OkReceived(RegisterOkReceived {})
    );
    assert_eq!(
        responder.respond(Responder::new(), b"C\x03"),
        ResponderState::StartPing {
            leader: SetNewLeader::new(3),
            ping: Ping::new(3)
        }
    );
    assert_eq!(responder.respond(Responder::new(), b"?\x03"), ResponderState::Continue);
    assert_eq!(responder.respond(Responder::new(), b"E"), ResponderState::Continue);
}

#[test]
fn probes_are_answered_with_pong() {
    let responder = BeaterResponder::new(3);
    assert_eq!(ping_datagram(), b"PING".to_vec());
    assert_eq!(responder.beat(Beat {}, b"PING"), Some(b"PONG".to_vec()));
    assert_eq!(responder.beat(Beat {}, b"PONG"), None);
    assert_eq!(responder.beat(Beat {}, b"PIN"), None);
    assert_eq!(responder.beat(Beat {}, b"PINGS"), None);
    let finder = PingerFinder::new(Some(3), 1, vec![0, 1, 2, 3]);
    let probe = finder.ping(&Ping::new(3)).unwrap();
    assert_eq!(probe.address, "localhost:12353");
    assert_eq!(probe.payload, b"PING".to_vec());
    assert_eq!(probe.timeout_s, 10);
    assert_eq!(
        finder.ping_result(Ping::new(3), true),
        PingOutcome::PingAgain { ping: Ping::new(3), pause_s: 2 }
    );
    assert_eq!(
        finder.ping_result(Ping::new(3), false),
        PingOutcome::FindNew(Find::new())
    );
}

#[test]
fn only_the_known_leader_is_probed() {
    let mut finder = PingerFinder::new(Some(3), 1, vec![0, 1, 2, 3]);
    assert!(finder.is_watching(3));
    assert!(!finder.is_watching(2));
    assert!(finder.ping(&Ping::new(2)).is_none());
    assert_eq!(finder.ping_result(Ping::new(2), false), PingOutcome::Stop);
    assert_eq!(finder.ping_result(Ping::new(2), true), PingOutcome::Stop);
    // In mid-election nobody is probed.
    finder.find(Find::new());
    assert!(finder.ping(&Ping::new(3)).is_none());
    assert_eq!(finder.ping_result(Ping::new(3), false), PingOutcome::Stop);
    // A replica does not probe itself.
    let own = PingerFinder::new(Some(1), 1, vec![0, 1, 2, 3]);
    assert!(!own.is_watching(1));
    assert!(own.ping(&Ping::new(1)).is_none());
    assert_eq!(own.ping_result(Ping::new(1), true), PingOutcome::Stop);
}

#[test]
fn highest_replica_does_not_wait() {
    let mut highest = PingerFinder::new(Some(3), 3, vec![0, 1, 2, 3]);
    let election = highest.find(Find::new()).unwrap();
    assert!(election.targets.is_empty());
    assert_eq!(election.window_s, 0);
    let mut lower = PingerFinder::new(Some(3), 2, vec![0, 1, 2, 3]);
    let election = lower.find(Find::new()).unwrap();
    assert_eq!(election.targets, vec![3]);
    assert_eq!(election.window_s, 10);
}

#[test]
fn find_is_a_no_op_in_mid_election() {
    let mut finder = PingerFinder::new(Some(3), 1, vec![0, 1, 2, 3]);
    let election = finder.find(Find::new()).unwrap();
    assert_eq!(election.message, ControlMessage::Election(1));
    assert_eq!(election.targets, vec![2, 3]);
    assert_eq!(election.wait.all_pids, vec![0, 1, 2, 3]);
    assert_eq!(finder.known_leader(), None);
    assert!(finder.find(Find::new()).is_none());
    assert_eq!(finder.known_leader(), None);
    finder.set_new_leader(SetNewLeader::new(2));
    assert_eq!(finder.known_leader(), Some(2));
    assert!(finder.find(Find::new()).is_some());
}

#[test]
fn arbiter_promotes_when_no_ok_arrives() {
    let mut arbiter = OkTimeoutHandler::new(2);
    let ticket = arbiter.wait_timeout(WaitTimeout::new(vec![0, 1, 2, 3]));
    let leadership = arbiter.window_elapsed(ticket).unwrap();
    assert_eq!(leadership.broadcast.all_pids, vec![0, 1, 2, 3]);
    assert_eq!(leadership.run, RunAlGlobo::new());
    assert!(arbiter.window_elapsed(ticket).is_none());
    // An `Ok` that comes after the promotion is dropped.
    assert!(!arbiter.register_ok_received(RegisterOkReceived {}));
}

#[test]
fn arbiter_stays_follower_after_an_ok() {
    let mut arbiter = OkTimeoutHandler::new(1);
    assert!(!arbiter.register_ok_received(RegisterOkReceived {}));
    let ticket = arbiter.wait_timeout(WaitTimeout::new(vec![0, 1, 2, 3]));
    assert!(arbiter.register_ok_received(RegisterOkReceived {}));
    assert!(!arbiter.register_ok_received(RegisterOkReceived {}));
    assert!(arbiter.window_elapsed(ticket).is_none());
}

#[test]
fn arbiter_ignores_the_ticket_of_an_earlier_wait() {
    let mut arbiter = OkTimeoutHandler::new(1);
    let first = arbiter.wait_timeout(WaitTimeout::new(vec![0, 1]));
    let second = arbiter.wait_timeout(WaitTimeout::new(vec![0, 1, 2]));
    assert_eq!(first, WaitTicket { generation: 1 });
    assert_eq!(second, WaitTicket { generation: 2 });
    assert!(arbiter.window_elapsed(first).is_none());
    let leadership = arbiter.window_elapsed(second).unwrap();
    assert_eq!(leadership.broadcast.all_pids, vec![0, 1, 2]);
}

#[test]
fn announcement_goes_to_every_other_replica() {
    let responder = BeaterResponder::new(2);
    let announcement =
        responder.broadcast_coordinator(BroadcastCoordinator::new(vec![0, 1, 2, 3]));
    assert_eq!(announcement.message, ControlMessage::Coordinator(2));
    assert_eq!(announcement.targets, vec![0, 1, 3]);
    assert_eq!(announcement.then, Beat {});
}

#[test]
fn bootstrapper_starts_the_pipeline_once() {
    let mut bootstrapper = Bootstrapper::new("transactions.csv".to_string());
    assert_eq!(
        bootstrapper.run_al_globo(RunAlGlobo::new()),
        Some("transactions.csv".to_string())
    );
    assert_eq!(bootstrapper.run_al_globo(RunAlGlobo::new()), None);
    assert_eq!(bootstrapper.run_al_globo(RunAlGlobo::new()), None);
}

struct Node {
    alive: bool,
    replica: Replica,
    ticket: Option<WaitTicket>,
    declared: bool,
    pipelines: u32,
}

struct Cluster {
    nodes: Vec<Node>,
    // (receiver, datagram)
    network: VecDeque<(u8, Vec<u8>)>,
    // (sender, receiver, message), as sent
    sent: Vec<(u8, u8, ControlMessage)>,
}

impl Cluster {
    fn new(alive: [bool; 4]) -> Cluster {
        let nodes = replica_pids(PROCESSES)
            .into_iter()
            .map(|pid| Node {
                alive: alive[pid as usize],
                replica: Replica::new(
                    pid,
                    replica_pids(PROCESSES),
                    "transactions.csv".to_string(),
                ),
                ticket: None,
                declared: false,
                pipelines: 0,
            })
            .collect();
        Cluster {
            nodes,
            network: VecDeque::new(),
            sent: Vec::new(),
        }
    }

    // Every replica that is alive has heard that `leader` leads.
    fn led_by(alive: [bool; 4], leader: u8) -> Cluster {
        let mut cluster = Cluster::new(alive);
        for node in &mut cluster.nodes {
            node.replica
                .control_datagram(&ControlMessage::Coordinator(leader).encode());
            assert_eq!(node.replica.known_leader(), Some(leader));
        }
        cluster
    }

    fn send(&mut self, from: u8, to: u8, message: ControlMessage) {
        self.sent.push((from, to, message));
        self.network.push_back((to, message.encode()));
    }

    fn started(&mut self, pid: u8, election: Option<ElectionStarted>) {
        if let Some(election) = election {
            self.nodes[pid as usize].ticket = Some(election.ticket);
            for target in election.targets {
                self.send(pid, target, election.message);
            }
        }
    }

    fn find(&mut self, pid: u8) {
        let election = self.nodes[pid as usize].replica.find(Find::new());
        self.started(pid, election);
    }

    fn deliver(&mut self, to: u8, datagram: Vec<u8>) {
        if !self.nodes[to as usize].alive {
            return;
        }
        let from = datagram[1];
        match self.nodes[to as usize].replica.control_datagram(&datagram) {
            Reaction::Nothing => {}
            Reaction::Follower { woken: _ } => {}
            Reaction::TakenOver { reply, election } => {
                self.send(to, from, reply);
                self.started(to, election);
            }
            Reaction::Watching { probe: _, ping: _ } => {}
        }
    }

    fn windows_elapse(&mut self) {
        for pid in 0..PROCESSES {
            let node = &mut self.nodes[pid as usize];
            if !node.alive {
                continue;
            }
            if let Some(ticket) = node.ticket.take() {
                if let Some(promotion) = node.replica.window_elapsed(ticket) {
                    node.declared = true;
                    if promotion.source.is_some() {
                        node.pipelines += 1;
                    }
                    for target in promotion.announcement.targets {
                        self.send(pid, target, promotion.announcement.message);
                    }
                }
            }
        }
    }

    // Delivers every datagram, lets the windows of the waits pass, and
    // delivers what that has sent.
    fn run(&mut self) {
        for _ in 0..2 {
            while let Some((to, datagram)) = self.network.pop_front() {
                self.deliver(to, datagram);
            }
            self.windows_elapse();
        }
        while let Some((to, datagram)) = self.network.pop_front() {
            self.deliver(to, datagram);
        }
    }
}

#[test]
fn highest_replica_wins_when_all_are_alive() {
    for starter in 0..PROCESSES {
        let mut cluster = Cluster::new([true; 4]);
        cluster.find(starter);
        cluster.run();
        for node in &cluster.nodes[..3] {
            assert_eq!(node.replica.known_leader(), Some(3));
            assert!(!node.declared);
        }
        assert!(cluster.nodes[3].declared);
        assert_eq!(cluster.nodes[3].pipelines, 1);
        let announced: Vec<u8> = cluster
            .sent
            .iter()
            .filter(|(_, _, message)| *message == ControlMessage::Coordinator(3))
            .map(|(_, to, _)| *to)
            .collect();
        assert_eq!(announced, vec![0, 1, 2]);
        assert!(cluster
            .sent
            .iter()
            .all(|(_, _, message)| !matches!(message, ControlMessage::Coordinator(pid) if *pid != 3)));
    }
}

#[test]
fn second_highest_replica_wins_when_the_highest_is_killed() {
    // Every replica believes that 3 leads; 3 is dead.
    let mut cluster = Cluster::led_by([true, true, true, false], 3);
    // The probe of replica 2 goes unanswered.
    let election = match cluster.nodes[2].replica.probed(Ping::new(3), false) {
        Probing::Lost { election } => election,
        other => panic!("unexpected: {:?}", other),
    };
    assert_eq!(election.as_ref().unwrap().window_s, 10);
    cluster.started(2, election);
    assert_eq!(cluster.sent, vec![(2, 3, ControlMessage::Election(2))]);
    cluster.run();
    assert!(cluster.nodes[2].declared);
    assert_eq!(cluster.nodes[2].pipelines, 1);
    let announced: Vec<(u8, u8)> = cluster
        .sent
        .iter()
        .filter(|(_, _, message)| *message == ControlMessage::Coordinator(2))
        .map(|(from, to, _)| (*from, *to))
        .collect();
    assert_eq!(announced, vec![(2, 0), (2, 1), (2, 3)]);
    assert_eq!(cluster.nodes[0].replica.known_leader(), Some(2));
    assert_eq!(cluster.nodes[1].replica.known_leader(), Some(2));
    assert!(!cluster.nodes[0].declared);
    assert!(!cluster.nodes[1].declared);
}

#[test]
fn lowest_replica_starts_and_the_highest_alive_wins() {
    let mut cluster = Cluster::led_by([true, true, true, false], 3);
    cluster.find(0);
    cluster.run();
    assert!(cluster.nodes[2].declared);
    assert!(!cluster.nodes[0].declared);
    assert!(!cluster.nodes[1].declared);
    assert_eq!(cluster.nodes[0].replica.known_leader(), Some(2));
    assert_eq!(cluster.nodes[1].replica.known_leader(), Some(2));
    // Replica 0 was answered by 1 and by 2, replica 1 by 2.
    let oks: Vec<(u8, u8)> = cluster
        .sent
        .iter()
        .filter(|(_, _, message)| matches!(message, ControlMessage::Okay(_)))
        .map(|(from, to, _)| (*from, *to))
        .collect();
    assert_eq!(oks, vec![(1, 0), (2, 0), (2, 1)]);
}

#[test]
fn replica_watches_the_leader_it_hears_of() {
    let mut replica = Replica::new(1, replica_pids(PROCESSES), "transactions.csv".to_string());
    assert_eq!(replica.known_leader(), Some(1));
    assert!(replica.ping(&Ping::new(1)).is_none());
    match replica.control_datagram(b"C\x03") {
        Reaction::Watching { probe, ping } => {
            assert_eq!(ping, Ping::new(3));
            let probe = probe.unwrap();
            assert_eq!(probe.address, "localhost:12353");
            assert_eq!(probe.payload, b"PING".to_vec());
        }
        other => panic!("unexpected: {:?}", other),
    }
    assert!(matches!(
        replica.probed(Ping::new(3), true),
        Probing::Again { ping, pause_s: 2 } if ping == Ping::new(3)
    ));
    assert!(matches!(replica.probed(Ping::new(2), false), Probing::Stopped));
    // An `Ok` without a wait wakes nobody.
    assert!(matches!(
        replica.control_datagram(b"O\x03"),
        Reaction::Follower { woken: false }
    ));
    assert!(matches!(replica.control_datagram(b"E\x02"), Reaction::Nothing));
    let election = match replica.control_datagram(b"E\x00") {
        Reaction::TakenOver { reply, election } => {
            assert_eq!(reply, ControlMessage::Okay(1));
            election.unwrap()
        }
        other => panic!("unexpected: {:?}", other),
    };
    assert_eq!(election.targets, vec![2, 3]);
    assert_eq!(election.message, ControlMessage::Election(1));
    assert_eq!(replica.known_leader(), None);
    // In mid-election the next `Election` is answered, but starts nothing.
    assert!(matches!(
        replica.control_datagram(b"E\x00"),
        Reaction::TakenOver { reply: ControlMessage::Okay(1), election: None }
    ));
    assert!(matches!(
        replica.control_datagram(b"O\x02"),
        Reaction::Follower { woken: true }
    ));
    assert!(replica.window_elapsed(election.ticket).is_none());
    assert_eq!(replica.beat(b"PING"), Some(b"PONG".to_vec()));
    assert_eq!(replica.beat(b"PANG"), None);
}

#[test]
fn leader_that_is_elected_again_starts_its_pipeline_once() {
    let mut replica = Replica::new(3, replica_pids(PROCESSES), "transactions.csv".to_string());
    let election = replica.find(Find::new()).unwrap();
    assert!(election.targets.is_empty());
    assert_eq!(election.window_s, 0);
    let promotion = replica.window_elapsed(election.ticket).unwrap();
    assert_eq!(promotion.source, Some("transactions.csv".to_string()));
    assert_eq!(promotion.announcement.message, ControlMessage::Coordinator(3));
    assert_eq!(promotion.announcement.targets, vec![0, 1, 2]);
    assert!(replica.window_elapsed(election.ticket).is_none());
    // Another replica takes over and is lost again.
    replica.control_datagram(b"C\x02");
    let election = match replica.probed(Ping::new(2), false) {
        Probing::Lost { election } => election.unwrap(),
        other => panic!("unexpected: {:?}", other),
    };
    let promotion = replica.window_elapsed(election.ticket).unwrap();
    assert_eq!(promotion.source, None);
    assert_eq!(promotion.announcement.targets, vec![0, 1, 2]);
}
