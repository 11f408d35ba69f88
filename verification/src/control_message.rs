//! The datagrams of the election: two bytes, a tag and the sender's pid.

use vstd::prelude::*;

verus! {

/// Tag of an `Ok` datagram: the letter `O`.
pub const TAG_OK: u8 = 0x4f;

/// Tag of an `Election` datagram: the letter `E`.
pub const TAG_ELECTION: u8 = 0x45;

/// Tag of a `Coordinator` datagram: the letter `C`.
pub const TAG_COORDINATOR: u8 = 0x43;

/// Length of an election datagram.
pub const CONTROL_SIZE: usize = 2;

/// A message of the election. Each carries the pid of its sender.
/// `Okay` is the `Ok` of the bully algorithm.
#[derive(Debug, Copy, Clone, PartialEq, Eq, Structural)]
pub enum ControlMessage {
    /// A replica of higher pid is alive and takes the election over.
    Okay(u8),
    /// The sender looks for a leader among the replicas of higher pid.
    Election(u8),
    /// The sender is the leader.
    Coordinator(u8),
}

impl ControlMessage {
    /// The pid of the sender.
    pub open spec fn sender(self) -> u8 {
        match self {
            ControlMessage::Okay(pid) => pid,
            ControlMessage::Election(pid) => pid,
            ControlMessage::Coordinator(pid) => pid,
        }
    }

    /// The tag of the message.
    pub open spec fn tag(self) -> u8 {
        match self {
            ControlMessage::Okay(_) => TAG_OK,
            ControlMessage::Election(_) => TAG_ELECTION,
            ControlMessage::Coordinator(_) => TAG_COORDINATOR,
        }
    }

    /// The datagram of a message.
    pub open spec fn wire_format(self) -> Seq<u8> {
        seq![self.tag(), self.sender()]
    }

    /// What a buffer decodes to: nothing unless it is two bytes long and
    /// starts with one of the three tags.
    pub open spec fn parse(bytes: Seq<u8>) -> Option<ControlMessage> {
        if bytes.len() != CONTROL_SIZE {
            None
        } else if bytes[0] == TAG_OK {
            Some(ControlMessage::Okay(bytes[1]))
        } else if bytes[0] == TAG_ELECTION {
            Some(ControlMessage::Election(bytes[1]))
        } else if bytes[0] == TAG_COORDINATOR {
            Some(ControlMessage::Coordinator(bytes[1]))
        } else {
            None
        }
    }

    /// Writes the message as a datagram.
    pub fn encode(&self) -> (datagram: Vec<u8>)
        ensures
            datagram@ == self.wire_format(),
            Self::parse(datagram@) == Some(*self),
    {
        let mut datagram: Vec<u8> = Vec::new();
        match self {
            ControlMessage::Okay(pid) => {
                datagram.push(TAG_OK);
                datagram.push(*pid);
            },
            ControlMessage::Election(pid) => {
                datagram.push(TAG_ELECTION);
                datagram.push(*pid);
            },
            ControlMessage::Coordinator(pid) => {
                datagram.push(TAG_COORDINATOR);
                datagram.push(*pid);
            },
        }
        datagram
    }

    /// Reads a datagram, or nothing from a buffer that is none.
    pub fn decode(buffer: &[u8]) -> (message: Option<Self>)
        ensures
            message == Self::parse(buffer@),
    {
        if buffer.len() != CONTROL_SIZE {
            return None;
        }
        let tag: u8 = buffer[0];
        let pid: u8 = buffer[1];
        if tag == TAG_OK {
            Some(ControlMessage::Okay(pid))
        } else if tag == TAG_ELECTION {
            Some(ControlMessage::Election(pid))
        } else if tag == TAG_COORDINATOR {
            Some(ControlMessage::Coordinator(pid))
        } else {
            None
        }
    }
}

/// Encoding an election message and decoding the datagram yields the
/// message, and a buffer that decodes is the datagram of what it decodes to.
pub proof fn lemma_control_round_trip(message: ControlMessage, bytes: Seq<u8>)
    ensures
        ControlMessage::parse(message.wire_format()) == Some(message),
        ControlMessage::parse(bytes) is Some ==> ControlMessage::parse(
            bytes,
        )->Some_0.wire_format() == bytes,
{
}

/// The test that keeps the pids above `pid`.
pub open spec fn outranks(pid: u8) -> spec_fn(u8) -> bool {
    |other: u8| other > pid
}

/// The test that keeps every pid but `pid`.
pub open spec fn differs_from(pid: u8) -> spec_fn(u8) -> bool {
    |other: u8| other != pid
}

/// The replicas that outrank `pid`, in the order of `all_pids`.
pub fn higher_pids(all_pids: &Vec<u8>, pid: u8) -> (higher: Vec<u8>)
    ensures
        higher@ == all_pids@.filter(outranks(pid)),
{
    let mut higher: Vec<u8> = Vec::new();
    let mut i: usize = 0;
    proof {
        reveal(Seq::filter);
    }
    while i < all_pids.len()
        invariant
            i <= all_pids.len(),
            higher@ == all_pids@.subrange(0, i as int).filter(outranks(pid)),
        decreases all_pids.len() - i,
    {
        proof {
            reveal(Seq::filter);
            assert(all_pids@.subrange(0, i + 1).drop_last() =~= all_pids@.subrange(0, i as int));
        }
        if all_pids[i] > pid {
            higher.push(all_pids[i]);
        }
        i = i + 1;
    }
    assert(all_pids@.subrange(0, i as int) =~= all_pids@);
    higher
}

/// The replicas other than `pid`, in the order of `all_pids`.
pub fn other_pids(all_pids: &Vec<u8>, pid: u8) -> (others: Vec<u8>)
    ensures
        others@ == all_pids@.filter(differs_from(pid)),
{
    let mut others: Vec<u8> = Vec::new();
    let mut i: usize = 0;
    proof {
        reveal(Seq::filter);
    }
    while i < all_pids.len()
        invariant
            i <= all_pids.len(),
            others@ == all_pids@.subrange(0, i as int).filter(differs_from(pid)),
        decreases all_pids.len() - i,
    {
        proof {
            reveal(Seq::filter);
            assert(all_pids@.subrange(0, i + 1).drop_last() =~= all_pids@.subrange(0, i as int));
        }
        if all_pids[i] != pid {
            others.push(all_pids[i]);
        }
        i = i + 1;
    }
    assert(all_pids@.subrange(0, i as int) =~= all_pids@);
    others
}

/// The pids `0, 1, .., count - 1` of a set of `count` replicas.
pub fn replica_pids(count: u8) -> (pids: Vec<u8>)
    ensures
        pids@ == Seq::new(count as nat, |i: int| i as u8),
{
    let mut pids: Vec<u8> = Vec::new();
    let mut pid: u8 = 0;
    while pid < count
        invariant
            pid <= count,
            pids@ == Seq::new(pid as nat, |i: int| i as u8),
        decreases count - pid,
    {
        pids.push(pid);
        pid = pid + 1;
    }
    pids
}

} // verus!
