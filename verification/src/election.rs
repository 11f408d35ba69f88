//! What the rules of the election add up to: among the replicas that are
//! alive, the one of highest pid is the one whose election nobody answers,
//! and whoever starts an election wakes it.

use crate::beater_responder::{reaction, ResponderState};
use crate::control_message::{differs_from, outranks, ControlMessage};
use crate::pinger_finder::{Find, Ping, SetNewLeader};
use vstd::prelude::*;

verus! {

/// Whether `pid` is alive and no replica of `all_pids` that is alive has a
/// higher pid.
pub open spec fn is_highest_alive(all_pids: Seq<u8>, alive: Set<u8>, pid: u8) -> bool {
    &&& all_pids.contains(pid)
    &&& alive.contains(pid)
    &&& forall|i: int|
        0 <= i < all_pids.len() && alive.contains(#[trigger] all_pids[i]) ==> all_pids[i] <= pid
}

/// Whether an election that `pid` starts is answered: a replica that is
/// alive gets its `Election` and answers it.
pub open spec fn is_answered(all_pids: Seq<u8>, alive: Set<u8>, pid: u8) -> bool {
    let asked = all_pids.filter(outranks(pid));
    exists|i: int|
        0 <= i < asked.len() && alive.contains(#[trigger] asked[i]) && reaction(
            asked[i],
            Some(ControlMessage::Election(pid)),
        ) is FindNew
}

/// The election of a replica that is alive goes unanswered if and only if
/// no replica that is alive outranks it.
pub proof fn lemma_only_the_highest_is_unanswered(all_pids: Seq<u8>, alive: Set<u8>, pid: u8)
    requires
        all_pids.contains(pid),
        alive.contains(pid),
    ensures
        !is_answered(all_pids, alive, pid) <==> is_highest_alive(all_pids, alive, pid),
{
    let asked = all_pids.filter(outranks(pid));
    if is_answered(all_pids, alive, pid) {
        let i = choose|i: int|
            0 <= i < asked.len() && alive.contains(#[trigger] asked[i]) && reaction(
                asked[i],
                Some(ControlMessage::Election(pid)),
            ) is FindNew;
        all_pids.lemma_filter_pred(outranks(pid), i);
        assert(asked.contains(asked[i]));
        all_pids.lemma_filter_contains_rev(outranks(pid), asked[i]);
        let j = choose|j: int| 0 <= j < all_pids.len() && all_pids[j] == asked[i];
        assert(alive.contains(all_pids[j]) && all_pids[j] > pid);
    }
    if !is_highest_alive(all_pids, alive, pid) {
        let j = choose|j: int|
            0 <= j < all_pids.len() && alive.contains(#[trigger] all_pids[j]) && all_pids[j] > pid;
        all_pids.lemma_filter_contains(outranks(pid), j);
        let i = choose|i: int| 0 <= i < asked.len() && asked[i] == all_pids[j];
        assert(alive.contains(asked[i]));
    }
}

/// Whoever starts an election wakes the highest replica that is alive:
/// unless the starter is that replica, its `Election` goes to it, and it
/// answers and starts an election of its own. The election of the highest
/// replica goes unanswered, its announcement goes to every other replica,
/// and every replica that gets the announcement takes it as leader and
/// watches it.
pub proof fn lemma_election_wakes_the_highest(
    all_pids: Seq<u8>,
    alive: Set<u8>,
    starter: u8,
    highest: u8,
    other: u8,
)
    requires
        all_pids.contains(starter),
        alive.contains(starter),
        is_highest_alive(all_pids, alive, highest),
    ensures
        starter <= highest,
        starter != highest ==> all_pids.filter(outranks(starter)).contains(highest),
        starter != highest ==> reaction(highest, Some(ControlMessage::Election(starter)))
            == (ResponderState::FindNew { reply: ControlMessage::Okay(highest), find: Find {  } }),
        !is_answered(all_pids, alive, highest),
        all_pids.contains(other) && other != highest ==> all_pids.filter(
            differs_from(highest),
        ).contains(other),
        reaction(other, Some(ControlMessage::Coordinator(highest)))
            == (ResponderState::StartPing {
            leader: SetNewLeader { leader: highest },
            ping: Ping { ping_id: highest },
        }),
{
    let i = choose|i: int| 0 <= i < all_pids.len() && all_pids[i] == starter;
    assert(alive.contains(all_pids[i]));
    if starter != highest {
        let j = choose|j: int| 0 <= j < all_pids.len() && all_pids[j] == highest;
        all_pids.lemma_filter_contains(outranks(starter), j);
    }
    lemma_only_the_highest_is_unanswered(all_pids, alive, highest);
    if all_pids.contains(other) && other != highest {
        let k = choose|k: int| 0 <= k < all_pids.len() && all_pids[k] == other;
        all_pids.lemma_filter_contains(differs_from(highest), k);
    }
}

} // verus!
