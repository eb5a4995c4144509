//! The engine's guarantees, stated and proved of the abstract state
//! machine in `model`. Each law holds of every state the contracts in
//! `manager` can produce, since every method there realizes exactly the
//! `spec_*` transition the laws speak of.

use vstd::prelude::*;
use crate::flow::{Destination, SendHandle};
use crate::model::{
    spec_enqueue, spec_enqueue_ok, spec_next_step, spec_remaining, spec_reschedule, spec_shutdown,
    EntryModel, SchedState, StepModel, Status,
};
use crate::pacing::spec_next_due;

verus! {

/// Pacing lower bound: whenever a packet went out at or after its due
/// time, the due time of the flow's next packet lies at least one full
/// interval after the due time of the packet just sent — whether the
/// cadence was kept or drift correction restarted it. Since the
/// dispatcher never sends before a packet's due time, consecutive sends
/// of one flow are at least `interval` apart in due time.
pub proof fn lemma_pacing_lower_bound(due_time: int, now: int, interval: int)
    requires
        now >= due_time,
    ensures
        spec_next_due(due_time, now, interval) >= due_time + interval,
{
}

/// Drift correction: a dispatch that ran late by twice the interval or
/// more restarts the cadence at `now + interval` instead of
/// `due_time + interval`, so a stall is not followed by a burst of
/// catch-up sends.
pub proof fn lemma_drift_correction(due_time: int, now: int, interval: int)
    requires
        interval >= 0,
        now - due_time >= 2 * interval,
    ensures
        spec_next_due(due_time, now, interval) == now + interval,
{
}

/// A dispatch that ran late by less than twice the interval keeps the
/// strict periodic cadence: the next due time is exactly one interval
/// after the previous one.
pub proof fn lemma_cadence_kept(due_time: int, now: int, interval: int)
    requires
        interval >= 1,
        now - due_time < 2 * interval,
    ensures
        spec_next_due(due_time, now, interval) == due_time + interval,
{
}

/// Per-flow ordering, the dispatch half: when the flow at the front of
/// the ordering has packets pending, the dispatcher hands out the oldest
/// of them — never a later one — and leaves the rest in their order.
pub proof fn lemma_dispatch_in_order(s: SchedState, now: int)
    requires
        s.status == Status::Running,
        s.order.len() > 0,
        s.flows.contains_key(s.order[0]),
        s.flows[s.order[0]].packets.len() > 0,
    ensures
        ({
            let k = s.order[0];
            let (s2, step) = spec_next_step(s, now);
            &&& step == StepModel::Dispatch(
                EntryModel {
                    packet: s.flows[k].packets[0],
                    due_time: s.flows[k].due_time,
                    key: k,
                    address: s.flows[k].address,
                    socket: s.flows[k].socket,
                },
            )
            &&& s2.flows.contains_key(k)
            &&& s2.flows[k].packets == s.flows[k].packets.drop_first()
            &&& s2.order == s.order.drop_first()
        }),
{
}

/// Per-flow ordering, the enqueue half: a packet for a known flow goes to
/// the back of that flow's buffer, behind everything already pending, and
/// no other flow and no due time changes.
pub proof fn lemma_enqueue_appends(
    s: SchedState,
    k: i64,
    address: Destination,
    data: Seq<u8>,
    socket: Option<SendHandle>,
    now: int,
)
    requires
        s.status == Status::Running,
        s.flows.contains_key(k),
    ensures
        ({
            let s1 = spec_enqueue(s, k, address, data, socket, now);
            &&& s1.flows[k].packets == s.flows[k].packets.push(data)
            &&& s1.flows[k].due_time == s.flows[k].due_time
            &&& s1.flows[k].address == s.flows[k].address
            &&& s1.flows[k].socket == s.flows[k].socket
            &&& s1.order == s.order
            &&& forall|j: i64|
                j != k ==> (#[trigger] s1.flows.contains_key(j) == s.flows.contains_key(j)
                    && (s.flows.contains_key(j) ==> s1.flows[j] == s.flows[j]))
        }),
{
}

/// Idle reclamation: an empty flow whose due time has elapsed disappears
/// from the registry on its next dispatch turn, and the engine then
/// reports the full soft capacity for its id, as if it had never been
/// seen.
pub proof fn lemma_idle_reclamation(s: SchedState, now: int)
    requires
        s.status == Status::Running,
        s.order.len() > 0,
        s.flows.contains_key(s.order[0]),
        s.flows[s.order[0]].packets.len() == 0,
        s.flows[s.order[0]].due_time <= now,
    ensures
        ({
            let (s2, step) = spec_next_step(s, now);
            &&& step == StepModel::Idle
            &&& !s2.flows.contains_key(s.order[0])
            &&& spec_remaining(s2, s.order[0]) == s.capacity
        }),
{
}

/// New-flow priority: enqueuing a packet for an unseen flow id enrolls
/// the flow at the front of the ordering, due immediately, so the very
/// next dispatch turn hands out exactly that packet, before any flow
/// already mid-cycle.
pub proof fn lemma_new_flow_priority(
    s: SchedState,
    k: i64,
    address: Destination,
    data: Seq<u8>,
    socket: Option<SendHandle>,
    enqueue_now: int,
    dispatch_now: int,
)
    requires
        s.status == Status::Running,
        !s.flows.contains_key(k),
    ensures
        ({
            let s1 = spec_enqueue(s, k, address, data, socket, enqueue_now);
            &&& s1.order.len() > 0 && s1.order[0] == k
            &&& s1.flows[k].due_time == enqueue_now
            &&& spec_next_step(s1, dispatch_now).1 == StepModel::Dispatch(
                EntryModel { packet: data, due_time: enqueue_now, key: k, address, socket },
            )
        }),
{
    let s1 = spec_enqueue(s, k, address, data, socket, enqueue_now);
    assert(s1.order[0] == k);
    assert(s1.flows[k].packets[0] == data);
}

/// Per-flow FIFO through a full cycle: an engine whose ordering holds one
/// flow with at least two packets pending hands out the oldest packet,
/// and after the flow is rescheduled — at any instants — the next
/// dispatch turn hands out the second-oldest. Packets of one flow leave
/// in enqueue order.
pub proof fn lemma_per_flow_fifo(
    s: SchedState,
    k: i64,
    first_now: int,
    due_sent: int,
    resched_now: int,
    second_now: int,
)
    requires
        s.status == Status::Running,
        s.order == seq![k],
        s.flows.contains_key(k),
        s.flows[k].packets.len() >= 2,
    ensures
        ({
            let (s1, step1) = spec_next_step(s, first_now);
            let s2 = spec_reschedule(s1, k, due_sent, resched_now);
            let (s3, step2) = spec_next_step(s2, second_now);
            &&& step1 matches StepModel::Dispatch(e1) && e1.packet == s.flows[k].packets[0]
            &&& step2 matches StepModel::Dispatch(e2) && e2.packet == s.flows[k].packets[1]
        }),
{
    let (s1, step1) = spec_next_step(s, first_now);
    assert(s.order[0] == k);
    assert(s1.order =~= Seq::<i64>::empty());
    assert(!s1.order.contains(k));
    let s2 = spec_reschedule(s1, k, due_sent, resched_now);
    assert(s2.order =~= seq![k]);
    assert(s2.order[0] == k);
    assert(s2.flows[k].packets == s.flows[k].packets.drop_first());
    assert(s2.flows[k].packets[0] == s.flows[k].packets[1]);
}

/// Shutdown safety: once shutdown is requested the engine never runs
/// again — the next dispatch turn stops the loop and marks the engine
/// `Destroyed` without touching any flow, dispatching nothing, and every
/// later enqueue fails and changes nothing.
pub proof fn lemma_shutdown_safety(
    s: SchedState,
    k: i64,
    address: Destination,
    data: Seq<u8>,
    socket: Option<SendHandle>,
    now: int,
)
    ensures
        ({
            let s1 = spec_shutdown(s);
            let (s2, step) = spec_next_step(s1, now);
            &&& s1.status != Status::Running
            &&& !spec_enqueue_ok(s1)
            &&& spec_enqueue(s1, k, address, data, socket, now) == s1
            &&& step == StepModel::Stopped
            &&& s2 == (SchedState { status: Status::Destroyed, ..s1 })
            &&& !spec_enqueue_ok(s2)
            &&& spec_enqueue(s2, k, address, data, socket, now) == s2
        }),
{
}

} // verus!
