//! The scheduler as a mathematical state machine.
//!
//! `SchedState` is the abstract state of the whole engine: the dispatch
//! ordering, the registry of flows, the fixed configuration and the
//! lifecycle status. Each `spec_*` transition says exactly what one
//! operation of the engine does to that state; the executable methods of
//! `manager::Manager` promise in their contracts to realize these
//! transitions, and the laws in `laws` are proved of them.

use vstd::prelude::*;
use crate::flow::{Destination, FlowModel, SendHandle};
use crate::pacing::spec_next_due;

verus! {

/// The lifecycle of the engine. `Running` accepts work and dispatches;
/// `Shutdown` has been requested to stop, so no new dispatch cycle begins;
/// `Destroyed` is terminal: the dispatch worker has fully exited, and only
/// then may the engine's storage be released.
#[derive(Clone, Copy, Debug, PartialEq, Eq, PartialOrd, Ord, Structural)]
pub enum Status {
    Running,
    Shutdown,
    Destroyed,
}

/// The abstract state of the engine.
pub struct SchedState {
    /// Flow ids in dispatch order, front first. A flow being serviced right
    /// now is absent from the ordering and returns to its back.
    pub order: Seq<i64>,
    /// Every known flow, by id.
    pub flows: Map<i64, FlowModel>,
    /// The advisory per-flow packet budget. Never enforced: it only feeds
    /// the remaining-capacity computation for callers.
    pub capacity: int,
    /// The pacing interval in nanoseconds, fixed at construction.
    pub interval: int,
    /// Where the engine stands in its lifecycle.
    pub status: Status,
}

/// One packet ready to leave: everything the dispatcher needs after it has
/// released the shared state.
pub struct EntryModel {
    /// The packet's bytes.
    pub packet: Seq<u8>,
    /// The instant the packet is due; the dispatcher sleeps until then.
    pub due_time: int,
    /// The flow it belongs to.
    pub key: i64,
    /// Where to send it.
    pub address: Destination,
    /// The flow's borrowed send capability, when the caller supplied one.
    pub socket: Option<SendHandle>,
}

/// What one turn of the dispatch loop decided.
pub enum StepModel {
    /// A packet is ready: sleep until its due time, send it, then
    /// reschedule its flow.
    Dispatch(EntryModel),
    /// Nothing to do this turn; block until new work arrives if every
    /// known flow is idle.
    Idle,
    /// The engine left `Running`; the loop is over and the state is now
    /// `Destroyed`.
    Stopped,
}

/// What every state of the engine satisfies: a meaningful interval, an
/// ordering without duplicates whose every id is a known flow, finitely
/// many flows, and each flow keyed consistently with values a machine
/// word can hold.
pub open spec fn abs_inv(s: SchedState) -> bool {
    &&& 1 <= s.interval <= u64::MAX as int / 2
    &&& 0 <= s.capacity <= usize::MAX as int
    &&& s.order.no_duplicates()
    &&& forall|i: int| 0 <= i < s.order.len() ==> s.flows.contains_key(#[trigger] s.order[i])
    &&& s.flows.dom().finite()
    &&& forall|k: i64| #[trigger]
        s.flows.contains_key(k) ==> s.flows[k].key == k && 0 <= s.flows[k].due_time
            <= u64::MAX as int
}

/// Enqueue one packet for flow `k`. A no-op unless the engine is running.
/// An unseen flow id gets a fresh queue, due immediately, enrolled at the
/// front of the ordering so it is serviced on the very next turn; a known
/// flow keeps its place, destination and capability. The packet goes to
/// the back of the flow's buffer in all cases.
pub open spec fn spec_enqueue(
    s: SchedState,
    k: i64,
    address: Destination,
    data: Seq<u8>,
    socket: Option<SendHandle>,
    now: int,
) -> SchedState {
    if s.status != Status::Running {
        s
    } else if s.flows.contains_key(k) {
        SchedState {
            flows: s.flows.insert(
                k,
                FlowModel { packets: s.flows[k].packets.push(data), ..s.flows[k] },
            ),
            ..s
        }
    } else {
        SchedState {
            order: seq![k] + s.order,
            flows: s.flows.insert(
                k,
                FlowModel { packets: seq![data], due_time: now, key: k, address, socket },
            ),
            ..s
        }
    }
}

/// Whether an enqueue succeeds: exactly when the engine is running.
pub open spec fn spec_enqueue_ok(s: SchedState) -> bool {
    s.status == Status::Running
}

/// Remove flow `k` entirely: from the registry and from the ordering.
pub open spec fn spec_delete(s: SchedState, k: i64) -> SchedState {
    SchedState { flows: s.flows.remove(k), order: s.order.remove_value(k), ..s }
}

/// The advisory room left in flow `k`'s buffer: the soft capacity less the
/// buffered packets, never negative, and the full capacity for a flow the
/// engine does not know.
pub open spec fn spec_remaining(s: SchedState, k: i64) -> int {
    if s.flows.contains_key(k) {
        if s.flows[k].packets.len() >= s.capacity {
            0
        } else {
            s.capacity - s.flows[k].packets.len()
        }
    } else {
        s.capacity
    }
}

/// Whether every known flow's buffer is empty, so the dispatcher may block
/// rather than spin.
pub open spec fn spec_is_idle(s: SchedState) -> bool {
    forall|k: i64| #[trigger] s.flows.contains_key(k) ==> s.flows[k].packets.len() == 0
}

/// Request shutdown: a running engine stops accepting work and the
/// dispatch loop winds down. Idempotent, and a `Destroyed` engine stays
/// terminal.
pub open spec fn spec_shutdown(s: SchedState) -> SchedState {
    if s.status == Status::Running {
        SchedState { status: Status::Shutdown, ..s }
    } else {
        s
    }
}

/// One turn of the dispatch loop at instant `now`. An engine that left
/// `Running` becomes `Destroyed` and the loop stops. Otherwise the front
/// flow of the ordering is taken up: a flow with a packet yields it for
/// dispatch and stays registered, out of the ordering, until it is
/// rescheduled; an empty flow whose due time has passed is reclaimed; an
/// empty flow still within its due time returns to the back of the
/// ordering to wait for packets. An id popped for a flow that is no longer
/// registered is simply dropped.
pub open spec fn spec_next_step(s: SchedState, now: int) -> (SchedState, StepModel) {
    if s.status != Status::Running {
        (SchedState { status: Status::Destroyed, ..s }, StepModel::Stopped)
    } else if s.order.len() == 0 {
        (s, StepModel::Idle)
    } else {
        let k = s.order[0];
        let rest = s.order.drop_first();
        if !s.flows.contains_key(k) {
            (SchedState { order: rest, ..s }, StepModel::Idle)
        } else {
            let q = s.flows[k];
            if q.packets.len() > 0 {
                (
                    SchedState {
                        order: rest,
                        flows: s.flows.insert(
                            k,
                            FlowModel { packets: q.packets.drop_first(), ..q },
                        ),
                        ..s
                    },
                    StepModel::Dispatch(
                        EntryModel {
                            packet: q.packets[0],
                            due_time: q.due_time,
                            key: k,
                            address: q.address,
                            socket: q.socket,
                        },
                    ),
                )
            } else if q.due_time <= now {
                (SchedState { order: rest, flows: s.flows.remove(k), ..s }, StepModel::Idle)
            } else {
                (SchedState { order: rest.push(k), ..s }, StepModel::Idle)
            }
        }
    }
}

/// Re-enroll flow `k` after its packet was sent: its next due time comes
/// from drift correction over the sent packet's due time, and the flow
/// returns to the back of the ordering. A flow deleted while its packet
/// was in flight stays gone.
pub open spec fn spec_reschedule(s: SchedState, k: i64, due_time: int, now: int) -> SchedState {
    if !s.flows.contains_key(k) {
        s
    } else {
        SchedState {
            flows: s.flows.insert(
                k,
                FlowModel {
                    due_time: spec_next_due(due_time, now, s.interval),
                    ..s.flows[k]
                },
            ),
            order: if s.order.contains(k) {
                s.order
            } else {
                s.order.push(k)
            },
            ..s
        }
    }
}

} // verus!
