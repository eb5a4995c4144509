//! The engine itself: the registry of flow queues, the dispatch ordering,
//! the lifecycle status, and the operations producers and the one dispatch
//! worker perform on them. Every method realizes the corresponding
//! transition of `model::SchedState`, stated in its contract; the
//! surrounding process only adds the lock, the clock, the sleep and the
//! sockets.

use vstd::prelude::*;
use std::collections::HashMap;
use std::collections::VecDeque;
use crate::flow::{Destination, FlowModel, Key, Queue, SendHandle};
use crate::model::{
    abs_inv, spec_delete, spec_enqueue, spec_enqueue_ok, spec_is_idle, spec_next_step,
    spec_remaining, spec_reschedule, spec_shutdown, EntryModel, SchedState, StepModel, Status,
};
use crate::pacing::next_due_time;

verus! {

broadcast use
    vstd::std_specs::hash::group_hash_axioms,
    vstd::std_specs::vecdeque::group_vec_dequeue_axioms,
    vstd::set::group_set_axioms;

/// One packet taken off its flow queue, ready to leave: everything the
/// dispatcher needs to sleep, send and reschedule after it has released
/// the shared state.
pub struct QueueEntry {
    /// The packet's bytes, owned here since the flow queue gave them up.
    pub packet: Vec<u8>,
    /// The instant the packet is due.
    pub due_time: u64,
    /// The flow it came from.
    pub key: Key,
    /// Where it goes.
    pub address: Destination,
    /// The flow's borrowed send capability, when the caller supplied one.
    pub socket: Option<SendHandle>,
}

impl View for QueueEntry {
    type V = EntryModel;

    open spec fn view(&self) -> EntryModel {
        EntryModel {
            packet: self.packet@,
            due_time: self.due_time as int,
            key: self.key.0,
            address: self.address,
            socket: self.socket,
        }
    }
}

/// What one turn of the dispatch loop decided.
pub enum Step {
    /// A packet is ready: sleep until its due time, send it, then
    /// reschedule its flow.
    Dispatch(QueueEntry),
    /// No packet this turn. The caller should block for new work when
    /// every known flow is idle, and otherwise take the next turn.
    Idle,
    /// The engine has left `Running`; its status is now `Destroyed` and
    /// the dispatch loop is over.
    Stopped,
}

impl View for Step {
    type V = StepModel;

    open spec fn view(&self) -> StepModel {
        match self {
            Step::Dispatch(e) => StepModel::Dispatch(e@),
            Step::Idle => StepModel::Idle,
            Step::Stopped => StepModel::Stopped,
        }
    }
}

/// The flows that hold at least one pending packet.
pub open spec fn busy_flows(flows: Map<i64, FlowModel>) -> Set<i64> {
    flows.dom().filter(|k: i64| flows[k].packets.len() > 0)
}

/// The scheduler: flow queues by id, the dispatch ordering, the fixed
/// configuration, and the lifecycle status.
pub struct Manager {
    /// Flow ids in dispatch order, front first.
    queues: VecDeque<i64>,
    /// Every known flow queue, by id.
    index: HashMap<i64, Queue>,
    /// How many flows hold at least one pending packet.
    busy: usize,
    /// The advisory per-flow packet budget.
    capacity: usize,
    /// The pacing interval in nanoseconds.
    interval: u64,
    /// Where the engine stands in its lifecycle.
    status: Status,
}

impl View for Manager {
    type V = SchedState;

    closed spec fn view(&self) -> SchedState {
        SchedState {
            order: self.queues@,
            flows: self.index@.map_values(|q: Queue| q@),
            capacity: self.capacity as int,
            interval: self.interval as int,
            status: self.status,
        }
    }
}

impl Manager {
    /// Well-formedness: the abstract invariant of the state, and a busy
    /// count that agrees with the registry.
    pub closed spec fn wf(&self) -> bool {
        &&& abs_inv(self@)
        &&& self.busy as int == busy_flows(self@.flows).len()
    }

    /// A well-formed engine satisfies the abstract invariant of its state.
    pub proof fn lemma_wf_abs_inv(&self)
        requires
            self.wf(),
        ensures
            abs_inv(self@),
    {
    }

    /// A fresh engine: running, no flows, nothing ordered. The interval is
    /// the fixed pacing cadence in nanoseconds; the bound on it is what the
    /// drift-correction arithmetic needs to stay within a machine word.
    pub fn new(capacity: usize, interval: u64) -> (m: Manager)
        requires
            1 <= interval <= u64::MAX / 2,
        ensures
            m.wf(),
            m@ == (SchedState {
                order: Seq::<i64>::empty(),
                flows: Map::<i64, FlowModel>::empty(),
                capacity: capacity as int,
                interval: interval as int,
                status: Status::Running,
            }),
    {
        let m = Manager {
            queues: VecDeque::new(),
            index: HashMap::new(),
            busy: 0,
            capacity,
            interval,
            status: Status::Running,
        };
        proof {
            assert(m@.flows =~= Map::<i64, FlowModel>::empty());
            assert(busy_flows(m@.flows) =~= Set::<i64>::empty());
        }
        m
    }

    /// There are no more busy flows than flows, and no more flows than a
    /// machine word counts.
    proof fn lemma_busy_bounded(&self)
        requires
            self@.flows.dom().finite(),
        ensures
            busy_flows(self@.flows).len() <= self.index@.len() <= usize::MAX,
    {
        assert(self@.flows.dom() =~= self.index@.dom());
        self@.flows.dom().lemma_len_filter(|k: i64| self@.flows[k].packets.len() > 0);
        assert(vstd::std_specs::hash::spec_hash_map_len(&self.index) == self.index@.len());
    }

    /// Enqueue one packet for flow `key`, to be paced out to `address`,
    /// optionally through the caller's own borrowed send capability.
    /// Succeeds exactly while the engine is running; `now` initializes the
    /// due time of a flow seen for the first time, so its first packet may
    /// leave immediately.
    pub fn enqueue_packet(
        &mut self,
        key: Key,
        address: Destination,
        data: Vec<u8>,
        socket: Option<SendHandle>,
        now: u64,
    ) -> (r: bool)
        requires
            old(self).wf(),
        ensures
            final(self).wf(),
            final(self)@ == spec_enqueue(old(self)@, key.0, address, data@, socket, now as int),
            r == spec_enqueue_ok(old(self)@),
    {
        if self.status != Status::Running {
            return false;
        }
        let k = key.0;
        match self.index.remove(&k) {
            Some(mut q) => {
                let was_empty = q.packets.len() == 0;
                q.packets.push_back(data);
                proof {
                    assert(q@.packets =~= old(self)@.flows[k].packets.push(data@));
                }
                self.index.insert(k, q);
                proof {
                    assert(self@.flows =~= spec_enqueue(
                        old(self)@,
                        k,
                        address,
                        data@,
                        socket,
                        now as int,
                    ).flows);
                    if was_empty {
                        assert(busy_flows(self@.flows) =~= busy_flows(old(self)@.flows).insert(k));
                        assert(!busy_flows(old(self)@.flows).contains(k));
                        self.lemma_busy_bounded();
                    } else {
                        assert(busy_flows(self@.flows) =~= busy_flows(old(self)@.flows));
                    }
                }
                if was_empty {
                    self.busy = self.busy + 1;
                }
                true
            },
            None => {
                let mut q = Queue::new(address, key, now);
                q.socket = socket;
                q.packets.push_back(data);
                proof {
                    assert(q@.packets =~= seq![data@]);
                }
                self.index.insert(k, q);
                self.queues.push_front(k);
                proof {
                    assert(self@.flows =~= spec_enqueue(
                        old(self)@,
                        k,
                        address,
                        data@,
                        socket,
                        now as int,
                    ).flows);
                    assert(busy_flows(self@.flows) =~= busy_flows(old(self)@.flows).insert(k));
                    assert(!busy_flows(old(self)@.flows).contains(k));
                    self.lemma_busy_bounded();
                    assert(forall|i: int|
                        0 <= i < old(self)@.order.len() ==> old(self)@.order[i] != k);
                }
                self.busy = self.busy + 1;
                true
            },
        }
    }

    /// The advisory room left in flow `key`'s buffer: the soft capacity
    /// less the buffered count, never negative, and the full capacity for
    /// an unseen flow. Purely informational; the engine never rejects an
    /// enqueue over it.
    pub fn remaining(&self, key: Key) -> (r: usize)
        requires
            self.wf(),
        ensures
            r as int == spec_remaining(self@, key.0),
    {
        match self.index.get(&key.0) {
            Some(q) => {
                let len = q.packets.len();
                if len >= self.capacity {
                    0
                } else {
                    self.capacity - len
                }
            },
            None => self.capacity,
        }
    }

    /// Remove flow `key`: its queue and its place in the ordering. Returns
    /// whether the flow existed. A flow whose packet is in flight is
    /// removed as well; the dispatcher will find it gone and not re-enroll
    /// it.
    pub fn delete_queue(&mut self, key: Key) -> (r: bool)
        requires
            old(self).wf(),
        ensures
            final(self).wf(),
            r == old(self)@.flows.contains_key(key.0),
            final(self)@ == spec_delete(old(self)@, key.0),
    {
        let k = key.0;
        match self.position_in_order(k) {
            Some(i) => {
                proof {
                    old(self)@.order.index_of_first_ensures(k);
                }
                self.queues.remove(i);
            },
            None => {
                proof {
                    old(self)@.order.index_of_first_ensures(k);
                }
            },
        }
        match self.index.remove(&k) {
            Some(q) => {
                proof {
                    assert(self@.flows =~= old(self)@.flows.remove(k));
                    if q@.packets.len() > 0 {
                        assert(busy_flows(self@.flows) =~= busy_flows(old(self)@.flows).remove(k));
                        assert(busy_flows(old(self)@.flows).contains(k));
                    } else {
                        assert(busy_flows(self@.flows) =~= busy_flows(old(self)@.flows));
                    }
                }
                if q.packets.len() > 0 {
                    self.busy = self.busy - 1;
                }
                true
            },
            None => {
                proof {
                    assert(self@.flows =~= old(self)@.flows.remove(k));
                    assert(busy_flows(self@.flows) =~= busy_flows(old(self)@.flows));
                }
                false
            },
        }
    }

    /// Whether every known flow's buffer is empty: when it is, the
    /// dispatcher may block for new work instead of spinning.
    pub fn is_idle(&self) -> (r: bool)
        requires
            self.wf(),
        ensures
            r == spec_is_idle(self@),
    {
        let r = self.busy == 0;
        proof {
            let bf = busy_flows(self@.flows);
            self@.flows.dom().lemma_len_filter(|k: i64| self@.flows[k].packets.len() > 0);
            if self.busy == 0 {
                bf.lemma_len0_is_empty();
                assert forall|k: i64| #[trigger]
                    self@.flows.contains_key(k) implies self@.flows[k].packets.len() == 0 by {
                    if self@.flows[k].packets.len() > 0 {
                        assert(bf.contains(k));
                    }
                }
            } else {
                if spec_is_idle(self@) {
                    assert(bf =~= Set::<i64>::empty());
                }
            }
        }
        r
    }

    /// Request shutdown. Idempotent; a `Destroyed` engine stays terminal.
    pub fn shutdown(&mut self)
        requires
            old(self).wf(),
        ensures
            final(self).wf(),
            final(self)@ == spec_shutdown(old(self)@),
    {
        if self.status == Status::Running {
            self.status = Status::Shutdown;
        }
    }

    /// Whether the dispatch loop has fully exited. Only after this reports
    /// true may the engine's storage be released.
    pub fn is_destroyed(&self) -> (r: bool)
        ensures
            r == (self@.status == Status::Destroyed),
    {
        self.status == Status::Destroyed
    }

    /// The pacing interval in nanoseconds, as configured at construction.
    pub fn interval(&self) -> (r: u64)
        ensures
            r as int == self@.interval,
    {
        self.interval
    }

    /// One turn of the dispatch loop at instant `now`: take up the front
    /// flow of the ordering and either hand out its oldest packet, reclaim
    /// it if it is empty and past due, or send it to the back to wait. An
    /// engine that has left `Running` becomes `Destroyed` and reports the
    /// loop over. A flow whose packet is handed out stays registered but
    /// leaves the ordering until `reschedule` re-enrolls it.
    pub fn next_step(&mut self, now: u64) -> (r: Step)
        requires
            old(self).wf(),
        ensures
            final(self).wf(),
            final(self)@ == spec_next_step(old(self)@, now as int).0,
            r@ == spec_next_step(old(self)@, now as int).1,
    {
        if self.status != Status::Running {
            self.status = Status::Destroyed;
            return Step::Stopped;
        }
        match self.queues.pop_front() {
            None => Step::Idle,
            Some(k) => {
                proof {
                    assert(old(self)@.flows.contains_key(k));
                    assert(old(self)@.order.drop_first() =~= self@.order);
                }
                match self.index.remove(&k) {
                    None => {
                        proof {
                            assert(false);
                        }
                        Step::Idle
                    },
                    Some(mut q) => {
                        match q.pop() {
                            Some(packet) => {
                                let entry = QueueEntry {
                                    packet,
                                    due_time: q.due_time,
                                    key: q.key,
                                    address: q.address,
                                    socket: q.socket,
                                };
                                let now_empty = q.packets.len() == 0;
                                self.index.insert(k, q);
                                proof {
                                    assert(self@.flows =~= spec_next_step(
                                        old(self)@,
                                        now as int,
                                    ).0.flows);
                                    if now_empty {
                                        assert(busy_flows(self@.flows) =~= busy_flows(
                                            old(self)@.flows,
                                        ).remove(k));
                                        assert(busy_flows(old(self)@.flows).contains(k));
                                        self@.flows.dom().lemma_len_filter(
                                            |j: i64| self@.flows[j].packets.len() > 0,
                                        );
                                    } else {
                                        assert(busy_flows(self@.flows) =~= busy_flows(
                                            old(self)@.flows,
                                        ));
                                    }
                                }
                                if now_empty {
                                    self.busy = self.busy - 1;
                                }
                                Step::Dispatch(entry)
                            },
                            None => {
                                if q.due_time <= now {
                                    proof {
                                        assert(self@.flows =~= old(self)@.flows.remove(k));
                                        assert(busy_flows(self@.flows) =~= busy_flows(
                                            old(self)@.flows,
                                        ));
                                    }
                                    Step::Idle
                                } else {
                                    self.index.insert(k, q);
                                    self.queues.push_back(k);
                                    proof {
                                        assert(self@.flows =~= old(self)@.flows);
                                        assert(busy_flows(self@.flows) =~= busy_flows(
                                            old(self)@.flows,
                                        ));
                                        assert(self@.order =~= old(self)@.order.drop_first().push(
                                            k,
                                        ));
                                    }
                                    Step::Idle
                                }
                            },
                        }
                    },
                }
            },
        }
    }

    /// Re-enroll flow `key` after its packet went out: the next due time
    /// comes from drift correction over `due_time`, the due time of the
    /// packet just sent, and the flow returns to the back of the ordering.
    /// A flow deleted while its packet was in flight stays gone. The two
    /// bounds keep the due-time arithmetic within a machine word.
    pub fn reschedule(&mut self, key: Key, due_time: u64, now: u64)
        requires
            old(self).wf(),
            due_time + old(self)@.interval <= u64::MAX,
            now + old(self)@.interval <= u64::MAX,
        ensures
            final(self).wf(),
            final(self)@ == spec_reschedule(old(self)@, key.0, due_time as int, now as int),
    {
        let k = key.0;
        match self.index.remove(&k) {
            None => {
                proof {
                    assert(self@.flows =~= old(self)@.flows);
                }
            },
            Some(mut q) => {
                q.due_time = next_due_time(due_time, now, self.interval);
                self.index.insert(k, q);
                match self.position_in_order(k) {
                    Some(_) => {
                        proof {
                            assert(old(self)@.order.contains(k));
                        }
                    },
                    None => {
                        self.queues.push_back(k);
                    },
                }
                proof {
                    assert(self@.flows =~= spec_reschedule(
                        old(self)@,
                        k,
                        due_time as int,
                        now as int,
                    ).flows);
                    assert(busy_flows(self@.flows) =~= busy_flows(old(self)@.flows));
                }
            },
        }
    }

    /// The position of flow id `k` in the dispatch ordering, if present:
    /// the first index holding it.
    fn position_in_order(&self, k: i64) -> (r: Option<usize>)
        ensures
            match r {
                Some(i) => i < self.queues@.len() && self.queues@[i as int] == k && (forall|j: int|
                    0 <= j < i ==> self.queues@[j] != k),
                None => !self.queues@.contains(k),
            },
    {
        let n = self.queues.len();
        let mut i: usize = 0;
        while i < n
            invariant
                n == self.queues@.len(),
                i <= n,
                forall|j: int| 0 <= j < i ==> self.queues@[j] != k,
            decreases n - i,
        {
            if self.queues[i] == k {
                return Some(i);
            }
            i = i + 1;
        }
        proof {
            assert forall|j: int| 0 <= j < self.queues@.len() implies self.queues@[j] != k by {}
        }
        None
    }
}

} // verus!
