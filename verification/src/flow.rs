//! One flow and its queue: the flow id, the plain-value destination
//! address, the borrowed send capability, and the FIFO buffer of pending
//! packets together with the flow's next due time.

use vstd::prelude::*;
use std::collections::VecDeque;

verus! {

broadcast use vstd::std_specs::vecdeque::group_vec_dequeue_axioms;

/// Identifier of one flow: an opaque 64-bit value assigned by the caller.
/// It carries no meaning for the engine beyond equality.
#[derive(Clone, Copy, Debug, Hash, PartialEq, Eq, PartialOrd, Ord, Structural)]
pub struct Key(pub i64);

impl From<i64> for Key {
    fn from(other: i64) -> (r: Self) {
        Key(other)
    }
}

impl vstd::std_specs::convert::FromSpecImpl<i64> for Key {
    open spec fn obeys_from_spec() -> bool {
        true
    }

    open spec fn from_spec(other: i64) -> Key {
        Key(other)
    }
}

/// A destination socket address held as plain values: the address family,
/// the raw bits of the IP address, and the port. The engine never reads
/// anything of it beyond the family, which selects the shared transport.
#[derive(Clone, Copy, Debug, PartialEq, Eq, Structural)]
pub struct Destination {
    /// Whether the address belongs to the IPv6 family.
    pub ipv6: bool,
    /// The address bits: 32 of them used for IPv4, 128 for IPv6.
    pub ip: u128,
    /// The UDP port.
    pub port: u16,
}

/// A send capability supplied by the caller for one flow: the raw platform
/// socket handle, borrowed. The engine stores it and hands it back with
/// every dispatched packet of the flow; it never closes or invalidates it,
/// so ownership stays with the supplying caller.
#[derive(Clone, Copy, Debug, PartialEq, Eq, Structural)]
pub struct SendHandle(pub i64);

/// Mathematical model of one flow queue.
pub struct FlowModel {
    /// The pending packets, oldest first.
    pub packets: Seq<Seq<u8>>,
    /// The instant, in nanoseconds, at which the next packet may be sent.
    pub due_time: int,
    /// The flow's id.
    pub key: i64,
    /// Where the flow's packets go.
    pub address: Destination,
    /// The flow's send capability override, if the caller supplied one.
    pub socket: Option<SendHandle>,
}

/// The queue of one flow: its pending packets in FIFO order, its next due
/// time, its destination, and its optional send capability override.
pub struct Queue {
    /// The packets in the queue, oldest at the front.
    pub packets: VecDeque<Vec<u8>>,
    /// When the next packet of this flow may be sent, in nanoseconds.
    pub due_time: u64,
    /// The id this queue belongs to.
    pub key: Key,
    /// The remote address to send this flow's packets to.
    pub address: Destination,
    /// The borrowed send capability to use instead of the shared one.
    pub socket: Option<SendHandle>,
}

impl View for Queue {
    type V = FlowModel;

    open spec fn view(&self) -> FlowModel {
        FlowModel {
            packets: self.packets@.map_values(|p: Vec<u8>| p@),
            due_time: self.due_time as int,
            key: self.key.0,
            address: self.address,
            socket: self.socket,
        }
    }
}

impl Queue {
    /// A fresh, empty queue, due immediately: its first packet may be
    /// dispatched as soon as the flow reaches the front of the ordering.
    pub fn new(address: Destination, key: Key, now: u64) -> (q: Queue)
        ensures
            q@ == (FlowModel {
                packets: Seq::<Seq<u8>>::empty(),
                due_time: now as int,
                key: key.0,
                address,
                socket: None::<SendHandle>,
            }),
    {
        let q = Queue { packets: VecDeque::new(), due_time: now, key, address, socket: None };
        proof {
            assert(q@.packets =~= Seq::<Seq<u8>>::empty());
        }
        q
    }

    /// Removes and returns the oldest pending packet, if any.
    pub fn pop(&mut self) -> (r: Option<Vec<u8>>)
        ensures
            old(self)@.packets.len() == 0 ==> r is None && final(self)@ == old(self)@,
            old(self)@.packets.len() > 0 ==> {
                &&& r matches Some(p) && p@ == old(self)@.packets[0]
                &&& final(self)@ == (FlowModel {
                    packets: old(self)@.packets.drop_first(),
                    ..old(self)@
                })
            },
    {
        let r = self.packets.pop_front();
        proof {
            if old(self)@.packets.len() > 0 {
                assert(self@.packets =~= old(self)@.packets.drop_first());
            }
        }
        r
    }
}

} // verus!
