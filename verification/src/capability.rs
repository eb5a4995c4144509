//! Choosing the transport for one packet: the flow's borrowed override
//! capability when the caller supplied one, otherwise the shared transport
//! that matches the destination's address family. The shared IPv6 transport
//! is optional; a packet for an IPv6 destination without one is a send
//! failure, reported and not retried, never a reason to stop the flow.

use vstd::prelude::*;
use crate::flow::{Destination, SendHandle};

verus! {

/// The transport one packet goes out on.
#[derive(Clone, Copy, Debug, PartialEq, Eq, Structural)]
pub enum Route {
    /// The flow's own borrowed capability.
    Override(SendHandle),
    /// The shared transport bound for IPv4.
    SharedV4,
    /// The shared transport bound for IPv6.
    SharedV6,
    /// An IPv6 destination with no IPv6 transport bound: the send fails.
    NoTransport,
}

/// Which transport a packet takes: the override wins; otherwise the
/// destination's family picks the shared transport, and an IPv6
/// destination without a bound IPv6 transport has none.
pub open spec fn spec_route(socket: Option<SendHandle>, dest: Destination, has_v6: bool) -> Route {
    match socket {
        Some(h) => Route::Override(h),
        None => if !dest.ipv6 {
            Route::SharedV4
        } else if has_v6 {
            Route::SharedV6
        } else {
            Route::NoTransport
        },
    }
}

/// Selects the transport for one packet of a flow.
pub fn select_route(socket: Option<SendHandle>, dest: Destination, has_v6: bool) -> (r: Route)
    ensures
        r == spec_route(socket, dest, has_v6),
{
    match socket {
        Some(h) => Route::Override(h),
        None => {
            if !dest.ipv6 {
                Route::SharedV4
            } else if has_v6 {
                Route::SharedV6
            } else {
                Route::NoTransport
            }
        },
    }
}

} // verus!
