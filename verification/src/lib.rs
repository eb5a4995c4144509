//! A per-flow, rate-paced outbound packet scheduler.
//!
//! Many independent flows, each identified by an opaque 64-bit id, submit
//! datagrams that must leave for a fixed destination at a strict cadence of
//! one packet per configured interval. The engine here is the pure
//! scheduling core: the flow-queue registry, the due-time-ordered
//! round-robin dispatcher, the drift-correction policy, and the
//! Running/Shutdown/Destroyed lifecycle. Wall-clock instants enter every
//! operation as a nanosecond count, so the whole engine is a deterministic
//! state machine; the surrounding process supplies the clock, the sockets
//! and the worker thread that drives it.

pub mod capability;
pub mod flow;
pub mod laws;
pub mod manager;
pub mod model;
pub mod pacing;
