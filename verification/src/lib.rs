//! Port-probing and media-capture engine for detecting RTP relays that echo
//! media to unauthorized senders.
//!
//! The engine has three parts: the probe packet builder ([`packet`]), the
//! per-port probe session state machine ([`session`]), and the batch
//! scheduler that partitions a port range under a worker budget ([`sched`]).
//! A thin unverified shell owns the sockets, files and timers and drives the
//! state machine with the plain values it reads.

pub mod config;
pub mod packet;
pub mod sched;
pub mod session;
