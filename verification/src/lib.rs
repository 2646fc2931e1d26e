//! Whisper: a Wisp session exposed as a virtual IP network interface.
//!
//! The library holds the rules of the bridge: the Wisp wire codec, the
//! choice of transport, the UDP flow table with idle eviction, and the
//! lifecycle of an embedded instance. Sockets, devices and tasks live with
//! the caller, which feeds events in and carries actions out.

pub mod addr;
pub mod bridge;
pub mod info;
pub mod lifecycle;
pub mod pty;
pub mod timeout;
pub mod tun;
pub mod udp_nat;
pub mod util;
pub mod wisp;

use vstd::prelude::*;

verus! {

/// What the owner of a bridge can tell it.
#[derive(Debug, Clone, Copy, PartialEq, Eq, Structural)]
pub enum WhisperEvent {
    /// The bridge is to end.
    EndFut,
}

} // verus!
