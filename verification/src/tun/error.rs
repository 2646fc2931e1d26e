//! Errors of the TUN device.

use vstd::prelude::*;
use vstd::string::StringExecFns;

verus! {

/// Errors the tun device implementation can return.
#[derive(Debug)]
pub enum TunError {
    /// The tun device was closed early.
    TunEarlyExit,
    /// The tun device had an invalid packet.
    InvalidPacket,
    /// The type of packet was not supported: only TCP and UDP packets are
    /// handled. The device goes on after this one.
    UnsupportedPacketType,
    /// Other error, as text.
    Other(String),
}

impl TunError {
    /// The description of the error.
    pub open spec fn spec_message(self) -> Seq<char> {
        match self {
            TunError::TunEarlyExit => "Tun device closed early"@,
            TunError::InvalidPacket => "Invalid packet"@,
            TunError::UnsupportedPacketType => "Unsupported packet type"@,
            TunError::Other(text) => "Other error: "@ + text@,
        }
    }

    /// An error of the operating system or of the packet parser, by the
    /// text that describes it.
    pub fn other(message: String) -> (err: Self)
        ensures
            err == TunError::Other(message),
    {
        TunError::Other(message)
    }

    /// The description of the error as the user sees it.
    pub fn message(&self) -> (text: String)
        ensures
            text@ == self.spec_message(),
    {
        match self {
            TunError::TunEarlyExit => "Tun device closed early".to_owned(),
            TunError::InvalidPacket => "Invalid packet".to_owned(),
            TunError::UnsupportedPacketType => "Unsupported packet type".to_owned(),
            TunError::Other(text) => "Other error: ".to_owned().concat(text.as_str()),
        }
    }
}

} // verus!
