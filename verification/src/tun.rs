//! Frames of a TUN device that carries packet information.
//!
//! Such a device puts four bytes before each packet: two of flags and two
//! that name the protocol of the packet, highest byte first.

pub mod error;

use self::error::TunError;
use vstd::prelude::*;

verus! {

/// The protocol number of IPv4 in the header of a frame.
pub const ETHERTYPE_IPV4: u16 = 0x0800;

/// The protocol number of TCP in the header of an IP packet.
pub const IP_PROTOCOL_TCP: u8 = 6;

/// The number of bytes that the device puts before each packet.
pub const FRAME_HEADER_LEN: usize = 4;

/// What a frame holds.
#[derive(Debug, Clone, Copy, PartialEq, Eq, Structural)]
pub enum FrameKind {
    /// Fewer bytes than the header of a frame.
    TooShort,
    /// An IPv4 packet, which starts behind the header.
    Ipv4,
    /// A packet of another protocol, which is passed over.
    Other { ethertype: u16 },
}

/// What a frame holds, by its header.
pub open spec fn spec_frame_kind(frame: Seq<u8>) -> FrameKind {
    if frame.len() < 4 {
        FrameKind::TooShort
    } else if frame[2] == 0x08 && frame[3] == 0x00 {
        FrameKind::Ipv4
    } else {
        FrameKind::Other { ethertype: (frame[2] * 0x100 + frame[3]) as u16 }
    }
}

/// What a frame holds, by its header.
pub fn frame_kind(frame: &[u8]) -> (kind: FrameKind)
    ensures
        kind == spec_frame_kind(frame@),
{
    if frame.len() < FRAME_HEADER_LEN {
        return FrameKind::TooShort;
    }
    let ethertype: u16 = (frame[2] as u16) * 0x100 + (frame[3] as u16);
    if ethertype == ETHERTYPE_IPV4 {
        FrameKind::Ipv4
    } else {
        FrameKind::Other { ethertype }
    }
}

/// Whether an IP packet of the given protocol is taken up: TCP is, and
/// nothing else.
pub fn check_protocol(protocol: u8) -> (res: Result<(), TunError>)
    ensures
        protocol == IP_PROTOCOL_TCP ==> res is Ok,
        protocol != IP_PROTOCOL_TCP ==> res == Err::<(), TunError>(
            TunError::UnsupportedPacketType,
        ),
{
    if protocol == IP_PROTOCOL_TCP {
        Ok(())
    } else {
        Err(TunError::UnsupportedPacketType)
    }
}

/// Whether the device goes on after a packet failed with `err`: it does
/// after a packet of a kind that is not supported, which is dropped, and
/// stops on every other error.
pub fn goes_on_after(err: &TunError) -> (goes_on: bool)
    ensures
        goes_on == (*err is UnsupportedPacketType),
{
    match err {
        TunError::UnsupportedPacketType => true,
        _ => false,
    }
}

} // verus!
