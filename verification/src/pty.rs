//! The serial link.
//!
//! Over a serial device the session sends each frame as its length, in four
//! little-endian bytes, and then its bytes. There is no limit on the length
//! but the one that four bytes set.

pub mod error;

use crate::wisp::error::WispError;
use crate::wisp::packet::{u32_from_le_bytes, u32_le_bytes};
use bytes::Bytes;
use vstd::prelude::*;

verus! {

/// The number of bytes that hold the length of a frame.
pub const LENGTH_FIELD_LEN: usize = 4;

/// The longest payload that a frame can hold.
pub const MAX_FRAME_LEN: usize = 0xffff_ffff;

/// The kinds of frame that the session hands to a link.
#[derive(Debug, Clone, Copy, PartialEq, Eq, Structural)]
pub enum OpCode {
    Text,
    Binary,
    Close,
    Ping,
    Pong,
}

/// What the write side of the link does with a frame.
#[derive(Debug)]
pub enum WriteStep {
    /// Write these bytes to the device.
    Send { bytes: Vec<u8> },
    /// Close the device.
    Close,
}

/// A `WriteStep` as a mathematical value.
pub enum WriteStepView {
    Send { bytes: Seq<u8> },
    Close,
}

impl View for WriteStep {
    type V = WriteStepView;

    open spec fn view(&self) -> WriteStepView {
        match self {
            WriteStep::Send { bytes } => WriteStepView::Send { bytes: bytes@ },
            WriteStep::Close => WriteStepView::Close,
        }
    }
}

/// What the front of a buffer of received bytes holds.
#[derive(Debug)]
pub enum Decoded {
    /// Not yet a whole frame: read more.
    Incomplete,
    /// A frame with this payload, which takes up the first `consumed` bytes
    /// of the buffer.
    Frame { payload: Vec<u8>, consumed: usize },
}

/// A `Decoded` as a mathematical value.
pub enum DecodedView {
    Incomplete,
    Frame { payload: Seq<u8>, consumed: nat },
}

impl View for Decoded {
    type V = DecodedView;

    open spec fn view(&self) -> DecodedView {
        match self {
            Decoded::Incomplete => DecodedView::Incomplete,
            Decoded::Frame { payload, consumed } => DecodedView::Frame {
                payload: payload@,
                consumed: *consumed as nat,
            },
        }
    }
}

/// The bytes of the frame that carries `payload`.
pub open spec fn spec_encode_frame(payload: Seq<u8>) -> Seq<u8>
    recommends
        payload.len() <= MAX_FRAME_LEN,
{
    u32_le_bytes(payload.len() as u32) + payload
}

/// What the front of `buffer` holds: a frame, once its four bytes of length
/// and as many bytes of payload as they say have arrived.
pub open spec fn spec_decode_frame(buffer: Seq<u8>) -> DecodedView {
    if buffer.len() < 4 {
        DecodedView::Incomplete
    } else if buffer.len() - 4 < u32_from_le_bytes(buffer) {
        DecodedView::Incomplete
    } else {
        DecodedView::Frame {
            payload: buffer.subrange(4, 4 + u32_from_le_bytes(buffer)),
            consumed: (4 + u32_from_le_bytes(buffer)) as nat,
        }
    }
}

/// The four little-endian bytes of `n`, behind what `out` holds.
fn push_u32_le(out: &mut Vec<u8>, n: u32)
    ensures
        final(out)@ == old(out)@ + u32_le_bytes(n),
{
    out.push((n % 0x100) as u8);
    out.push(((n / 0x100) % 0x100) as u8);
    out.push(((n / 0x1_0000) % 0x100) as u8);
    out.push((n / 0x100_0000) as u8);
    assert(out@ =~= old(out)@ + u32_le_bytes(n));
}

/// The frame that carries `payload`. A payload whose length does not fit in
/// four bytes is turned down as too big a frame.
pub fn encode_frame(payload: &[u8]) -> (res: Result<Vec<u8>, WispError>)
    ensures
        payload@.len() <= MAX_FRAME_LEN ==> (res matches Ok(bytes) && bytes@ == spec_encode_frame(
            payload@,
        )),
        payload@.len() > MAX_FRAME_LEN ==> (res matches Err(WispError::WsImplError(text))
            && text@ == "frame size too big"@),
{
    if payload.len() > MAX_FRAME_LEN {
        return Err(WispError::WsImplError("frame size too big".to_owned()));
    }
    let mut bytes: Vec<u8> = Vec::new();
    push_u32_le(&mut bytes, payload.len() as u32);
    bytes.extend_from_slice(payload);
    assert(bytes@ =~= spec_encode_frame(payload@));
    Ok(bytes)
}

/// Looks for a frame at the front of `buffer`.
pub fn decode_frame(buffer: &[u8]) -> (decoded: Decoded)
    ensures
        decoded@ == spec_decode_frame(buffer@),
{
    if buffer.len() < LENGTH_FIELD_LEN {
        return Decoded::Incomplete;
    }
    let len: u32 = (buffer[0] as u32) + (buffer[1] as u32) * 0x100 + (buffer[2] as u32) * 0x1_0000
        + (buffer[3] as u32) * 0x100_0000;
    if buffer.len() - LENGTH_FIELD_LEN < len as usize {
        return Decoded::Incomplete;
    }
    let end = LENGTH_FIELD_LEN + len as usize;
    let payload = vstd::slice::slice_to_vec(
        vstd::slice::slice_subrange(buffer, LENGTH_FIELD_LEN, end),
    );
    Decoded::Frame { payload, consumed: end }
}

/// What the write side does with a frame of kind `opcode` that carries
/// `payload`: text and binary frames are sent, framed by their length; a
/// close frame closes the device; no other kind is supported.
pub fn write_frame(opcode: OpCode, payload: &[u8]) -> (res: Result<WriteStep, WispError>)
    ensures
        match opcode {
            OpCode::Text | OpCode::Binary => if payload@.len() <= MAX_FRAME_LEN {
                res matches Ok(step) && step@ == (WriteStepView::Send {
                    bytes: spec_encode_frame(payload@),
                })
            } else {
                res matches Err(WispError::WsImplError(_))
            },
            OpCode::Close => res matches Ok(step) && step@ == WriteStepView::Close,
            _ => res matches Err(WispError::WsImplNotSupported),
        },
{
    match opcode {
        OpCode::Text | OpCode::Binary => match encode_frame(payload) {
            Ok(bytes) => Ok(WriteStep::Send { bytes }),
            Err(e) => Err(e),
        },
        OpCode::Close => Ok(WriteStep::Close),
        _ => Err(WispError::WsImplNotSupported),
    }
}

/// What the read side hands to the session: the next payload of the
/// device, as a binary frame. A device that has ended is a closed socket,
/// and an error of the device is passed on by its text.
pub fn read_frame(next: Option<Result<Bytes, String>>) -> (res: Result<(OpCode, Bytes), WispError>)
    ensures
        res == match next {
            Some(Ok(payload)) => Ok::<(OpCode, Bytes), WispError>((OpCode::Binary, payload)),
            Some(Err(text)) => Err::<(OpCode, Bytes), WispError>(WispError::WsImplError(text)),
            None => Err::<(OpCode, Bytes), WispError>(WispError::WsImplSocketClosed),
        },
{
    match next {
        Some(Ok(payload)) => Ok((OpCode::Binary, payload)),
        Some(Err(text)) => Err(WispError::WsImplError(text)),
        None => Err(WispError::WsImplSocketClosed),
    }
}

/// A frame comes back from its own bytes, whatever follows them in the
/// buffer, and what follows starts right behind it.
pub proof fn lemma_frame_round_trip(payload: Seq<u8>, rest: Seq<u8>)
    requires
        payload.len() <= MAX_FRAME_LEN,
    ensures
        spec_decode_frame(spec_encode_frame(payload) + rest) == (DecodedView::Frame {
            payload,
            consumed: spec_encode_frame(payload).len(),
        }),
        (spec_encode_frame(payload) + rest).skip(spec_encode_frame(payload).len() as int) == rest,
{
    let frame = spec_encode_frame(payload);
    let buffer = frame + rest;
    crate::wisp::packet::lemma_u32_le_round_trip(payload.len() as u32, payload + rest);
    assert(buffer =~= u32_le_bytes(payload.len() as u32) + (payload + rest));
    assert(buffer.subrange(4, 4 + payload.len() as int) =~= payload);
    assert(buffer.skip(frame.len() as int) =~= rest);
}

/// A buffer that holds less than a whole frame is incomplete, and nothing
/// of it is consumed.
pub proof fn lemma_partial_frame_is_incomplete(payload: Seq<u8>, cut: int)
    requires
        payload.len() <= MAX_FRAME_LEN,
        0 <= cut < spec_encode_frame(payload).len(),
    ensures
        spec_decode_frame(spec_encode_frame(payload).subrange(0, cut)) == DecodedView::Incomplete,
{
    let frame = spec_encode_frame(payload);
    let part = frame.subrange(0, cut);
    if cut >= 4 {
        crate::wisp::packet::lemma_u32_le_round_trip(payload.len() as u32, payload);
        assert(u32_from_le_bytes(part) == u32_from_le_bytes(frame));
    }
}

} // verus!
