//! Wisp packets and their encoding.
//!
//! A packet on the wire is one tag byte, the stream id as four little-endian
//! bytes, and a body whose layout the tag decides. `spec_encode` and
//! `spec_decode` are the format; `Packet::encode` and `Packet::decode` compute
//! them on buffers of the `bytes` crate.

use super::error::WispError;
use bytes::{Buf, BufMut, Bytes};
use vstd::prelude::*;
use vstd::std_specs::convert::TryFromSpecImpl;
use vstd::string::StringSliceAdditionalSpecFns;
use vstd::utf8::{decode_utf8, encode_utf8, valid_utf8};

verus! {

/// Wisp stream type.
#[derive(Debug, PartialEq, Eq, Copy, Clone, Structural)]
pub enum StreamType {
    Tcp,
    Udp,
}

impl StreamType {
    /// The tag that stands for the stream type on the wire.
    pub open spec fn spec_as_u8(self) -> u8 {
        match self {
            StreamType::Tcp => 0x01,
            StreamType::Udp => 0x02,
        }
    }

    /// The stream type that a tag stands for, if any.
    pub open spec fn spec_from_u8(tag: u8) -> Option<StreamType> {
        if tag == 0x01 {
            Some(StreamType::Tcp)
        } else if tag == 0x02 {
            Some(StreamType::Udp)
        } else {
            None
        }
    }

    /// The tag that stands for the value on the wire.
    #[verifier::when_used_as_spec(spec_as_u8)]
    pub fn as_u8(self) -> (tag: u8)
        ensures
            tag == self.spec_as_u8(),
    {
        match self {
            StreamType::Tcp => 0x01,
            StreamType::Udp => 0x02,
        }
    }
}

impl TryFrom<u8> for StreamType {
    type Error = WispError;

    fn try_from(stream_type: u8) -> (res: Result<Self, Self::Error>) {
        match stream_type {
            0x01 => Ok(StreamType::Tcp),
            0x02 => Ok(StreamType::Udp),
            _ => Err(WispError::InvalidStreamType),
        }
    }
}

impl TryFromSpecImpl<u8> for StreamType {
    open spec fn obeys_try_from_spec() -> bool {
        true
    }

    open spec fn try_from_spec(stream_type: u8) -> Result<Self, Self::Error> {
        match StreamType::spec_from_u8(stream_type) {
            Some(t) => Ok(t),
            None => Err(WispError::InvalidStreamType),
        }
    }
}

/// Why a stream was closed.
#[derive(Debug, PartialEq, Eq, Copy, Clone, Structural)]
pub enum CloseReason {
    Unknown,
    Voluntary,
    Unexpected,
    ServerStreamInvalidInfo,
    ServerStreamUnreachable,
    ServerStreamConnectionTimedOut,
    ServerStreamConnectionRefused,
    ServerStreamTimedOut,
    ServerStreamBlockedAddress,
    ServerStreamThrottled,
    ClientUnexpected,
}

impl CloseReason {
    /// The tag that stands for the reason on the wire.
    pub open spec fn spec_as_u8(self) -> u8 {
        match self {
            CloseReason::Unknown => 0x01,
            CloseReason::Voluntary => 0x02,
            CloseReason::Unexpected => 0x03,
            CloseReason::ServerStreamInvalidInfo => 0x41,
            CloseReason::ServerStreamUnreachable => 0x42,
            CloseReason::ServerStreamConnectionTimedOut => 0x43,
            CloseReason::ServerStreamConnectionRefused => 0x44,
            CloseReason::ServerStreamTimedOut => 0x47,
            CloseReason::ServerStreamBlockedAddress => 0x48,
            CloseReason::ServerStreamThrottled => 0x49,
            CloseReason::ClientUnexpected => 0x81,
        }
    }

    /// The reason that a tag stands for, if any.
    pub open spec fn spec_from_u8(tag: u8) -> Option<CloseReason> {
        if tag == 0x01 {
            Some(CloseReason::Unknown)
        } else if tag == 0x02 {
            Some(CloseReason::Voluntary)
        } else if tag == 0x03 {
            Some(CloseReason::Unexpected)
        } else if tag == 0x41 {
            Some(CloseReason::ServerStreamInvalidInfo)
        } else if tag == 0x42 {
            Some(CloseReason::ServerStreamUnreachable)
        } else if tag == 0x43 {
            Some(CloseReason::ServerStreamConnectionTimedOut)
        } else if tag == 0x44 {
            Some(CloseReason::ServerStreamConnectionRefused)
        } else if tag == 0x47 {
            Some(CloseReason::ServerStreamTimedOut)
        } else if tag == 0x48 {
            Some(CloseReason::ServerStreamBlockedAddress)
        } else if tag == 0x49 {
            Some(CloseReason::ServerStreamThrottled)
        } else if tag == 0x81 {
            Some(CloseReason::ClientUnexpected)
        } else {
            None
        }
    }

    /// The tag that stands for the value on the wire.
    #[verifier::when_used_as_spec(spec_as_u8)]
    pub fn as_u8(self) -> (tag: u8)
        ensures
            tag == self.spec_as_u8(),
    {
        match self {
            CloseReason::Unknown => 0x01,
            CloseReason::Voluntary => 0x02,
            CloseReason::Unexpected => 0x03,
            CloseReason::ServerStreamInvalidInfo => 0x41,
            CloseReason::ServerStreamUnreachable => 0x42,
            CloseReason::ServerStreamConnectionTimedOut => 0x43,
            CloseReason::ServerStreamConnectionRefused => 0x44,
            CloseReason::ServerStreamTimedOut => 0x47,
            CloseReason::ServerStreamBlockedAddress => 0x48,
            CloseReason::ServerStreamThrottled => 0x49,
            CloseReason::ClientUnexpected => 0x81,
        }
    }
}

impl TryFrom<u8> for CloseReason {
    type Error = WispError;

    fn try_from(reason: u8) -> (res: Result<Self, Self::Error>) {
        match reason {
            0x01 => Ok(CloseReason::Unknown),
            0x02 => Ok(CloseReason::Voluntary),
            0x03 => Ok(CloseReason::Unexpected),
            0x41 => Ok(CloseReason::ServerStreamInvalidInfo),
            0x42 => Ok(CloseReason::ServerStreamUnreachable),
            0x43 => Ok(CloseReason::ServerStreamConnectionTimedOut),
            0x44 => Ok(CloseReason::ServerStreamConnectionRefused),
            0x47 => Ok(CloseReason::ServerStreamTimedOut),
            0x48 => Ok(CloseReason::ServerStreamBlockedAddress),
            0x49 => Ok(CloseReason::ServerStreamThrottled),
            0x81 => Ok(CloseReason::ClientUnexpected),
            _ => Err(WispError::InvalidCloseReason),
        }
    }
}

impl TryFromSpecImpl<u8> for CloseReason {
    open spec fn obeys_try_from_spec() -> bool {
        true
    }

    open spec fn try_from_spec(reason: u8) -> Result<Self, Self::Error> {
        match CloseReason::spec_from_u8(reason) {
            Some(r) => Ok(r),
            None => Err(WispError::InvalidCloseReason),
        }
    }
}

/// A cheaply cloneable buffer of bytes, from the `bytes` crate.
#[verifier::external_type_specification]
#[verifier::external_body]
pub struct ExBytes(bytes::Bytes);

/// The bytes that a buffer still holds, the next one to be read first.
pub uninterp spec fn bytes_contents(buf: Bytes) -> Seq<u8>;

/// `Clone` of `Bytes`: a second handle on the same bytes.
pub assume_specification[ <Bytes as Clone>::clone ](buf: &Bytes) -> (copy: Bytes)
    ensures
        bytes_contents(copy) == bytes_contents(*buf),
;

/// The two bytes of `x`, least significant first.
pub open spec fn u16_le_bytes(x: u16) -> Seq<u8> {
    seq![(x % 0x100) as u8, (x / 0x100) as u8]
}

/// The four bytes of `x`, least significant first.
pub open spec fn u32_le_bytes(x: u32) -> Seq<u8> {
    seq![
        (x % 0x100) as u8,
        ((x / 0x100) % 0x100) as u8,
        ((x / 0x1_0000) % 0x100) as u8,
        (x / 0x100_0000) as u8,
    ]
}

/// The number whose little-endian bytes are the first two of `s`.
pub open spec fn u16_from_le_bytes(s: Seq<u8>) -> u16
    recommends
        s.len() >= 2,
{
    (s[0] + s[1] * 0x100) as u16
}

/// The number whose little-endian bytes are the first four of `s`.
pub open spec fn u32_from_le_bytes(s: Seq<u8>) -> u32
    recommends
        s.len() >= 4,
{
    (s[0] + s[1] * 0x100 + s[2] * 0x1_0000 + s[3] * 0x100_0000) as u32
}

/// `Buf::remaining` of `Bytes`: the number of bytes left to read.
#[verifier::external_body]
fn bytes_remaining(buf: &Bytes) -> (n: usize)
    ensures
        n == bytes_contents(*buf).len(),
{
    buf.remaining()
}

/// `Buf::get_u8` of `Bytes`: hands out the next byte and moves past it. The
/// crate panics on an empty buffer, which the precondition leaves out.
#[verifier::external_body]
fn bytes_get_u8(buf: &mut Bytes) -> (n: u8)
    requires
        bytes_contents(*old(buf)).len() >= 1,
    ensures
        n == bytes_contents(*old(buf))[0],
        bytes_contents(*final(buf)) == bytes_contents(*old(buf)).skip(1),
{
    buf.get_u8()
}

/// `Buf::get_u16_le` of `Bytes`: reads the next two bytes as a little-endian
/// number and moves past them. The crate panics when fewer than two are left.
#[verifier::external_body]
fn bytes_get_u16_le(buf: &mut Bytes) -> (n: u16)
    requires
        bytes_contents(*old(buf)).len() >= 2,
    ensures
        n == u16_from_le_bytes(bytes_contents(*old(buf))),
        bytes_contents(*final(buf)) == bytes_contents(*old(buf)).skip(2),
{
    buf.get_u16_le()
}

/// `Buf::get_u32_le` of `Bytes`: reads the next four bytes as a little-endian
/// number and moves past them. The crate panics when fewer than four are left.
#[verifier::external_body]
fn bytes_get_u32_le(buf: &mut Bytes) -> (n: u32)
    requires
        bytes_contents(*old(buf)).len() >= 4,
    ensures
        n == u32_from_le_bytes(bytes_contents(*old(buf))),
        bytes_contents(*final(buf)) == bytes_contents(*old(buf)).skip(4),
{
    buf.get_u32_le()
}

/// `AsRef<[u8]>` of `Bytes`: the bytes left to read, as a slice.
#[verifier::external_body]
fn bytes_as_slice(buf: &Bytes) -> (s: &[u8])
    ensures
        s@ == bytes_contents(*buf),
{
    buf.as_ref()
}

/// `BufMut::put_u8` of `Vec<u8>`: appends one byte. The crate panics when the
/// vector cannot grow by that much, which the precondition leaves out.
#[verifier::external_body]
fn vec_put_u8(out: &mut Vec<u8>, n: u8)
    requires
        old(out)@.len() + 1 <= isize::MAX,
    ensures
        final(out)@ == old(out)@.push(n),
{
    out.put_u8(n)
}

/// `BufMut::put_u16_le` of `Vec<u8>`: appends the two little-endian bytes of
/// `n`. The crate panics when the vector cannot grow by that much.
#[verifier::external_body]
fn vec_put_u16_le(out: &mut Vec<u8>, n: u16)
    requires
        old(out)@.len() + 2 <= isize::MAX,
    ensures
        final(out)@ == old(out)@ + u16_le_bytes(n),
{
    out.put_u16_le(n)
}

/// `BufMut::put_u32_le` of `Vec<u8>`: appends the four little-endian bytes of
/// `n`. The crate panics when the vector cannot grow by that much.
#[verifier::external_body]
fn vec_put_u32_le(out: &mut Vec<u8>, n: u32)
    requires
        old(out)@.len() + 4 <= isize::MAX,
    ensures
        final(out)@ == old(out)@ + u32_le_bytes(n),
{
    out.put_u32_le(n)
}

/// `std::str::from_utf8`: succeeds on exactly the well-formed UTF-8 byte
/// strings, and the text it returns is made of the bytes it was given.
#[verifier::external_body]
fn str_from_utf8(bytes: &[u8]) -> (res: Result<&str, std::str::Utf8Error>)
    ensures
        res is Ok <==> valid_utf8(bytes@),
        res matches Ok(text) ==> text.spec_bytes() == bytes@,
{
    std::str::from_utf8(bytes)
}

/// Reading two little-endian bytes gives back the number they were written
/// from, whatever follows them.
pub proof fn lemma_u16_le_round_trip(x: u16, rest: Seq<u8>)
    ensures
        u16_le_bytes(x).len() == 2,
        u16_from_le_bytes(u16_le_bytes(x) + rest) == x,
{
}

/// Reading four little-endian bytes gives back the number they were written
/// from, whatever follows them.
pub proof fn lemma_u32_le_round_trip(x: u32, rest: Seq<u8>)
    ensures
        u32_le_bytes(x).len() == 4,
        u32_from_le_bytes(u32_le_bytes(x) + rest) == x,
{
}

/// The ways in which a byte string fails to be a packet.
pub enum DecodeFailure {
    PacketTooSmall,
    InvalidPacketType,
    InvalidStreamType,
    InvalidCloseReason,
    InvalidUtf8,
}

/// The decoding failure that an error reports, if it reports one.
pub open spec fn failure_of(err: WispError) -> Option<DecodeFailure> {
    match err {
        WispError::PacketTooSmall => Some(DecodeFailure::PacketTooSmall),
        WispError::InvalidPacketType => Some(DecodeFailure::InvalidPacketType),
        WispError::InvalidStreamType => Some(DecodeFailure::InvalidStreamType),
        WispError::InvalidCloseReason => Some(DecodeFailure::InvalidCloseReason),
        WispError::Utf8Error(_) => Some(DecodeFailure::InvalidUtf8),
        _ => None,
    }
}

/// The body of a packet that asks for a new stream.
#[derive(Debug, Clone)]
pub struct ConnectPacket {
    pub stream_type: StreamType,
    pub destination_port: u16,
    pub destination_hostname: String,
}

/// A `ConnectPacket` as a mathematical value.
pub struct ConnectPacketView {
    pub stream_type: StreamType,
    pub destination_port: u16,
    pub destination_hostname: Seq<char>,
}

impl View for ConnectPacket {
    type V = ConnectPacketView;

    open spec fn view(&self) -> ConnectPacketView {
        ConnectPacketView {
            stream_type: self.stream_type,
            destination_port: self.destination_port,
            destination_hostname: self.destination_hostname@,
        }
    }
}

impl ConnectPacketView {
    /// One byte of stream type, the port as two little-endian bytes, then
    /// the hostname in UTF-8 up to the end of the packet.
    pub open spec fn spec_encode(self) -> Seq<u8> {
        seq![self.stream_type.spec_as_u8()] + u16_le_bytes(self.destination_port) + encode_utf8(
            self.destination_hostname,
        )
    }

    /// The body that `bytes` encodes, or the first check that fails: length,
    /// stream type, hostname.
    pub open spec fn spec_decode(bytes: Seq<u8>) -> Result<ConnectPacketView, DecodeFailure> {
        if bytes.len() < 3 {
            Err(DecodeFailure::PacketTooSmall)
        } else if StreamType::spec_from_u8(bytes[0]) is None {
            Err(DecodeFailure::InvalidStreamType)
        } else if !valid_utf8(bytes.skip(3)) {
            Err(DecodeFailure::InvalidUtf8)
        } else {
            Ok(
                ConnectPacketView {
                    stream_type: StreamType::spec_from_u8(bytes[0])->Some_0,
                    destination_port: u16_from_le_bytes(bytes.skip(1)),
                    destination_hostname: decode_utf8(bytes.skip(3)),
                },
            )
        }
    }
}

impl ConnectPacket {
    /// A connect body made of its parts.
    pub fn new(stream_type: StreamType, destination_port: u16, destination_hostname: String) -> (p:
        Self)
        ensures
            p.stream_type == stream_type,
            p.destination_port == destination_port,
            p.destination_hostname == destination_hostname,
    {
        Self { stream_type, destination_port, destination_hostname }
    }

    /// Reads a connect body from all the bytes that `bytes` holds.
    pub fn decode(bytes: Bytes) -> (res: Result<Self, WispError>)
        ensures
            match ConnectPacketView::spec_decode(bytes_contents(bytes)) {
                Ok(v) => res matches Ok(p) && p@ == v,
                Err(f) => res matches Err(e) && failure_of(e) == Some(f),
            },
    {
        let mut buf = bytes;
        if bytes_remaining(&buf) < 1 + 2 {
            return Err(WispError::PacketTooSmall);
        }
        let stream_type = match StreamType::try_from(bytes_get_u8(&mut buf)) {
            Ok(t) => t,
            Err(e) => {
                return Err(e);
            },
        };
        let destination_port = bytes_get_u16_le(&mut buf);
        assert(bytes_contents(buf) == bytes_contents(bytes).skip(3));
        match str_from_utf8(bytes_as_slice(&buf)) {
            Ok(text) => {
                proof {
                    vstd::utf8::encode_utf8_decode_utf8(text@);
                }
                Ok(Self { stream_type, destination_port, destination_hostname: text.to_owned() })
            },
            Err(e) => Err(WispError::Utf8Error(e)),
        }
    }

    /// The bytes of the body.
    pub fn encode(&self) -> (out: Vec<u8>)
        ensures
            out@ == self@.spec_encode(),
    {
        let mut encoded = Vec::with_capacity(1 + 2);
        vec_put_u8(&mut encoded, self.stream_type.as_u8());
        vec_put_u16_le(&mut encoded, self.destination_port);
        append_bytes(&mut encoded, self.destination_hostname.as_str().as_bytes());
        encoded
    }
}

/// Appends `tail` to `out`.
fn append_bytes(out: &mut Vec<u8>, tail: &[u8])
    ensures
        final(out)@ == old(out)@ + tail@,
{
    out.extend_from_slice(tail);
    assert(out@ =~= old(out)@ + tail@);
}

/// The body of a packet that grants the peer more buffer.
#[derive(Debug, Copy, Clone)]
pub struct ContinuePacket {
    pub buffer_remaining: u32,
}

impl ContinuePacket {
    /// The count as four little-endian bytes.
    pub open spec fn spec_encode(self) -> Seq<u8> {
        u32_le_bytes(self.buffer_remaining)
    }

    /// The body that `bytes` starts with, if they are at least four.
    pub open spec fn spec_decode(bytes: Seq<u8>) -> Result<ContinuePacket, DecodeFailure> {
        if bytes.len() < 4 {
            Err(DecodeFailure::PacketTooSmall)
        } else {
            Ok(ContinuePacket { buffer_remaining: u32_from_le_bytes(bytes) })
        }
    }

    /// A continue body that grants `buffer_remaining`.
    pub fn new(buffer_remaining: u32) -> (p: Self)
        ensures
            p.buffer_remaining == buffer_remaining,
    {
        Self { buffer_remaining }
    }

    /// Reads a continue body from the front of `bytes`.
    pub fn decode(bytes: Bytes) -> (res: Result<Self, WispError>)
        ensures
            match ContinuePacket::spec_decode(bytes_contents(bytes)) {
                Ok(v) => res == Ok::<ContinuePacket, WispError>(v),
                Err(f) => res matches Err(e) && failure_of(e) == Some(f),
            },
    {
        let mut buf = bytes;
        if bytes_remaining(&buf) < 4 {
            return Err(WispError::PacketTooSmall);
        }
        Ok(Self { buffer_remaining: bytes_get_u32_le(&mut buf) })
    }

    /// The bytes of the body.
    pub fn encode(&self) -> (out: Vec<u8>)
        ensures
            out@ == self.spec_encode(),
    {
        let mut encoded = Vec::with_capacity(4);
        vec_put_u32_le(&mut encoded, self.buffer_remaining);
        encoded
    }
}

/// The body of a packet that closes a stream.
#[derive(Debug, Copy, Clone)]
pub struct ClosePacket {
    pub reason: CloseReason,
}

impl ClosePacket {
    /// The one byte that stands for the reason.
    pub open spec fn spec_encode(self) -> Seq<u8> {
        seq![self.reason.spec_as_u8()]
    }

    /// The body that `bytes` starts with: there must be a byte, and it must
    /// stand for a reason.
    pub open spec fn spec_decode(bytes: Seq<u8>) -> Result<ClosePacket, DecodeFailure> {
        if bytes.len() < 1 {
            Err(DecodeFailure::PacketTooSmall)
        } else {
            match CloseReason::spec_from_u8(bytes[0]) {
                Some(reason) => Ok(ClosePacket { reason }),
                None => Err(DecodeFailure::InvalidCloseReason),
            }
        }
    }

    /// A close body that gives `reason`.
    pub fn new(reason: CloseReason) -> (p: Self)
        ensures
            p.reason == reason,
    {
        Self { reason }
    }

    /// Reads a close body from the front of `bytes`.
    pub fn decode(bytes: Bytes) -> (res: Result<Self, WispError>)
        ensures
            match ClosePacket::spec_decode(bytes_contents(bytes)) {
                Ok(v) => res == Ok::<ClosePacket, WispError>(v),
                Err(f) => res matches Err(e) && failure_of(e) == Some(f),
            },
    {
        let mut buf = bytes;
        if bytes_remaining(&buf) < 1 {
            return Err(WispError::PacketTooSmall);
        }
        match CloseReason::try_from(bytes_get_u8(&mut buf)) {
            Ok(reason) => Ok(Self { reason }),
            Err(e) => Err(e),
        }
    }

    /// The bytes of the body.
    pub fn encode(&self) -> (out: Vec<u8>)
        ensures
            out@ == self.spec_encode(),
    {
        let mut encoded = Vec::with_capacity(1);
        vec_put_u8(&mut encoded, self.reason.as_u8());
        encoded
    }
}

/// What a packet carries.
#[derive(Debug, Clone)]
pub enum PacketType {
    Connect(ConnectPacket),
    Data(Bytes),
    Continue(ContinuePacket),
    Close(ClosePacket),
}

/// A `PacketType` as a mathematical value.
pub enum PacketTypeView {
    Connect(ConnectPacketView),
    Data(Seq<u8>),
    Continue(ContinuePacket),
    Close(ClosePacket),
}

impl View for PacketType {
    type V = PacketTypeView;

    open spec fn view(&self) -> PacketTypeView {
        match self {
            PacketType::Connect(p) => PacketTypeView::Connect(p@),
            PacketType::Data(payload) => PacketTypeView::Data(bytes_contents(*payload)),
            PacketType::Continue(p) => PacketTypeView::Continue(*p),
            PacketType::Close(p) => PacketTypeView::Close(*p),
        }
    }
}

impl PacketTypeView {
    /// The tag that stands for the kind of packet on the wire.
    pub open spec fn spec_as_u8(self) -> u8 {
        match self {
            PacketTypeView::Connect(_) => 0x01,
            PacketTypeView::Data(_) => 0x02,
            PacketTypeView::Continue(_) => 0x03,
            PacketTypeView::Close(_) => 0x04,
        }
    }

    /// The bytes of the body, without tag and stream id. A data packet's
    /// body is its payload as it stands.
    pub open spec fn spec_encode(self) -> Seq<u8> {
        match self {
            PacketTypeView::Connect(p) => p.spec_encode(),
            PacketTypeView::Data(payload) => payload,
            PacketTypeView::Continue(p) => p.spec_encode(),
            PacketTypeView::Close(p) => p.spec_encode(),
        }
    }

    /// The body that `bytes` encodes under the given tag.
    pub open spec fn spec_decode(tag: u8, bytes: Seq<u8>) -> Result<PacketTypeView, DecodeFailure> {
        if tag == 0x01 {
            match ConnectPacketView::spec_decode(bytes) {
                Ok(p) => Ok(PacketTypeView::Connect(p)),
                Err(f) => Err(f),
            }
        } else if tag == 0x02 {
            Ok(PacketTypeView::Data(bytes))
        } else if tag == 0x03 {
            match ContinuePacket::spec_decode(bytes) {
                Ok(p) => Ok(PacketTypeView::Continue(p)),
                Err(f) => Err(f),
            }
        } else if tag == 0x04 {
            match ClosePacket::spec_decode(bytes) {
                Ok(p) => Ok(PacketTypeView::Close(p)),
                Err(f) => Err(f),
            }
        } else {
            Err(DecodeFailure::InvalidPacketType)
        }
    }
}

impl PacketType {
    /// The tag that stands for the kind of packet on the wire.
    pub fn as_u8(&self) -> (tag: u8)
        ensures
            tag == self@.spec_as_u8(),
    {
        match self {
            PacketType::Connect(_) => 0x01,
            PacketType::Data(_) => 0x02,
            PacketType::Continue(_) => 0x03,
            PacketType::Close(_) => 0x04,
        }
    }

    /// The bytes of the body, without tag and stream id.
    pub fn encode(&self) -> (out: Vec<u8>)
        ensures
            out@ == self@.spec_encode(),
    {
        match self {
            PacketType::Connect(p) => p.encode(),
            PacketType::Data(payload) => vstd::slice::slice_to_vec(bytes_as_slice(payload)),
            PacketType::Continue(p) => p.encode(),
            PacketType::Close(p) => p.encode(),
        }
    }
}

/// One Wisp packet: a body and the stream it belongs to.
#[derive(Debug, Clone)]
pub struct Packet {
    pub stream_id: u32,
    pub packet: PacketType,
}

/// A `Packet` as a mathematical value.
pub struct PacketView {
    pub stream_id: u32,
    pub packet: PacketTypeView,
}

impl View for Packet {
    type V = PacketView;

    open spec fn view(&self) -> PacketView {
        PacketView { stream_id: self.stream_id, packet: self.packet@ }
    }
}

impl PacketView {
    /// The packet on the wire: tag, stream id as four little-endian bytes,
    /// body.
    pub open spec fn spec_encode(self) -> Seq<u8> {
        seq![self.packet.spec_as_u8()] + u32_le_bytes(self.stream_id) + self.packet.spec_encode()
    }

    /// The packet that `bytes` encodes, or the first check that fails: the
    /// five bytes of the header, the tag, then the checks of the body.
    pub open spec fn spec_decode(bytes: Seq<u8>) -> Result<PacketView, DecodeFailure> {
        if bytes.len() < 5 {
            Err(DecodeFailure::PacketTooSmall)
        } else {
            match PacketTypeView::spec_decode(bytes[0], bytes.skip(5)) {
                Ok(packet) => Ok(
                    PacketView { stream_id: u32_from_le_bytes(bytes.skip(1)), packet },
                ),
                Err(f) => Err(f),
            }
        }
    }
}

impl Packet {
    /// The packet that carries `packet` on stream `stream_id`.
    pub fn new(stream_id: u32, packet: PacketType) -> (p: Self)
        ensures
            p.stream_id == stream_id,
            p.packet == packet,
    {
        Self { stream_id, packet }
    }

    /// A packet that asks for a stream of `stream_type` to
    /// `destination_hostname` and `destination_port`.
    pub fn new_connect(
        stream_id: u32,
        stream_type: StreamType,
        destination_port: u16,
        destination_hostname: String,
    ) -> (p: Self)
        ensures
            p.stream_id == stream_id,
            p.packet == PacketType::Connect(
                ConnectPacket { stream_type, destination_port, destination_hostname },
            ),
    {
        Self {
            stream_id,
            packet: PacketType::Connect(
                ConnectPacket::new(stream_type, destination_port, destination_hostname),
            ),
        }
    }

    /// A packet that carries `data` on stream `stream_id`.
    pub fn new_data(stream_id: u32, data: Bytes) -> (p: Self)
        ensures
            p.stream_id == stream_id,
            p.packet == PacketType::Data(data),
    {
        Self { stream_id, packet: PacketType::Data(data) }
    }

    /// A packet that grants `buffer_remaining` on stream `stream_id`.
    pub fn new_continue(stream_id: u32, buffer_remaining: u32) -> (p: Self)
        ensures
            p.stream_id == stream_id,
            p.packet == PacketType::Continue(ContinuePacket { buffer_remaining }),
    {
        Self { stream_id, packet: PacketType::Continue(ContinuePacket::new(buffer_remaining)) }
    }

    /// A packet that closes stream `stream_id` for `reason`.
    pub fn new_close(stream_id: u32, reason: CloseReason) -> (p: Self)
        ensures
            p.stream_id == stream_id,
            p.packet == PacketType::Close(ClosePacket { reason }),
    {
        Self { stream_id, packet: PacketType::Close(ClosePacket::new(reason)) }
    }

    /// Reads one packet from all the bytes that `bytes` holds. The result is
    /// what `spec_decode` says of them: the packet, or the error for the
    /// first check that fails.
    pub fn decode(bytes: Bytes) -> (res: Result<Self, WispError>)
        ensures
            match PacketView::spec_decode(bytes_contents(bytes)) {
                Ok(v) => res matches Ok(p) && p@ == v,
                Err(f) => res matches Err(e) && failure_of(e) == Some(f),
            },
    {
        let mut buf = bytes;
        if bytes_remaining(&buf) < 5 {
            return Err(WispError::PacketTooSmall);
        }
        let packet_type = bytes_get_u8(&mut buf);
        let stream_id = bytes_get_u32_le(&mut buf);
        assert(bytes_contents(buf) == bytes_contents(bytes).skip(5));
        let packet = match packet_type {
            0x01 => match ConnectPacket::decode(buf) {
                Ok(p) => PacketType::Connect(p),
                Err(e) => {
                    return Err(e);
                },
            },
            0x02 => PacketType::Data(buf),
            0x03 => match ContinuePacket::decode(buf) {
                Ok(p) => PacketType::Continue(p),
                Err(e) => {
                    return Err(e);
                },
            },
            0x04 => match ClosePacket::decode(buf) {
                Ok(p) => PacketType::Close(p),
                Err(e) => {
                    return Err(e);
                },
            },
            _ => {
                return Err(WispError::InvalidPacketType);
            },
        };
        Ok(Self { stream_id, packet })
    }

    /// The packet on the wire.
    pub fn encode(&self) -> (out: Vec<u8>)
        ensures
            out@ == self@.spec_encode(),
    {
        let mut encoded = Vec::with_capacity(1 + 4);
        encoded.push(self.packet.as_u8());
        vec_put_u32_le(&mut encoded, self.stream_id);
        let body = self.packet.encode();
        append_bytes(&mut encoded, body.as_slice());
        encoded
    }
}

/// Decoding the encoding of a connect body gives the body back.
pub proof fn lemma_connect_round_trip(p: ConnectPacketView)
    ensures
        ConnectPacketView::spec_decode(p.spec_encode()) == Ok::<ConnectPacketView, DecodeFailure>(
            p,
        ),
{
    let name = encode_utf8(p.destination_hostname);
    let bytes = p.spec_encode();
    lemma_stream_type_tag_round_trip(p.stream_type);
    lemma_u16_le_round_trip(p.destination_port, name);
    vstd::utf8::encode_utf8_valid_utf8(p.destination_hostname);
    vstd::utf8::encode_utf8_decode_utf8(p.destination_hostname);
    assert(bytes.skip(1) =~= u16_le_bytes(p.destination_port) + name);
    assert(bytes.skip(3) =~= name);
}

/// Decoding the encoding of a continue body gives the body back.
pub proof fn lemma_continue_round_trip(p: ContinuePacket)
    ensures
        ContinuePacket::spec_decode(p.spec_encode()) == Ok::<ContinuePacket, DecodeFailure>(p),
{
    lemma_u32_le_round_trip(p.buffer_remaining, Seq::empty());
    assert(u32_le_bytes(p.buffer_remaining) + Seq::<u8>::empty() =~= u32_le_bytes(
        p.buffer_remaining,
    ));
}

/// Decoding the encoding of a close body gives the body back.
pub proof fn lemma_close_round_trip(p: ClosePacket)
    ensures
        ClosePacket::spec_decode(p.spec_encode()) == Ok::<ClosePacket, DecodeFailure>(p),
{
    lemma_close_reason_tag_round_trip(p.reason);
}

/// The round trip of the codec: every packet is what its own encoding
/// decodes to.
pub proof fn lemma_decode_encode(p: PacketView)
    ensures
        PacketView::spec_decode(p.spec_encode()) == Ok::<PacketView, DecodeFailure>(p),
{
    let body = p.packet.spec_encode();
    let bytes = p.spec_encode();
    lemma_u32_le_round_trip(p.stream_id, body);
    assert(bytes.skip(1) =~= u32_le_bytes(p.stream_id) + body);
    assert(bytes.skip(5) =~= body);
    match p.packet {
        PacketTypeView::Connect(c) => lemma_connect_round_trip(c),
        PacketTypeView::Data(_) => {},
        PacketTypeView::Continue(c) => lemma_continue_round_trip(c),
        PacketTypeView::Close(c) => lemma_close_round_trip(c),
    }
}

/// What the decoder turns away. Fewer than five bytes are too small a
/// packet. With the header complete, a tag other than 1, 2, 3 or 4 is an
/// invalid packet type; a connect body of at least three bytes whose first is
/// no stream type is an invalid stream type; a close body whose first byte is
/// no reason is an invalid close reason.
pub proof fn lemma_rejection(bytes: Seq<u8>)
    ensures
        bytes.len() < 5 ==> PacketView::spec_decode(bytes) == Err::<PacketView, DecodeFailure>(
            DecodeFailure::PacketTooSmall,
        ),
        bytes.len() >= 5 && !(1 <= bytes[0] <= 4) ==> PacketView::spec_decode(bytes) == Err::<
            PacketView,
            DecodeFailure,
        >(DecodeFailure::InvalidPacketType),
        bytes.len() >= 8 && bytes[0] == 1 && !(1 <= bytes[5] <= 2) ==> PacketView::spec_decode(
            bytes,
        ) == Err::<PacketView, DecodeFailure>(DecodeFailure::InvalidStreamType),
        bytes.len() >= 6 && bytes[0] == 4 && CloseReason::spec_from_u8(bytes[5]) is None
            ==> PacketView::spec_decode(bytes) == Err::<PacketView, DecodeFailure>(
            DecodeFailure::InvalidCloseReason,
        ),
{
}

/// The tags that stand for a close reason are eleven: 0x01 to 0x03, 0x41 to
/// 0x44, 0x47 to 0x49 and 0x81. Those that stand for a stream type are 0x01
/// and 0x02. A tag that stands for one is the tag of what it stands for.
pub proof fn lemma_known_tags(tag: u8)
    ensures
        CloseReason::spec_from_u8(tag) is Some <==> (1 <= tag <= 3 || 0x41 <= tag <= 0x44 || 0x47
            <= tag <= 0x49 || tag == 0x81),
        CloseReason::spec_from_u8(tag) matches Some(r) ==> r.spec_as_u8() == tag,
        StreamType::spec_from_u8(tag) is Some <==> 1 <= tag <= 2,
        StreamType::spec_from_u8(tag) matches Some(t) ==> t.spec_as_u8() == tag,
{
}

/// Every stream type comes back from its own tag.
pub proof fn lemma_stream_type_tag_round_trip(t: StreamType)
    ensures
        StreamType::spec_from_u8(t.spec_as_u8()) == Some(t),
{
}

/// Every close reason comes back from its own tag.
pub proof fn lemma_close_reason_tag_round_trip(r: CloseReason)
    ensures
        CloseReason::spec_from_u8(r.spec_as_u8()) == Some(r),
{
}

} // verus!
