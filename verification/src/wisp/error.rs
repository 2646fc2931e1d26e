//! Errors of the Wisp protocol layer.

use vstd::prelude::*;
use vstd::string::StringExecFns;

verus! {

/// Why a byte string failed `std::str::from_utf8`.
#[verifier::external_type_specification]
#[verifier::external_body]
pub struct ExUtf8Error(std::str::Utf8Error);

/// Errors the Wisp implementation can return.
#[derive(Debug)]
pub enum WispError {
    /// The packet received did not have enough data.
    PacketTooSmall,
    /// The packet received had an invalid type.
    InvalidPacketType,
    /// The stream had an invalid type.
    InvalidStreamType,
    /// The stream had an invalid ID.
    InvalidStreamId,
    /// The close packet had an invalid reason.
    InvalidCloseReason,
    /// The URI received was invalid.
    InvalidUri,
    /// The URI received had no host.
    UriHasNoHost,
    /// The URI received had no port.
    UriHasNoPort,
    /// The max stream count was reached.
    MaxStreamCountReached,
    /// The stream had already been closed.
    StreamAlreadyClosed,
    /// The websocket frame received had an invalid type.
    WsFrameInvalidType,
    /// The websocket frame received was not finished.
    WsFrameNotFinished,
    /// Error specific to the websocket implementation, as text.
    WsImplError(String),
    /// The websocket implementation socket closed.
    WsImplSocketClosed,
    /// The websocket implementation did not support the action.
    WsImplNotSupported,
    /// The string was invalid UTF-8.
    Utf8Error(std::str::Utf8Error),
    /// Other error, as text.
    Other(String),
}

/// `Debug` formatting of a `std::str::Utf8Error`. The text is std's own and
/// nothing is claimed of it.
#[verifier::external_body]
fn utf8_error_debug(err: &std::str::Utf8Error) -> (text: String) {
    format!("{:?}", err)
}

impl WispError {
    /// The fixed part of the error's description: all of it for a variant
    /// without a payload, the text before the payload for the others.
    pub open spec fn spec_prefix(self) -> Seq<char> {
        match self {
            WispError::PacketTooSmall => "Packet too small"@,
            WispError::InvalidPacketType => "Invalid packet type"@,
            WispError::InvalidStreamType => "Invalid stream type"@,
            WispError::InvalidStreamId => "Invalid stream id"@,
            WispError::InvalidCloseReason => "Invalid close reason"@,
            WispError::InvalidUri => "Invalid URI"@,
            WispError::UriHasNoHost => "URI has no host"@,
            WispError::UriHasNoPort => "URI has no port"@,
            WispError::MaxStreamCountReached => "Maximum stream count reached"@,
            WispError::StreamAlreadyClosed => "Stream already closed"@,
            WispError::WsFrameInvalidType => "Invalid websocket frame type"@,
            WispError::WsFrameNotFinished => "Unfinished websocket frame"@,
            WispError::WsImplError(_) => "Websocket implementation error: "@,
            WispError::WsImplSocketClosed => "Websocket implementation error: websocket closed"@,
            WispError::WsImplNotSupported => "Websocket implementation error: unsupported feature"@,
            WispError::Utf8Error(_) => "UTF-8 error: "@,
            WispError::Other(_) => "Other error: "@,
        }
    }

    /// The description of the error as the user sees it.
    pub fn message(&self) -> (text: String)
        ensures
            self is WsImplError ==> text@ == self.spec_prefix() + self->WsImplError_0@,
            self is Other ==> text@ == self.spec_prefix() + self->Other_0@,
            self is Utf8Error ==> self.spec_prefix().is_prefix_of(text@),
            !(self is WsImplError || self is Other || self is Utf8Error) ==> text@
                == self.spec_prefix(),
    {
        match self {
            WispError::PacketTooSmall => "Packet too small".to_owned(),
            WispError::InvalidPacketType => "Invalid packet type".to_owned(),
            WispError::InvalidStreamType => "Invalid stream type".to_owned(),
            WispError::InvalidStreamId => "Invalid stream id".to_owned(),
            WispError::InvalidCloseReason => "Invalid close reason".to_owned(),
            WispError::InvalidUri => "Invalid URI".to_owned(),
            WispError::UriHasNoHost => "URI has no host".to_owned(),
            WispError::UriHasNoPort => "URI has no port".to_owned(),
            WispError::MaxStreamCountReached => "Maximum stream count reached".to_owned(),
            WispError::StreamAlreadyClosed => "Stream already closed".to_owned(),
            WispError::WsFrameInvalidType => "Invalid websocket frame type".to_owned(),
            WispError::WsFrameNotFinished => "Unfinished websocket frame".to_owned(),
            WispError::WsImplError(err) => "Websocket implementation error: ".to_owned().concat(
                err.as_str(),
            ),
            WispError::WsImplSocketClosed => "Websocket implementation error: websocket closed".to_owned(),
            WispError::WsImplNotSupported => "Websocket implementation error: unsupported feature".to_owned(),
            WispError::Utf8Error(err) => {
                let detail = utf8_error_debug(err);
                "UTF-8 error: ".to_owned().concat(detail.as_str())
            },
            WispError::Other(err) => "Other error: ".to_owned().concat(err.as_str()),
        }
    }
}

} // verus!
