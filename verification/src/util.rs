//! Negotiating the upstream link.
//!
//! The session runs over a serial device or over a WebSocket, plain or
//! behind TLS. What is decided here is which of them, where to connect to,
//! what the upgrade request says and what the Wisp handshake asks for; the
//! caller opens the sockets and carries the bytes.

use crate::addr::SocketAddress;
use vstd::prelude::*;

verus! {

/// Errors of the bridge and of its lifecycle.
#[derive(Debug)]
pub enum WhisperError {
    UriHasNoScheme,
    UriHasInvalidScheme,
    UriHasNoHost,
    NoSocketAddr,
    NotInitialized,
    AlreadyInitialized,
    NotStarted,
    AlreadyStarted,
    ChannelExited,
    /// Any other error, as the text that describes it.
    Other(String),
}

impl WhisperError {
    /// The description of the error.
    pub open spec fn spec_message(self) -> Seq<char> {
        match self {
            WhisperError::UriHasNoScheme => "URI has no scheme"@,
            WhisperError::UriHasInvalidScheme => "URI has invalid scheme"@,
            WhisperError::UriHasNoHost => "URI has no host"@,
            WhisperError::NoSocketAddr => "No socket addr"@,
            WhisperError::NotInitialized => "Whisper not initialized"@,
            WhisperError::AlreadyInitialized => "Whisper already initialized"@,
            WhisperError::NotStarted => "Whisper not started"@,
            WhisperError::AlreadyStarted => "Whisper already started"@,
            WhisperError::ChannelExited => "Channel exited"@,
            WhisperError::Other(text) => text@,
        }
    }

    /// An error that is none of the named ones.
    pub fn other(message: String) -> (err: Self)
        ensures
            err == WhisperError::Other(message),
    {
        WhisperError::Other(message)
    }

    /// The description of the error as the user sees it.
    pub fn message(&self) -> (text: String)
        ensures
            text@ == self.spec_message(),
    {
        match self {
            WhisperError::UriHasNoScheme => "URI has no scheme".to_owned(),
            WhisperError::UriHasInvalidScheme => "URI has invalid scheme".to_owned(),
            WhisperError::UriHasNoHost => "URI has no host".to_owned(),
            WhisperError::NoSocketAddr => "No socket addr".to_owned(),
            WhisperError::NotInitialized => "Whisper not initialized".to_owned(),
            WhisperError::AlreadyInitialized => "Whisper already initialized".to_owned(),
            WhisperError::NotStarted => "Whisper not started".to_owned(),
            WhisperError::AlreadyStarted => "Whisper already started".to_owned(),
            WhisperError::ChannelExited => "Channel exited".to_owned(),
            WhisperError::Other(text) => text.clone(),
        }
    }
}

/// The parts of a URL that the negotiation reads.
#[derive(Debug, Clone)]
pub struct WispUrl {
    pub scheme: Option<String>,
    pub host: Option<String>,
    pub port: Option<u16>,
    pub path: String,
    pub query: Option<String>,
}

/// A `WispUrl` as a mathematical value.
pub struct WispUrlView {
    pub scheme: Option<Seq<char>>,
    pub host: Option<Seq<char>>,
    pub port: Option<u16>,
    pub path: Seq<char>,
    pub query: Option<Seq<char>>,
}

/// The text that an optional string holds, if it holds one.
pub open spec fn spec_text(s: Option<String>) -> Option<Seq<char>> {
    match s {
        Some(s) => Some(s@),
        None => None,
    }
}

impl View for WispUrl {
    type V = WispUrlView;

    open spec fn view(&self) -> WispUrlView {
        WispUrlView {
            scheme: spec_text(self.scheme),
            host: spec_text(self.host),
            port: self.port,
            path: self.path@,
            query: spec_text(self.query),
        }
    }
}

/// Where the Wisp server is to be found: behind a serial device or behind a
/// URL.
#[derive(Debug, Clone)]
pub struct WispServer {
    /// Path to the serial device.
    pub pty: Option<String>,
    /// URL of the Wisp server.
    pub url: Option<WispUrl>,
}

/// Where a WebSocket connection goes.
#[derive(Debug, Clone)]
pub struct NetworkTarget {
    /// Whether the connection runs through TLS.
    pub tls: bool,
    pub host: String,
    pub port: u16,
    /// The path that the upgrade request asks for.
    pub path: String,
}

/// A `NetworkTarget` as a mathematical value.
pub struct NetworkTargetView {
    pub tls: bool,
    pub host: Seq<char>,
    pub port: u16,
    pub path: Seq<char>,
}

impl View for NetworkTarget {
    type V = NetworkTargetView;

    open spec fn view(&self) -> NetworkTargetView {
        NetworkTargetView { tls: self.tls, host: self.host@, port: self.port, path: self.path@ }
    }
}

/// The channel that carries the session.
#[derive(Debug, Clone)]
pub enum Transport {
    /// The serial device at `path`, in raw mode, with length-prefixed frames.
    Serial { path: String },
    /// A WebSocket to `target`.
    Network { target: NetworkTarget },
}

/// A `Transport` as a mathematical value.
pub enum TransportView {
    Serial { path: Seq<char> },
    Network { target: NetworkTargetView },
}

impl View for Transport {
    type V = TransportView;

    open spec fn view(&self) -> TransportView {
        match self {
            Transport::Serial { path } => TransportView::Serial { path: path@ },
            Transport::Network { target } => TransportView::Network { target: target@ },
        }
    }
}

/// Why a URL names no place to connect to.
pub enum TargetFailure {
    NoScheme,
    InvalidScheme,
    NoHost,
}

/// The failure that an error reports, if it reports one of a URL.
pub open spec fn target_failure_of(err: WhisperError) -> Option<TargetFailure> {
    match err {
        WhisperError::UriHasNoScheme => Some(TargetFailure::NoScheme),
        WhisperError::UriHasInvalidScheme => Some(TargetFailure::InvalidScheme),
        WhisperError::UriHasNoHost => Some(TargetFailure::NoHost),
        _ => None,
    }
}

/// Where `url` leads, with `secure` as the scheme that asks for TLS and
/// `plain` as the one that does not. The scheme is looked at first, then the
/// host; a URL without a port gets 443 with TLS and 80 without.
pub open spec fn spec_target(url: WispUrlView, secure: Seq<char>, plain: Seq<char>) -> Result<
    NetworkTargetView,
    TargetFailure,
> {
    match url.scheme {
        None => Err(TargetFailure::NoScheme),
        Some(scheme) => if scheme != secure && scheme != plain {
            Err(TargetFailure::InvalidScheme)
        } else {
            match url.host {
                None => Err(TargetFailure::NoHost),
                Some(host) => {
                    let tls = scheme == secure;
                    Ok(
                        NetworkTargetView {
                            tls,
                            host,
                            port: match url.port {
                                Some(port) => port,
                                None => if tls {
                                    443u16
                                } else {
                                    80u16
                                },
                            },
                            path: url.path,
                        },
                    )
                },
            }
        },
    }
}

/// Where `url` leads, with `secure` as the scheme that asks for TLS and
/// `plain` as the one that does not.
fn target_of(url: &WispUrl, secure: &str, plain: &str) -> (res: Result<NetworkTarget, WhisperError>)
    ensures
        match spec_target(url@, secure@, plain@) {
            Ok(target) => res matches Ok(t) && t@ == target,
            Err(failure) => res matches Err(e) && target_failure_of(e) == Some(failure),
        },
{
    let scheme = match &url.scheme {
        Some(scheme) => scheme,
        None => {
            return Err(WhisperError::UriHasNoScheme);
        },
    };
    let tls = if *scheme == secure.to_owned() {
        true
    } else if *scheme == plain.to_owned() {
        false
    } else {
        return Err(WhisperError::UriHasInvalidScheme);
    };
    let host = match &url.host {
        Some(host) => host,
        None => {
            return Err(WhisperError::UriHasNoHost);
        },
    };
    let port = match url.port {
        Some(port) => port,
        None => if tls {
            443
        } else {
            80
        },
    };
    Ok(NetworkTarget { tls, host: host.clone(), port, path: url.path.clone() })
}

/// Where the WebSocket of a Wisp server at `url` is to be found: `wss` asks
/// for TLS, `ws` does not, and no other scheme is taken.
pub fn network_target(url: &WispUrl) -> (res: Result<NetworkTarget, WhisperError>)
    ensures
        match spec_target(url@, "wss"@, "ws"@) {
            Ok(target) => res matches Ok(t) && t@ == target,
            Err(failure) => res matches Err(e) && target_failure_of(e) == Some(failure),
        },
{
    target_of(url, "wss", "ws")
}

/// The transport that `opts` asks for: the serial device where one is
/// named, else the URL.
pub open spec fn spec_transport(opts: WispServer) -> Result<TransportView, TargetFailure> {
    match opts.pty {
        Some(path) => Ok(TransportView::Serial { path: path@ }),
        None => match spec_target(opts.url->Some_0@, "wss"@, "ws"@) {
            Ok(target) => Ok(TransportView::Network { target }),
            Err(failure) => Err(failure),
        },
    }
}

/// The transport that `opts` asks for. One of the two, device or URL, must
/// be named.
pub fn choose_transport(opts: &WispServer) -> (res: Result<Transport, WhisperError>)
    requires
        opts.pty is Some || opts.url is Some,
    ensures
        match spec_transport(*opts) {
            Ok(transport) => res matches Ok(t) && t@ == transport,
            Err(failure) => res matches Err(e) && target_failure_of(e) == Some(failure),
        },
{
    match &opts.pty {
        Some(path) => Ok(Transport::Serial { path: path.clone() }),
        None => match &opts.url {
            Some(url) => match network_target(url) {
                Ok(target) => Ok(Transport::Network { target }),
                Err(e) => Err(e),
            },
            None => vstd::pervasive::unreached(),
        },
    }
}

/// The address of the peer that the session reports: that of the socket
/// for a WebSocket, none for a serial device.
pub fn remote_address(transport: &Transport, peer: Option<SocketAddress>) -> (addr: Option<
    SocketAddress,
>)
    ensures
        addr == match transport {
            Transport::Serial { .. } => None,
            Transport::Network { .. } => peer,
        },
{
    match transport {
        Transport::Serial { .. } => None,
        Transport::Network { .. } => peer,
    }
}

/// The request that asks the server to turn the connection into a
/// WebSocket.
#[derive(Debug, Clone)]
pub struct UpgradeRequest {
    pub method: String,
    pub path: String,
    /// The header lines, in the order in which they are sent.
    pub headers: Vec<(String, String)>,
}

/// An `UpgradeRequest` as a mathematical value.
pub struct UpgradeRequestView {
    pub method: Seq<char>,
    pub path: Seq<char>,
    pub headers: Seq<(Seq<char>, Seq<char>)>,
}

impl View for UpgradeRequest {
    type V = UpgradeRequestView;

    open spec fn view(&self) -> UpgradeRequestView {
        UpgradeRequestView {
            method: self.method@,
            path: self.path@,
            headers: Seq::new(
                self.headers@.len(),
                |i: int| (self.headers@[i].0@, self.headers@[i].1@),
            ),
        }
    }
}

/// The upgrade request for `target` with `key` as its nonce: a `GET` of the
/// target's path that names the host, asks for the upgrade and speaks
/// version 13 of the protocol.
pub open spec fn spec_upgrade_request(
    target: NetworkTargetView,
    key: Seq<char>,
) -> UpgradeRequestView {
    UpgradeRequestView {
        method: "GET"@,
        path: target.path,
        headers: seq![
            ("Host"@, target.host),
            ("Upgrade"@, "websocket"@),
            ("Connection"@, "upgrade"@),
            ("Sec-WebSocket-Key"@, key),
            ("Sec-WebSocket-Version"@, "13"@),
        ],
    }
}

/// The upgrade request for `target` with `key` as its nonce.
pub fn upgrade_request(target: &NetworkTarget, key: String) -> (request: UpgradeRequest)
    ensures
        request@ == spec_upgrade_request(target@, key@),
{
    let mut headers: Vec<(String, String)> = Vec::with_capacity(5);
    headers.push(("Host".to_owned(), target.host.clone()));
    headers.push(("Upgrade".to_owned(), "websocket".to_owned()));
    headers.push(("Connection".to_owned(), "upgrade".to_owned()));
    headers.push(("Sec-WebSocket-Key".to_owned(), key));
    headers.push(("Sec-WebSocket-Version".to_owned(), "13".to_owned()));
    let request = UpgradeRequest { method: "GET".to_owned(), path: target.path.clone(), headers };
    assert(request@.headers =~= spec_upgrade_request(target@, key@).headers);
    request
}

/// `fastwebsockets::handshake::generate_key`: a fresh random nonce for the
/// `Sec-WebSocket-Key` header. Nothing is claimed of its value.
#[verifier::external_body]
fn generate_key() -> (key: String) {
    fastwebsockets::handshake::generate_key()
}

/// The upgrade request for `target`, with a nonce of its own: whatever the
/// nonce is, the request is the one that `spec_upgrade_request` gives for it.
pub fn websocket_upgrade_request(target: &NetworkTarget) -> (request: UpgradeRequest)
    ensures
        request@.headers.len() == 5,
        request@ == spec_upgrade_request(target@, request@.headers[3].1),
{
    upgrade_request(target, generate_key())
}

/// What the Wisp handshake offers and insists on.
#[derive(Debug, Clone, Copy, PartialEq, Eq, Structural)]
pub struct HandshakePlan {
    /// The protocol version that the client speaks.
    pub version: u8,
    /// Whether the UDP extension is offered to the server.
    pub advertise_udp: bool,
    /// Whether a server without the UDP extension is turned down.
    pub require_udp: bool,
}

/// The handshake of version 1, which knows no extensions, or of version 2,
/// which offers the UDP extension and insists on it.
pub open spec fn spec_handshake_plan(v1: bool) -> HandshakePlan {
    if v1 {
        HandshakePlan { version: 1, advertise_udp: false, require_udp: false }
    } else {
        HandshakePlan { version: 2, advertise_udp: true, require_udp: true }
    }
}

/// The handshake to make: that of version 1 if `v1`, else that of version 2.
#[verifier::when_used_as_spec(spec_handshake_plan)]
pub fn handshake_plan(v1: bool) -> (plan: HandshakePlan)
    ensures
        plan == spec_handshake_plan(v1),
{
    if v1 {
        HandshakePlan { version: 1, advertise_udp: false, require_udp: false }
    } else {
        HandshakePlan { version: 2, advertise_udp: true, require_udp: true }
    }
}

impl HandshakePlan {
    /// Whether a server that does or does not support UDP is accepted.
    pub open spec fn spec_accepts(&self, server_supports_udp: bool) -> bool {
        self.require_udp ==> server_supports_udp
    }

    /// Whether the handshake succeeds with a server that does or does not
    /// support UDP. A refusal is an error of the connection as a whole.
    #[verifier::when_used_as_spec(spec_accepts)]
    pub fn accepts(&self, server_supports_udp: bool) -> (ok: bool)
        ensures
            ok == self.spec_accepts(server_supports_udp),
    {
        !self.require_udp || server_supports_udp
    }
}

/// The background tasks without which nothing works.
#[derive(Debug, Clone, Copy, PartialEq, Eq, Structural)]
pub enum CriticalTask {
    /// The future that drives the frames of the session.
    Drive,
    /// The helper process that tunnels to the server.
    TunnelHelper,
}

/// What follows the end of a critical task.
#[derive(Debug, Clone, Copy, PartialEq, Eq, Structural)]
pub enum Supervision {
    /// The whole process is aborted at once.
    Abort,
    /// Nothing: the task was allowed to end.
    Nothing,
}

/// What follows the end of `task`. A drive future that ends with an error
/// leaves every stream dead, and a helper that exits, however it does, takes
/// the tunnel with it: both abort the process. A drive future that ends in
/// order does not.
pub open spec fn spec_supervise(task: CriticalTask, failed: bool) -> Supervision {
    match task {
        CriticalTask::Drive => if failed {
            Supervision::Abort
        } else {
            Supervision::Nothing
        },
        CriticalTask::TunnelHelper => Supervision::Abort,
    }
}

/// What follows the end of `task`, which failed or did not.
#[verifier::when_used_as_spec(spec_supervise)]
pub fn supervise(task: CriticalTask, failed: bool) -> (action: Supervision)
    ensures
        action == spec_supervise(task, failed),
{
    match task {
        CriticalTask::Drive => if failed {
            Supervision::Abort
        } else {
            Supervision::Nothing
        },
        CriticalTask::TunnelHelper => Supervision::Abort,
    }
}

/// Where the server behind a tunnel is to be found, for the helper and for
/// the log: `https` stands for TLS, `http` for none, and no other scheme is
/// taken.
pub fn tunnel_origin(url: &WispUrl) -> (res: Result<NetworkTarget, WhisperError>)
    ensures
        match spec_target(url@, "https"@, "http"@) {
            Ok(target) => res matches Ok(t) && t@ == target,
            Err(failure) => res matches Err(e) && target_failure_of(e) == Some(failure),
        },
{
    target_of(url, "https", "http")
}

/// The URL of the local end of a tunnel to `url` that listens on
/// `listener_port`: a plain WebSocket on the loopback address, with the path
/// and the query of `url`.
pub open spec fn spec_tunnel_local_url(url: WispUrlView, listener_port: u16) -> WispUrlView {
    WispUrlView {
        scheme: Some("ws"@),
        host: Some("127.0.0.1"@),
        port: Some(listener_port),
        path: url.path,
        query: url.query,
    }
}

/// The URL to connect to in place of `url`, once the tunnel helper listens
/// on `listener_port` of the loopback address.
pub fn tunnel_local_url(url: &WispUrl, listener_port: u16) -> (local: WispUrl)
    ensures
        local@ == spec_tunnel_local_url(url@, listener_port),
{
    WispUrl {
        scheme: Some("ws".to_owned()),
        host: Some("127.0.0.1".to_owned()),
        port: Some(listener_port),
        path: url.path.clone(),
        query: url.query.clone(),
    }
}

/// Through a tunnel the connection is a plain WebSocket to the helper's
/// port on the loopback address, whatever the URL of the server says, and it
/// asks for the path that the server's URL names.
pub proof fn lemma_tunnel_target(url: WispUrlView, listener_port: u16)
    ensures
        spec_target(spec_tunnel_local_url(url, listener_port), "wss"@, "ws"@) == Ok::<
            NetworkTargetView,
            TargetFailure,
        >(
            NetworkTargetView {
                tls: false,
                host: "127.0.0.1"@,
                port: listener_port,
                path: url.path,
            },
        ),
{
    reveal_strlit("ws");
    reveal_strlit("wss");
    assert("ws"@.len() != "wss"@.len());
}

} // verus!
