use bytes::Bytes;
use whisper::addr::SocketAddress;
use whisper::info::{info, version};
use whisper::lifecycle::Lifecycle;
use whisper::pty::error::PtyError;
use whisper::pty::{
    decode_frame, encode_frame, read_frame, write_frame, Decoded, OpCode, WriteStep,
    LENGTH_FIELD_LEN, MAX_FRAME_LEN,
};
use whisper::tun::error::TunError;
use whisper::tun::{check_protocol, frame_kind, goes_on_after, FrameKind, ETHERTYPE_IPV4, IP_PROTOCOL_TCP};
use whisper::util::{
    choose_transport, handshake_plan, network_target, remote_address, supervise, tunnel_local_url,
    tunnel_origin, upgrade_request, websocket_upgrade_request, CriticalTask, HandshakePlan,
    NetworkTarget, Supervision, Transport, WhisperError, WispServer, WispUrl,
};
use whisper::wisp::error::WispError;

fn url(scheme: Option<&str>, host: Option<&str>, port: Option<u16>, path: &str) -> WispUrl {
    WispUrl {
        scheme: scheme.map(|s| s.to_string()),
        host: host.map(|s| s.to_string()),
        port,
        path: path.to_string(),
        query: None,
    }
}

fn peer() -> SocketAddress {
    SocketAddress::V4 { ip: 0x5db8_d822, port: 443 }
}

type Instance = Lifecycle<&'static str, u32>;

fn connected() -> Result<(&'static str, Option<SocketAddress>), String> {
    Ok(("session", Some(peer())))
}

#[test]
fn network_target_of_wss_url() {
    let target = network_target(&url(Some("wss"), Some("example.com"), None, "/wisp/")).unwrap();
    assert!(target.tls);
    assert_eq!(target.host, "example.com");
    assert_eq!(target.port, 443);
    assert_eq!(target.path, "/wisp/");
}

#[test]
fn network_target_of_ws_url() {
    let target = network_target(&url(Some("ws"), Some("10.0.0.1"), None, "/")).unwrap();
    assert!(!target.tls);
    assert_eq!(target.host, "10.0.0.1");
    assert_eq!(target.port, 80);
    assert_eq!(target.path, "/");
}

#[test]
fn network_target_keeps_an_explicit_port() {
    let target = network_target(&url(Some("wss"), Some("h"), Some(8443), "/p")).unwrap();
    assert_eq!((target.tls, target.port), (true, 8443));
    let target = network_target(&url(Some("ws"), Some("h"), Some(443), "/p")).unwrap();
    assert_eq!((target.tls, target.port), (false, 443));
}

#[test]
fn network_target_errors() {
    assert!(matches!(
        network_target(&url(None, Some("h"), None, "/")),
        Err(WhisperError::UriHasNoScheme)
    ));
    assert!(matches!(
        network_target(&url(None, None, None, "/")),
        Err(WhisperError::UriHasNoScheme)
    ));
    for scheme in ["http", "https", "WSS", "wsss", "w", ""] {
        assert!(matches!(
            network_target(&url(Some(scheme), Some("h"), None, "/")),
            Err(WhisperError::UriHasInvalidScheme)
        ));
    }
    assert!(matches!(
        network_target(&url(Some("ftp"), None, None, "/")),
        Err(WhisperError::UriHasInvalidScheme)
    ));
    assert!(matches!(
        network_target(&url(Some("wss"), None, Some(1), "/")),
        Err(WhisperError::UriHasNoHost)
    ));
}

#[test]
fn transport_prefers_the_serial_device() {
    let opts = WispServer {
        pty: Some("/dev/ttyS0".to_string()),
        url: Some(url(Some("wss"), Some("h"), None, "/")),
    };
    assert!(matches!(choose_transport(&opts), Ok(Transport::Serial { path }) if path == "/dev/ttyS0"));
    let opts = WispServer { pty: Some("/dev/pts/3".to_string()), url: None };
    assert!(matches!(choose_transport(&opts), Ok(Transport::Serial { path }) if path == "/dev/pts/3"));
}

#[test]
fn transport_over_the_network() {
    let opts = WispServer { pty: None, url: Some(url(Some("ws"), Some("h"), Some(9000), "/w")) };
    match choose_transport(&opts) {
        Ok(Transport::Network { target }) => {
            assert!(!target.tls);
            assert_eq!(target.host, "h");
            assert_eq!(target.port, 9000);
            assert_eq!(target.path, "/w");
        }
        other => panic!("expected a network transport, got {:?}", other),
    }
    let opts = WispServer { pty: None, url: Some(url(Some("gopher"), Some("h"), None, "/")) };
    assert!(matches!(choose_transport(&opts), Err(WhisperError::UriHasInvalidScheme)));
}

#[test]
fn remote_address_only_for_the_network() {
    let serial = Transport::Serial { path: "/dev/ttyS0".to_string() };
    assert_eq!(remote_address(&serial, Some(peer())), None);
    let network = Transport::Network {
        target: NetworkTarget { tls: true, host: "h".to_string(), port: 443, path: "/".to_string() },
    };
    assert_eq!(remote_address(&network, Some(peer())), Some(peer()));
    assert_eq!(remote_address(&network, None), None);
}

#[test]
fn upgrade_request_headers() {
    let target = NetworkTarget {
        tls: true,
        host: "example.com".to_string(),
        port: 443,
        path: "/wisp/".to_string(),
    };
    let request = upgrade_request(&target, "dGhlIHNhbXBsZSBub25jZQ==".to_string());
    assert_eq!(request.method, "GET");
    assert_eq!(request.path, "/wisp/");
    let expected: Vec<(String, String)> = [
        ("Host", "example.com"),
        ("Upgrade", "websocket"),
        ("Connection", "upgrade"),
        ("Sec-WebSocket-Key", "dGhlIHNhbXBsZSBub25jZQ=="),
        ("Sec-WebSocket-Version", "13"),
    ]
    .iter()
    .map(|(name, value)| (name.to_string(), value.to_string()))
    .collect();
    assert_eq!(request.headers, expected);
}

#[test]
fn upgrade_request_with_a_fresh_key() {
    let target = NetworkTarget { tls: false, host: "h".to_string(), port: 80, path: "/".to_string() };
    let first = websocket_upgrade_request(&target);
    let second = websocket_upgrade_request(&target);
    assert_eq!(first.method, "GET");
    assert_eq!(first.path, "/");
    assert_eq!(first.headers.len(), 5);
    assert_eq!(first.headers[0], ("Host".to_string(), "h".to_string()));
    assert_eq!(first.headers[3].0, "Sec-WebSocket-Key");
    assert!(!first.headers[3].1.is_empty());
    assert_eq!(first.headers[4], ("Sec-WebSocket-Version".to_string(), "13".to_string()));
    assert_ne!(first.headers[3].1, second.headers[3].1);
}

#[test]
fn handshake_plans() {
    assert_eq!(
        handshake_plan(true),
        HandshakePlan { version: 1, advertise_udp: false, require_udp: false }
    );
    assert_eq!(
        handshake_plan(false),
        HandshakePlan { version: 2, advertise_udp: true, require_udp: true }
    );
    assert!(handshake_plan(true).accepts(false));
    assert!(handshake_plan(true).accepts(true));
    assert!(handshake_plan(false).accepts(true));
    assert!(!handshake_plan(false).accepts(false));
}

#[test]
fn critical_tasks_abort_the_process() {
    assert_eq!(supervise(CriticalTask::Drive, true), Supervision::Abort);
    assert_eq!(supervise(CriticalTask::Drive, false), Supervision::Nothing);
    assert_eq!(supervise(CriticalTask::TunnelHelper, true), Supervision::Abort);
    assert_eq!(supervise(CriticalTask::TunnelHelper, false), Supervision::Abort);
}

#[test]
fn tunnel_origin_reads_http_schemes() {
    let target = tunnel_origin(&url(Some("https"), Some("wisp.example"), None, "/x")).unwrap();
    assert_eq!((target.tls, target.port), (true, 443));
    assert_eq!(target.host, "wisp.example");
    let target = tunnel_origin(&url(Some("http"), Some("wisp.example"), None, "/x")).unwrap();
    assert_eq!((target.tls, target.port), (false, 80));
    let target = tunnel_origin(&url(Some("http"), Some("wisp.example"), Some(8080), "/x")).unwrap();
    assert_eq!(target.port, 8080);
    assert!(matches!(
        tunnel_origin(&url(Some("wss"), Some("h"), None, "/")),
        Err(WhisperError::UriHasInvalidScheme)
    ));
    assert!(matches!(tunnel_origin(&url(None, Some("h"), None, "/")), Err(WhisperError::UriHasNoScheme)));
    assert!(matches!(tunnel_origin(&url(Some("https"), None, None, "/")), Err(WhisperError::UriHasNoHost)));
}

#[test]
fn tunnel_local_url_points_at_the_helper() {
    let mut server = url(Some("https"), Some("wisp.example"), Some(8443), "/wisp/");
    server.query = Some("token=1".to_string());
    let local = tunnel_local_url(&server, 49152);
    assert_eq!(local.scheme.as_deref(), Some("ws"));
    assert_eq!(local.host.as_deref(), Some("127.0.0.1"));
    assert_eq!(local.port, Some(49152));
    assert_eq!(local.path, "/wisp/");
    assert_eq!(local.query.as_deref(), Some("token=1"));
    let target = network_target(&local).unwrap();
    assert!(!target.tls);
    assert_eq!(target.host, "127.0.0.1");
    assert_eq!(target.port, 49152);
    assert_eq!(target.path, "/wisp/");
}

#[test]
fn whisper_error_messages() {
    assert_eq!(WhisperError::UriHasNoScheme.message(), "URI has no scheme");
    assert_eq!(WhisperError::UriHasInvalidScheme.message(), "URI has invalid scheme");
    assert_eq!(WhisperError::UriHasNoHost.message(), "URI has no host");
    assert_eq!(WhisperError::NoSocketAddr.message(), "No socket addr");
    assert_eq!(WhisperError::NotInitialized.message(), "Whisper not initialized");
    assert_eq!(WhisperError::AlreadyInitialized.message(), "Whisper already initialized");
    assert_eq!(WhisperError::NotStarted.message(), "Whisper not started");
    assert_eq!(WhisperError::AlreadyStarted.message(), "Whisper already started");
    assert_eq!(WhisperError::ChannelExited.message(), "Channel exited");
    assert_eq!(WhisperError::other("connection refused".to_string()).message(), "connection refused");
    assert!(matches!(WhisperError::other("x".to_string()), WhisperError::Other(text) if text == "x"));
}

#[test]
fn lifecycle_start_before_init_fails() {
    let mut instance = Instance::new();
    assert!(matches!(instance.start(1), Err(WhisperError::NotInitialized)));
    assert!(!instance.is_initialized());
    assert!(!instance.is_running());
    assert!(matches!(instance.get_remote_address(), Err(WhisperError::NotInitialized)));
}

#[test]
fn lifecycle_second_init_fails() {
    let mut instance = Instance::new();
    assert!(instance.check_init().is_ok());
    assert!(instance.init(connected(), 1500).is_ok());
    assert!(instance.is_initialized());
    assert!(matches!(instance.check_init(), Err(WhisperError::AlreadyInitialized)));
    assert!(matches!(instance.init(connected(), 1500), Err(WhisperError::AlreadyInitialized)));
    assert!(instance.is_initialized());
    assert!(instance.start(1).is_ok());
    assert!(matches!(instance.check_init(), Err(WhisperError::AlreadyInitialized)));
    assert!(matches!(instance.init(connected(), 1500), Err(WhisperError::AlreadyInitialized)));
    assert!(instance.is_running());
}

#[test]
fn lifecycle_stop_without_start_fails() {
    let mut instance = Instance::new();
    assert!(matches!(instance.stop(), Err(WhisperError::NotStarted)));
    assert!(instance.init(connected(), 1500).is_ok());
    assert!(matches!(instance.stop(), Err(WhisperError::NotStarted)));
    assert!(instance.is_initialized());
}

#[test]
fn lifecycle_goes_round() {
    let mut instance = Instance::new();
    assert!(instance.init(connected(), 1400).is_ok());
    assert_eq!(instance.get_remote_address().unwrap(), peer());
    let started = instance.start(42).unwrap();
    assert_eq!(started.resources, "session");
    assert_eq!(started.mtu, 1400);
    assert!(instance.is_running());
    assert_eq!(instance.get_remote_address().unwrap(), peer());
    assert!(matches!(instance.start(43), Err(WhisperError::AlreadyStarted)));
    assert_eq!(instance.stop().unwrap(), 42);
    assert!(!instance.is_running());
    assert!(!instance.is_initialized());
    assert!(matches!(instance.stop(), Err(WhisperError::NotStarted)));
    assert!(matches!(instance.get_remote_address(), Err(WhisperError::NotInitialized)));
    assert!(instance.init(connected(), 1500).is_ok());
    assert_eq!(instance.start(44).unwrap().mtu, 1500);
}

#[test]
fn lifecycle_failed_init_changes_nothing() {
    let mut instance = Instance::new();
    assert!(matches!(
        instance.init(Err("connection refused".to_string()), 1500),
        Err(WhisperError::Other(text)) if text == "connection refused"
    ));
    assert!(!instance.is_initialized());
    assert!(matches!(instance.init(Ok(("session", None)), 1500), Err(WhisperError::NoSocketAddr)));
    assert!(!instance.is_initialized());
    assert!(instance.check_init().is_ok());
    assert!(instance.init(connected(), 1500).is_ok());
}

#[test]
fn frame_encoding() {
    assert_eq!(LENGTH_FIELD_LEN, 4);
    assert_eq!(MAX_FRAME_LEN, u32::MAX as usize);
    assert_eq!(encode_frame(&[]).unwrap(), vec![0, 0, 0, 0]);
    assert_eq!(encode_frame(b"abc").unwrap(), vec![3, 0, 0, 0, b'a', b'b', b'c']);
    let long = vec![7u8; 0x1_02_03];
    let frame = encode_frame(&long).unwrap();
    assert_eq!(&frame[..4], &[0x03, 0x02, 0x01, 0x00]);
    assert_eq!(&frame[4..], &long[..]);
}

#[test]
fn frame_decoding() {
    assert!(matches!(decode_frame(&[]), Decoded::Incomplete));
    assert!(matches!(decode_frame(&[3, 0, 0]), Decoded::Incomplete));
    assert!(matches!(decode_frame(&[3, 0, 0, 0]), Decoded::Incomplete));
    assert!(matches!(decode_frame(&[3, 0, 0, 0, b'a', b'b']), Decoded::Incomplete));
    assert!(matches!(
        decode_frame(&[3, 0, 0, 0, b'a', b'b', b'c']),
        Decoded::Frame { payload, consumed: 7 } if payload == b"abc"
    ));
    assert!(matches!(
        decode_frame(&[1, 0, 0, 0, 9, 2, 0, 0, 0, 8]),
        Decoded::Frame { payload, consumed: 5 } if payload == vec![9]
    ));
    assert!(matches!(
        decode_frame(&[0, 0, 0, 0, 1]),
        Decoded::Frame { payload, consumed: 4 } if payload.is_empty()
    ));
    assert!(matches!(decode_frame(&[0, 1, 0, 0, 1, 2, 3]), Decoded::Incomplete));
    assert!(matches!(decode_frame(&[0xff, 0xff, 0xff, 0xff, 1, 2, 3]), Decoded::Incomplete));
}

#[test]
fn frames_come_back_one_by_one() {
    let mut buffer = encode_frame(b"first").unwrap();
    buffer.extend(encode_frame(b"").unwrap());
    buffer.extend(encode_frame(b"third one").unwrap());
    let mut payloads = Vec::new();
    loop {
        match decode_frame(&buffer) {
            Decoded::Frame { payload, consumed } => {
                payloads.push(payload);
                buffer.drain(..consumed);
            }
            Decoded::Incomplete => break,
        }
    }
    assert!(buffer.is_empty());
    assert_eq!(payloads, vec![b"first".to_vec(), b"".to_vec(), b"third one".to_vec()]);
}

#[test]
fn write_side_of_the_link() {
    assert!(matches!(
        write_frame(OpCode::Binary, b"hi"),
        Ok(WriteStep::Send { bytes }) if bytes == vec![2, 0, 0, 0, b'h', b'i']
    ));
    assert!(matches!(
        write_frame(OpCode::Text, b"x"),
        Ok(WriteStep::Send { bytes }) if bytes == vec![1, 0, 0, 0, b'x']
    ));
    assert!(matches!(write_frame(OpCode::Close, b"bye"), Ok(WriteStep::Close)));
    assert!(matches!(write_frame(OpCode::Ping, b""), Err(WispError::WsImplNotSupported)));
    assert!(matches!(write_frame(OpCode::Pong, b""), Err(WispError::WsImplNotSupported)));
}

#[test]
fn read_side_of_the_link() {
    let payload = Bytes::from_static(b"frame");
    assert!(matches!(
        read_frame(Some(Ok(payload.clone()))),
        Ok((OpCode::Binary, got)) if got == payload
    ));
    assert!(matches!(
        read_frame(Some(Err("broken pipe".to_string()))),
        Err(WispError::WsImplError(text)) if text == "broken pipe"
    ));
    assert!(matches!(read_frame(None), Err(WispError::WsImplSocketClosed)));
}

#[test]
fn pty_error_messages() {
    assert_eq!(PtyError::CreatePtyFailed.message(), "Failed to create pty");
    assert_eq!(PtyError::OpenPtyFailed.message(), "Failed to open pty");
    assert_eq!(PtyError::CreatePipeFailed.message(), "Failed to create pipe");
    assert_eq!(PtyError::OpenPipeFailed.message(), "Failed to open pipe");
    assert_eq!(PtyError::WritePipeFailed.message(), "Failed to write to pipe");
    assert_eq!(PtyError::ReadPipeFailed.message(), "Failed to read from pipe");
    assert_eq!(PtyError::ClosePipeFailed.message(), "Failed to close pipe");
    assert_eq!(PtyError::other("denied".to_string()).message(), "Other error: denied");
}

#[test]
fn tun_error_messages() {
    assert_eq!(TunError::TunEarlyExit.message(), "Tun device closed early");
    assert_eq!(TunError::InvalidPacket.message(), "Invalid packet");
    assert_eq!(TunError::UnsupportedPacketType.message(), "Unsupported packet type");
    assert_eq!(TunError::other("no device".to_string()).message(), "Other error: no device");
}

#[test]
fn tun_frame_kinds() {
    assert_eq!(ETHERTYPE_IPV4, 0x0800);
    assert_eq!(frame_kind(&[]), FrameKind::TooShort);
    assert_eq!(frame_kind(&[0, 0, 8]), FrameKind::TooShort);
    assert_eq!(frame_kind(&[0, 0, 8, 0]), FrameKind::Ipv4);
    assert_eq!(frame_kind(&[1, 2, 8, 0, 0x45, 0]), FrameKind::Ipv4);
    assert_eq!(frame_kind(&[0, 0, 0x86, 0xdd, 0x60]), FrameKind::Other { ethertype: 0x86dd });
    assert_eq!(frame_kind(&[0, 0, 0, 8]), FrameKind::Other { ethertype: 0x0008 });
}

#[test]
fn tun_protocols_and_errors() {
    assert_eq!(IP_PROTOCOL_TCP, 6);
    assert!(check_protocol(6).is_ok());
    assert!(matches!(check_protocol(17), Err(TunError::UnsupportedPacketType)));
    assert!(matches!(check_protocol(1), Err(TunError::UnsupportedPacketType)));
    assert!(goes_on_after(&TunError::UnsupportedPacketType));
    assert!(!goes_on_after(&TunError::InvalidPacket));
    assert!(!goes_on_after(&TunError::TunEarlyExit));
    assert!(!goes_on_after(&TunError::Other("x".to_string())));
}

#[test]
fn info_text() {
    assert_eq!(version(), "0.1.0");
    assert_eq!(
        info(),
        "Whisper TUN/TAP Wisp Proxy version 0.1.0\n\
        Copyright (C) 2024 Endercass <https://github.com/Endercass>\n\
        Licensed under GNU GPL-3.0-or-later\n\
        Source code is available at:\n\
        <https://github.com/Endercass/whisper>"
    );
}
