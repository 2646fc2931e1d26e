use whisper::addr::{flow_key, reply_route, FlowKey, SocketAddress};
use whisper::bridge::{
    flow_report, pump_step, tcp_stream_request, udp_stream_request, Bridge, BridgeTask,
    FlowOutcome, FlowReport, PumpStep, StreamRequest, TaskExit,
};
use whisper::timeout::{window_over, IdleTimer, NextStep, ReadyStep, IDLE_WINDOW_MS};
use whisper::udp_nat::{DatagramAction, NatEntry, UdpNat};
use whisper::wisp::packet::StreamType;
use whisper::WhisperEvent;

fn v4(a: u8, b: u8, c: u8, d: u8, port: u16) -> SocketAddress {
    SocketAddress::V4 { ip: u32::from_be_bytes([a, b, c, d]), port }
}

fn key(n: u16) -> FlowKey {
    flow_key(v4(10, 0, 10, 2, n), v4(1, 1, 1, 1, 53))
}

#[test]
fn socket_address_keys() {
    let a = v4(10, 0, 10, 2, 4000);
    assert_eq!(a.port(), 4000);
    assert_eq!(a.key(), (false, 0x0a00_0a02u128, 4000, 0, 0));
    let b = SocketAddress::V6 { ip: 0x0a00_0a02, port: 4000, flowinfo: 7, scope_id: 9 };
    assert_eq!(b.port(), 4000);
    assert_eq!(b.key(), (true, 0x0a00_0a02u128, 4000, 7, 9));
    assert_ne!(a.key(), SocketAddress::V6 { ip: 0x0a00_0a02, port: 4000, flowinfo: 0, scope_id: 0 }.key());
}

#[test]
fn flow_keys_and_their_reverse() {
    let source = v4(10, 0, 10, 2, 4000);
    let destination = v4(8, 8, 8, 8, 53);
    let k = flow_key(source, destination);
    assert_eq!(k, (source.key(), destination.key()));
    let (from, to) = reply_route(source, destination);
    assert_eq!((from, to), (destination, source));
    assert_eq!(flow_key(from, to), (destination.key(), source.key()));
    assert_ne!(flow_key(from, to), k);
    assert_eq!(reply_route(from, to), (source, destination));
}

#[test]
fn idle_window_is_thirty_seconds() {
    assert_eq!(IDLE_WINDOW_MS, 30_000);
    assert!(!window_over(1_000, 1_000));
    assert!(!window_over(1_000, 30_999));
    assert!(window_over(1_000, 31_000));
    assert!(window_over(1_000, 90_000));
    assert!(!window_over(50_000, 1_000));
    assert!(window_over(0, u64::MAX));
}

#[test]
fn idle_timer_fires_after_the_window() {
    let timer = IdleTimer::new(5_000);
    assert!(!timer.fired(5_000));
    assert!(!timer.fired(34_999));
    assert!(timer.fired(35_000));
    assert_eq!(timer.poll_ready(34_999), ReadyStep::PollInner);
    assert_eq!(timer.poll_ready(35_000), ReadyStep::TimedOut);
}

#[test]
fn idle_timer_is_reset_by_traffic() {
    let mut timer = IdleTimer::new(0);
    assert_eq!(timer.poll_next(29_999), NextStep::PollInner);
    assert!(!timer.fired(30_000));
    assert!(!timer.fired(59_998));
    assert!(timer.fired(59_999));
    timer.start_send(59_000);
    assert!(!timer.fired(88_999));
    assert!(timer.fired(89_000));
}

#[test]
fn idle_timer_that_fired_ends_the_stream_for_good() {
    let mut timer = IdleTimer::new(0);
    assert_eq!(timer.poll_next(30_000), NextStep::End);
    assert_eq!(timer.poll_next(30_001), NextStep::End);
    assert_eq!(timer.poll_next(1_000_000), NextStep::End);
    assert_eq!(timer.poll_ready(1_000_000), ReadyStep::TimedOut);
}

#[test]
fn nat_first_datagram_opens_a_stream() {
    let mut nat = UdpNat::new();
    assert_eq!(nat.lookup(key(1)), None);
    assert_eq!(nat.on_datagram(key(1), 100), DatagramAction::Open);
    assert_eq!(nat.lookup(key(1)), None);
    assert_eq!(nat.stream_opened(key(1), 100), Some(0));
    assert_eq!(nat.lookup(key(1)), Some(NatEntry { stream: 0, last_active: 100 }));
}

#[test]
fn nat_known_flow_is_forwarded_and_marked_active() {
    let mut nat = UdpNat::new();
    nat.stream_opened(key(1), 100);
    assert_eq!(nat.on_datagram(key(1), 20_000), DatagramAction::Forward { stream: 0 });
    assert_eq!(nat.lookup(key(1)), Some(NatEntry { stream: 0, last_active: 20_000 }));
    assert_eq!(nat.on_datagram(key(1), 49_999), DatagramAction::Forward { stream: 0 });
    assert_eq!(nat.lookup(key(1)), Some(NatEntry { stream: 0, last_active: 49_999 }));
}

#[test]
fn nat_flows_get_streams_of_their_own() {
    let mut nat = UdpNat::new();
    assert_eq!(nat.stream_opened(key(1), 0), Some(0));
    assert_eq!(nat.stream_opened(key(2), 0), Some(1));
    assert_eq!(nat.stream_opened(key(3), 0), Some(2));
    assert_eq!(nat.on_datagram(key(2), 1), DatagramAction::Forward { stream: 1 });
    assert_eq!(nat.on_datagram(key(3), 1), DatagramAction::Forward { stream: 2 });
    assert_eq!(nat.on_datagram(key(4), 1), DatagramAction::Open);
    let (from, to) = reply_route(v4(10, 0, 10, 2, 1), v4(1, 1, 1, 1, 53));
    assert_eq!(nat.on_datagram(flow_key(from, to), 1), DatagramAction::Open);
}

#[test]
fn nat_idle_flow_is_evicted_and_reopened_with_a_new_stream() {
    let mut nat = UdpNat::new();
    assert_eq!(nat.stream_opened(key(1), 1_000), Some(0));
    assert_eq!(nat.on_datagram(key(1), 31_000), DatagramAction::Open);
    assert_eq!(nat.lookup(key(1)), None);
    assert_eq!(nat.stream_opened(key(1), 31_000), Some(1));
    assert_eq!(nat.on_datagram(key(1), 31_001), DatagramAction::Forward { stream: 1 });
}

#[test]
fn nat_sweep_drops_idle_flows_only() {
    let mut nat = UdpNat::new();
    nat.stream_opened(key(1), 0);
    nat.stream_opened(key(2), 10_000);
    nat.stream_opened(key(3), 29_999);
    nat.evict_idle(30_000);
    assert_eq!(nat.lookup(key(1)), None);
    assert_eq!(nat.lookup(key(2)), Some(NatEntry { stream: 1, last_active: 10_000 }));
    assert_eq!(nat.lookup(key(3)), Some(NatEntry { stream: 2, last_active: 29_999 }));
    nat.evict_idle(40_000);
    assert_eq!(nat.lookup(key(2)), None);
    assert_eq!(nat.lookup(key(3)), Some(NatEntry { stream: 2, last_active: 29_999 }));
    assert_eq!(nat.on_datagram(key(1), 40_000), DatagramAction::Open);
}

#[test]
fn nat_send_failure_drops_the_flow() {
    let mut nat = UdpNat::new();
    nat.stream_opened(key(1), 0);
    nat.stream_opened(key(2), 0);
    nat.send_failed(key(1));
    assert_eq!(nat.lookup(key(1)), None);
    assert_eq!(nat.lookup(key(2)), Some(NatEntry { stream: 1, last_active: 0 }));
    assert_eq!(nat.on_datagram(key(1), 5), DatagramAction::Open);
    nat.send_failed(key(9));
    assert_eq!(nat.lookup(key(2)), Some(NatEntry { stream: 1, last_active: 0 }));
}

#[test]
fn nat_end_of_stream_drops_its_own_entry_only() {
    let mut nat = UdpNat::new();
    nat.stream_opened(key(1), 0);
    nat.stream_ended(key(1), 0);
    assert_eq!(nat.lookup(key(1)), None);
    assert_eq!(nat.stream_opened(key(1), 10), Some(1));
    nat.stream_ended(key(1), 0);
    assert_eq!(nat.lookup(key(1)), Some(NatEntry { stream: 1, last_active: 10 }));
    nat.stream_ended(key(1), 1);
    assert_eq!(nat.lookup(key(1)), None);
}

#[test]
fn nat_receive_marks_the_flow_active() {
    let mut nat = UdpNat::new();
    nat.stream_opened(key(1), 0);
    nat.received(key(1), 0, 25_000);
    assert_eq!(nat.lookup(key(1)), Some(NatEntry { stream: 0, last_active: 25_000 }));
    assert_eq!(nat.on_datagram(key(1), 54_999), DatagramAction::Forward { stream: 0 });
    nat.received(key(1), 7, 60_000);
    assert_eq!(nat.lookup(key(1)), Some(NatEntry { stream: 0, last_active: 54_999 }));
    nat.received(key(2), 0, 60_000);
    assert_eq!(nat.lookup(key(2)), None);
}

#[test]
fn nat_entry_idle_at() {
    let entry = NatEntry { stream: 3, last_active: 100 };
    assert!(!entry.idle_at(100));
    assert!(!entry.idle_at(30_099));
    assert!(entry.idle_at(30_100));
    assert!(!entry.idle_at(0));
    assert!(entry.live_at(30_099));
    assert!(!entry.live_at(30_100));
}

#[test]
fn stream_requests_name_the_destination() {
    let destination = v4(93, 184, 216, 34, 443);
    assert_eq!(
        tcp_stream_request(destination),
        StreamRequest { stream_type: StreamType::Tcp, destination }
    );
    assert_eq!(
        udp_stream_request(destination),
        StreamRequest { stream_type: StreamType::Udp, destination }
    );
}

#[test]
fn pump_steps() {
    let frame: Option<Result<Vec<u8>, String>> = Some(Ok(vec![1, 2, 3]));
    assert!(matches!(pump_step(frame), PumpStep::Forward(f) if f == vec![1, 2, 3]));
    let failed: Option<Result<Vec<u8>, String>> = Some(Err("bad frame".to_string()));
    assert!(matches!(pump_step(failed), PumpStep::Skip));
    let ended: Option<Result<Vec<u8>, String>> = None;
    assert!(matches!(pump_step(ended), PumpStep::Stop));
}

#[test]
fn flow_reports() {
    assert_eq!(flow_report(FlowOutcome::Completed), FlowReport::Disconnected);
    assert_eq!(flow_report(FlowOutcome::LocalAlreadyClosed), FlowReport::Disconnected);
    assert_eq!(flow_report(FlowOutcome::OpenFailed), FlowReport::LogError);
    assert_eq!(flow_report(FlowOutcome::Failed), FlowReport::LogError);
}

#[test]
fn bridge_resolves_when_the_shutdown_waiter_fires() {
    let mut bridge = Bridge::new();
    let (first, _) = bridge.tcp_flow_accepted(v4(1, 2, 3, 4, 80)).unwrap();
    let (second, _) = bridge.tcp_flow_accepted(v4(1, 2, 3, 4, 443)).unwrap();
    assert_eq!(bridge.result(), None);
    let event = WhisperEvent::EndFut;
    assert_eq!(event, WhisperEvent::EndFut);
    assert_eq!(
        bridge.task_finished(BridgeTask::ShutdownWaiter, TaskExit::Completed),
        Some(Ok(()))
    );
    assert_eq!(bridge.result(), Some(Ok(())));
    assert!(bridge.is_open(first));
    assert!(bridge.is_open(second));
    assert_eq!(bridge.open_flow_count(), 2);
    assert_eq!(bridge.tcp_flow_ended(first, FlowOutcome::Completed), FlowReport::Disconnected);
    assert_eq!(bridge.open_flow_count(), 1);
    assert_eq!(bridge.result(), Some(Ok(())));
}

#[test]
fn bridge_first_task_to_finish_wins() {
    let mut bridge = Bridge::new();
    assert_eq!(
        bridge.task_finished(BridgeTask::OutboundPump, TaskExit::Failed),
        Some(Err(BridgeTask::OutboundPump))
    );
    assert_eq!(bridge.task_finished(BridgeTask::ShutdownWaiter, TaskExit::Completed), None);
    assert_eq!(bridge.task_finished(BridgeTask::InboundPump, TaskExit::Failed), None);
    assert_eq!(bridge.result(), Some(Err(BridgeTask::OutboundPump)));
}

#[test]
fn bridge_any_of_the_five_tasks_ends_it() {
    for task in [
        BridgeTask::InboundPump,
        BridgeTask::OutboundPump,
        BridgeTask::TcpAccept,
        BridgeTask::UdpAccept,
        BridgeTask::ShutdownWaiter,
    ] {
        let mut bridge = Bridge::new();
        assert_eq!(bridge.task_finished(task, TaskExit::Completed), Some(Ok(())));
        let mut bridge = Bridge::new();
        assert_eq!(bridge.task_finished(task, TaskExit::Failed), Some(Err(task)));
    }
}

#[test]
fn bridge_flow_error_is_contained() {
    let mut bridge = Bridge::new();
    let (a, request) = bridge.tcp_flow_accepted(v4(1, 2, 3, 4, 80)).unwrap();
    assert_eq!(request, StreamRequest { stream_type: StreamType::Tcp, destination: v4(1, 2, 3, 4, 80) });
    let (b, _) = bridge.tcp_flow_accepted(v4(5, 6, 7, 8, 22)).unwrap();
    let (c, _) = bridge.tcp_flow_accepted(v4(9, 9, 9, 9, 53)).unwrap();
    assert_eq!((a, b, c), (0, 1, 2));
    assert_eq!(bridge.tcp_flow_ended(b, FlowOutcome::Failed), FlowReport::LogError);
    assert_eq!(bridge.result(), None);
    assert!(bridge.is_open(a));
    assert!(!bridge.is_open(b));
    assert!(bridge.is_open(c));
    assert_eq!(bridge.open_flow_count(), 2);
    assert_eq!(bridge.tcp_flow_ended(a, FlowOutcome::OpenFailed), FlowReport::LogError);
    assert_eq!(bridge.tcp_flow_ended(c, FlowOutcome::LocalAlreadyClosed), FlowReport::Disconnected);
    assert_eq!(bridge.result(), None);
    assert_eq!(bridge.open_flow_count(), 0);
}
