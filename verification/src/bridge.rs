//! The bridge between the IP stack and the multiplexed session.
//!
//! A bridge runs five tasks side by side and is over as soon as the first
//! of them is. The flows that it has handed to tasks of their own are not
//! part of that: they end by themselves, one by one, and what happens to
//! one of them touches neither the bridge nor the others.

use crate::addr::SocketAddress;
use crate::wisp::packet::StreamType;
use std::collections::HashSet;
use vstd::prelude::*;

verus! {

broadcast use vstd::std_specs::hash::group_hash_axioms;

/// The tasks that make up a running bridge.
#[derive(Debug, Clone, Copy, PartialEq, Eq, Structural)]
pub enum BridgeTask {
    /// Carries frames from the IP stack to the TUN device.
    InboundPump,
    /// Carries frames from the TUN device to the IP stack.
    OutboundPump,
    /// Takes up the TCP flows that the IP stack hands over.
    TcpAccept,
    /// Takes up the UDP datagrams that the IP stack hands over.
    UdpAccept,
    /// Waits for the signal to shut down.
    ShutdownWaiter,
}

/// How a task came to its end.
#[derive(Debug, Clone, Copy, PartialEq, Eq, Structural)]
pub enum TaskExit {
    /// The task ran to its end.
    Completed,
    /// The task panicked or was cancelled.
    Failed,
}

/// The stream that a flow needs from the session.
#[derive(Debug, Clone, Copy, PartialEq, Eq, Structural)]
pub struct StreamRequest {
    pub stream_type: StreamType,
    /// The stream goes to the address and port that the flow was meant for.
    pub destination: SocketAddress,
}

/// How the forwarding of one TCP flow came to its end.
#[derive(Debug, Clone, Copy, PartialEq, Eq, Structural)]
pub enum FlowOutcome {
    /// Both sides were closed in order.
    Completed,
    /// The local socket reported that it was closed already.
    LocalAlreadyClosed,
    /// The session opened no stream for the flow.
    OpenFailed,
    /// Copying failed in any other way.
    Failed,
}

/// What is said of a flow that has ended.
#[derive(Debug, Clone, Copy, PartialEq, Eq, Structural)]
pub enum FlowReport {
    /// Nothing is wrong: the end is noted and no more.
    Disconnected,
    /// The failure is logged.
    LogError,
}

/// What a frame pump does with what it has read.
#[derive(Debug)]
pub enum PumpStep<T> {
    /// Write the frame to the other side.
    Forward(T),
    /// A read failed: go on with the next.
    Skip,
    /// The source has ended: the pump is done.
    Stop,
}

/// One step of a frame pump: a frame is carried over, a failed read is
/// passed over, and the end of the source ends the pump.
pub fn pump_step<T, E>(item: Option<Result<T, E>>) -> (step: PumpStep<T>)
    ensures
        step == match item {
            Some(Ok(frame)) => PumpStep::<T>::Forward(frame),
            Some(Err(_)) => PumpStep::<T>::Skip,
            None => PumpStep::<T>::Stop,
        },
{
    match item {
        Some(Ok(frame)) => PumpStep::Forward(frame),
        Some(Err(_)) => PumpStep::Skip,
        None => PumpStep::Stop,
    }
}

/// The stream for a TCP flow to `destination`.
pub fn tcp_stream_request(destination: SocketAddress) -> (request: StreamRequest)
    ensures
        request == (StreamRequest { stream_type: StreamType::Tcp, destination }),
{
    StreamRequest { stream_type: StreamType::Tcp, destination }
}

/// The stream for a UDP flow to `destination`.
pub fn udp_stream_request(destination: SocketAddress) -> (request: StreamRequest)
    ensures
        request == (StreamRequest { stream_type: StreamType::Udp, destination }),
{
    StreamRequest { stream_type: StreamType::Udp, destination }
}

/// What is said of a flow that ended with `outcome`. A local socket that
/// was closed already is the ordinary end of a flow; any other failure is
/// logged.
pub open spec fn spec_flow_report(outcome: FlowOutcome) -> FlowReport {
    match outcome {
        FlowOutcome::Completed => FlowReport::Disconnected,
        FlowOutcome::LocalAlreadyClosed => FlowReport::Disconnected,
        FlowOutcome::OpenFailed => FlowReport::LogError,
        FlowOutcome::Failed => FlowReport::LogError,
    }
}

/// What is said of a flow that ended with `outcome`.
#[verifier::when_used_as_spec(spec_flow_report)]
pub fn flow_report(outcome: FlowOutcome) -> (report: FlowReport)
    ensures
        report == spec_flow_report(outcome),
{
    match outcome {
        FlowOutcome::Completed => FlowReport::Disconnected,
        FlowOutcome::LocalAlreadyClosed => FlowReport::Disconnected,
        FlowOutcome::OpenFailed => FlowReport::LogError,
        FlowOutcome::Failed => FlowReport::LogError,
    }
}

/// A bridge as a mathematical value.
pub struct BridgeState {
    /// The task that ended first and how, once one has.
    pub first_exit: Option<(BridgeTask, TaskExit)>,
    /// The TCP flows that are being forwarded.
    pub open_flows: Set<u64>,
    /// The handle that the next flow gets.
    pub next_flow: u64,
}

impl BridgeState {
    /// No open flow has a handle that is still to be given out.
    pub open spec fn wf(self) -> bool {
        forall|flow: u64| #[trigger] self.open_flows.contains(flow) ==> flow < self.next_flow
    }

    /// Whether the bridge is over.
    pub open spec fn finished(self) -> bool {
        self.first_exit is Some
    }

    /// The result of the bridge: that of the task that ended first.
    pub open spec fn result(self) -> Option<Result<(), BridgeTask>> {
        match self.first_exit {
            None => None,
            Some((_, TaskExit::Completed)) => Some(Ok(())),
            Some((task, TaskExit::Failed)) => Some(Err(task)),
        }
    }

    /// The bridge after `task` has ended: the first task to end decides,
    /// and a later one changes nothing.
    pub open spec fn task_finished(self, task: BridgeTask, exit: TaskExit) -> BridgeState {
        if self.first_exit is None {
            BridgeState { first_exit: Some((task, exit)), ..self }
        } else {
            self
        }
    }

    /// The bridge after a TCP flow was taken up. With the handles used up
    /// nothing changes.
    pub open spec fn flow_accepted(self) -> BridgeState {
        if self.next_flow == u64::MAX {
            self
        } else {
            BridgeState {
                open_flows: self.open_flows.insert(self.next_flow),
                next_flow: (self.next_flow + 1) as u64,
                ..self
            }
        }
    }

    /// The bridge after TCP flow `flow` has ended, in whatever way.
    pub open spec fn flow_ended(self, flow: u64) -> BridgeState {
        BridgeState { open_flows: self.open_flows.remove(flow), ..self }
    }
}

/// The state of one bridge.
pub struct Bridge {
    first_exit: Option<(BridgeTask, TaskExit)>,
    open_flows: HashSet<u64>,
    next_flow: u64,
}

impl View for Bridge {
    type V = BridgeState;

    closed spec fn view(&self) -> BridgeState {
        BridgeState {
            first_exit: self.first_exit,
            open_flows: self.open_flows@,
            next_flow: self.next_flow,
        }
    }
}

impl Bridge {
    /// The invariant of the bridge: that of its value.
    pub open spec fn wf(&self) -> bool {
        self@.wf()
    }

    /// A bridge whose tasks all run and which forwards no flow yet.
    pub fn new() -> (bridge: Self)
        ensures
            bridge.wf(),
            bridge@.first_exit is None,
            bridge@.open_flows == Set::<u64>::empty(),
            bridge@.next_flow == 0,
    {
        Self { first_exit: None, open_flows: HashSet::new(), next_flow: 0 }
    }

    /// One of the five tasks has ended. If it is the first, the bridge is
    /// over with its result, which is returned; the flows stay as they are.
    pub fn task_finished(&mut self, task: BridgeTask, exit: TaskExit) -> (result: Option<
        Result<(), BridgeTask>,
    >)
        ensures
            final(self)@ == old(self)@.task_finished(task, exit),
            result == if old(self)@.finished() {
                None
            } else {
                final(self)@.result()
            },
    {
        if self.first_exit.is_some() {
            return None;
        }
        self.first_exit = Some((task, exit));
        match exit {
            TaskExit::Completed => Some(Ok(())),
            TaskExit::Failed => Some(Err(task)),
        }
    }

    /// The result of the bridge, once it is over.
    pub fn result(&self) -> (result: Option<Result<(), BridgeTask>>)
        ensures
            result == self@.result(),
    {
        match self.first_exit {
            None => None,
            Some((_, TaskExit::Completed)) => Some(Ok(())),
            Some((task, TaskExit::Failed)) => Some(Err(task)),
        }
    }

    /// The number of TCP flows that are being forwarded.
    pub fn open_flow_count(&self) -> (count: usize)
        ensures
            count == self@.open_flows.len(),
    {
        self.open_flows.len()
    }

    /// Whether TCP flow `flow` is being forwarded.
    pub fn is_open(&self, flow: u64) -> (open: bool)
        ensures
            open == self@.open_flows.contains(flow),
    {
        self.open_flows.contains(&flow)
    }

    /// The IP stack hands over a TCP flow to `destination`. The flow gets a
    /// handle that no flow had before, and the stream to ask the session
    /// for; `None` when the handles are used up, and then nothing changes.
    pub fn tcp_flow_accepted(&mut self, destination: SocketAddress) -> (accepted: Option<
        (u64, StreamRequest),
    >)
        requires
            old(self).wf(),
        ensures
            final(self).wf(),
            final(self)@ == old(self)@.flow_accepted(),
            accepted == if old(self)@.next_flow == u64::MAX {
                None
            } else {
                Some(
                    (
                        old(self)@.next_flow,
                        StreamRequest { stream_type: StreamType::Tcp, destination },
                    ),
                )
            },
    {
        if self.next_flow == u64::MAX {
            return None;
        }
        let flow = self.next_flow;
        self.open_flows.insert(flow);
        self.next_flow = flow + 1;
        Some((flow, tcp_stream_request(destination)))
    }

    /// TCP flow `flow` has ended with `outcome`. The flow is no longer open;
    /// every other flow is, and the bridge is over or not as it was before.
    pub fn tcp_flow_ended(&mut self, flow: u64, outcome: FlowOutcome) -> (report: FlowReport)
        requires
            old(self).wf(),
        ensures
            final(self).wf(),
            final(self)@ == old(self)@.flow_ended(flow),
            report == spec_flow_report(outcome),
    {
        self.open_flows.remove(&flow);
        flow_report(outcome)
    }
}

/// The first task to end decides the bridge: from then on it is over, and
/// no later end of a task changes its result.
pub proof fn lemma_first_exit_wins(
    state: BridgeState,
    first: BridgeTask,
    first_exit: TaskExit,
    later: BridgeTask,
    later_exit: TaskExit,
)
    requires
        !state.finished(),
    ensures
        state.task_finished(first, first_exit).finished(),
        state.task_finished(first, first_exit).result() == Some(
            match first_exit {
                TaskExit::Completed => Ok::<(), BridgeTask>(()),
                TaskExit::Failed => Err::<(), BridgeTask>(first),
            },
        ),
        state.task_finished(first, first_exit).task_finished(later, later_exit)
            == state.task_finished(first, first_exit),
        state.task_finished(first, first_exit).open_flows == state.open_flows,
{
}

/// The end of a flow, whatever its outcome, leaves the bridge running if it
/// was, and leaves every other flow open.
pub proof fn lemma_flow_end_is_contained(state: BridgeState, flow: u64, other: u64)
    requires
        other != flow,
    ensures
        state.flow_ended(flow).first_exit == state.first_exit,
        state.flow_ended(flow).finished() == state.finished(),
        state.flow_ended(flow).open_flows.contains(other) == state.open_flows.contains(other),
        !state.flow_ended(flow).open_flows.contains(flow),
{
}

} // verus!
