//! The UDP flow table.
//!
//! Each UDP flow through the bridge, told apart by its pair of endpoints,
//! has one multiplexed stream. The table remembers which, and when the flow
//! last carried a datagram; a flow that stays silent for the idle window
//! loses its entry, and so does one whose stream failed or ended.

use crate::addr::FlowKey;
use crate::timeout::{spec_window_over, window_over};
use dashmap::DashMap;
use vstd::prelude::*;

verus! {

/// A concurrent hash map, from the `dashmap` crate.
#[verifier::external_type_specification]
#[verifier::external_body]
#[verifier::reject_recursive_types(K)]
#[verifier::reject_recursive_types(V)]
#[verifier::reject_recursive_types(S)]
pub struct ExDashMap<K, V, S>(DashMap<K, V, S>);

/// What the table knows of one flow.
#[derive(Debug, Clone, Copy, PartialEq, Eq, Structural)]
pub struct NatEntry {
    /// The handle of the multiplexed stream that carries the flow.
    pub stream: u64,
    /// When the flow last sent or received, in milliseconds.
    pub last_active: u64,
}

/// The entries that a map holds, each under its key.
pub uninterp spec fn flows_contents(flows: DashMap<FlowKey, NatEntry>) -> Map<FlowKey, NatEntry>;

/// The table without entries.
pub open spec fn spec_no_flows() -> Map<FlowKey, NatEntry> {
    Map::empty()
}

/// `DashMap::new`: a map without entries.
#[verifier::external_body]
fn flows_new() -> (table: DashMap<FlowKey, NatEntry>)
    ensures
        flows_contents(table) == spec_no_flows(),
{
    DashMap::new()
}

/// `DashMap::get`: the entry under `key`, copied out, if there is one.
#[verifier::external_body]
fn flows_get(flows: &DashMap<FlowKey, NatEntry>, key: &FlowKey) -> (entry: Option<NatEntry>)
    ensures
        entry == if flows_contents(*flows).contains_key(*key) {
            Some(flows_contents(*flows)[*key])
        } else {
            None
        },
{
    flows.get(key).map(|found| *found.value())
}

/// `DashMap::insert`: puts `entry` under `key`, in place of what was there.
/// The map is borrowed mutably, so that no other thread changes it
/// meanwhile.
#[verifier::external_body]
fn flows_insert(flows: &mut DashMap<FlowKey, NatEntry>, key: FlowKey, entry: NatEntry)
    ensures
        flows_contents(*final(flows)) == flows_contents(*old(flows)).insert(key, entry),
{
    flows.insert(key, entry);
}

/// `DashMap::remove`: takes away the entry under `key`, if there is one.
/// The map is borrowed mutably, so that no other thread changes it
/// meanwhile.
#[verifier::external_body]
fn flows_remove(flows: &mut DashMap<FlowKey, NatEntry>, key: &FlowKey)
    ensures
        flows_contents(*final(flows)) == flows_contents(*old(flows)).remove(*key),
{
    flows.remove(key);
}

/// `DashMap::retain` with the idle window as the test: the entries that are
/// not idle at `now` stay as they are, the others go. The map is borrowed
/// mutably, so that no other thread changes it meanwhile.
#[verifier::external_body]
fn flows_retain_active(flows: &mut DashMap<FlowKey, NatEntry>, now: u64)
    ensures
        flows_contents(*final(flows)) == spec_without_idle(flows_contents(*old(flows)), now),
{
    flows.retain(|_, entry| entry.live_at(now));
}

impl NatEntry {
    /// Whether the flow has been silent for the idle window at `now`.
    pub open spec fn spec_idle_at(&self, now: u64) -> bool {
        spec_window_over(self.last_active, now)
    }

    /// Whether the flow has been silent for the idle window at `now`.
    #[verifier::when_used_as_spec(spec_idle_at)]
    pub fn idle_at(&self, now: u64) -> (idle: bool)
        ensures
            idle == self.spec_idle_at(now),
    {
        window_over(self.last_active, now)
    }

    /// Whether the flow has sent or received within the idle window before
    /// `now`.
    pub fn live_at(&self, now: u64) -> (live: bool)
        ensures
            live == !self.spec_idle_at(now),
    {
        !self.idle_at(now)
    }
}

/// The entries of `flows` that are not idle at `now`.
pub open spec fn spec_without_idle(flows: Map<FlowKey, NatEntry>, now: u64) -> Map<
    FlowKey,
    NatEntry,
> {
    Map::new(|key: FlowKey| flows.contains_key(key) && !flows[key].spec_idle_at(now), |key: FlowKey| flows[key])
}

/// What to do with a datagram that the IP stack hands over.
#[derive(Debug, Clone, Copy, PartialEq, Eq, Structural)]
pub enum DatagramAction {
    /// The flow is known: send the payload through this stream.
    Forward { stream: u64 },
    /// The flow is not known: open a stream to the destination and report
    /// it with `stream_opened`.
    Open,
}

/// The table as a mathematical value.
pub struct NatState {
    pub flows: Map<FlowKey, NatEntry>,
    /// The handle that the next stream gets.
    pub next_stream: u64,
}

impl NatState {
    /// Every stream in the table got its handle from the counter, and no
    /// two flows share a stream.
    pub open spec fn wf(self) -> bool {
        &&& forall|key: FlowKey| #[trigger]
            self.flows.contains_key(key) ==> self.flows[key].stream < self.next_stream
        &&& forall|a: FlowKey, b: FlowKey|
            #![trigger self.flows[a], self.flows[b]]
            self.flows.contains_key(a) && self.flows.contains_key(b) && a != b
                ==> self.flows[a].stream != self.flows[b].stream
    }

    /// Whether `key` has an entry that is not idle at `now`.
    pub open spec fn live(self, key: FlowKey, now: u64) -> bool {
        self.flows.contains_key(key) && !self.flows[key].spec_idle_at(now)
    }

    /// The table after a datagram of flow `key` at `now`: a live entry is
    /// marked active, an idle one goes.
    pub open spec fn datagram(self, key: FlowKey, now: u64) -> NatState {
        if self.live(key, now) {
            NatState {
                flows: self.flows.insert(
                    key,
                    NatEntry { stream: self.flows[key].stream, last_active: now },
                ),
                ..self
            }
        } else {
            NatState { flows: self.flows.remove(key), ..self }
        }
    }

    /// What is done with a datagram of flow `key` at `now`.
    pub open spec fn datagram_action(self, key: FlowKey, now: u64) -> DatagramAction {
        if self.live(key, now) {
            DatagramAction::Forward { stream: self.flows[key].stream }
        } else {
            DatagramAction::Open
        }
    }

    /// The table after a stream was opened for flow `key` at `now`. With the
    /// handles used up nothing changes.
    pub open spec fn opened(self, key: FlowKey, now: u64) -> NatState {
        if self.next_stream == u64::MAX {
            self
        } else {
            NatState {
                flows: self.flows.insert(
                    key,
                    NatEntry { stream: self.next_stream, last_active: now },
                ),
                next_stream: (self.next_stream + 1) as u64,
            }
        }
    }

    /// The table after a send on flow `key` failed.
    pub open spec fn send_failed(self, key: FlowKey) -> NatState {
        NatState { flows: self.flows.remove(key), ..self }
    }

    /// Whether the entry of `key` is that of `stream`.
    pub open spec fn carries(self, key: FlowKey, stream: u64) -> bool {
        self.flows.contains_key(key) && self.flows[key].stream == stream
    }

    /// The table after `stream`, opened for flow `key`, has ended. An entry
    /// that belongs to a later stream of the same flow stays.
    pub open spec fn ended(self, key: FlowKey, stream: u64) -> NatState {
        if self.carries(key, stream) {
            NatState { flows: self.flows.remove(key), ..self }
        } else {
            self
        }
    }

    /// The table after `stream` of flow `key` has handed out a datagram at
    /// `now`.
    pub open spec fn received(self, key: FlowKey, stream: u64, now: u64) -> NatState {
        if self.carries(key, stream) {
            NatState { flows: self.flows.insert(key, NatEntry { stream, last_active: now }), ..self }
        } else {
            self
        }
    }

    /// The table without the flows that are idle at `now`.
    pub open spec fn swept(self, now: u64) -> NatState {
        NatState { flows: spec_without_idle(self.flows, now), ..self }
    }
}

/// Every step of the table keeps its invariant.
pub proof fn lemma_steps_keep_wf(state: NatState, key: FlowKey, stream: u64, now: u64)
    requires
        state.wf(),
    ensures
        state.datagram(key, now).wf(),
        state.opened(key, now).wf(),
        state.send_failed(key).wf(),
        state.ended(key, stream).wf(),
        state.received(key, stream, now).wf(),
        state.swept(now).wf(),
{
    let flows = state.flows;
    assert forall|next: NatState|
        #![trigger next.wf()]
        next.next_stream >= state.next_stream && (forall|k: FlowKey| #[trigger]
            next.flows.contains_key(k) ==> (flows.contains_key(k) && next.flows[k].stream
                == flows[k].stream) || (k == key && next.flows[k].stream == state.next_stream
                && next.next_stream > state.next_stream)) implies next.wf() by {
        assert forall|a: FlowKey, b: FlowKey|
            next.flows.contains_key(a) && next.flows.contains_key(b) && a != b
                implies #[trigger] next.flows[a].stream != #[trigger] next.flows[b].stream by {
            if flows.contains_key(a) && flows.contains_key(b) {
                assert(flows[a].stream != flows[b].stream);
            }
        }
    }
    assert(state.datagram(key, now).wf());
    assert(state.opened(key, now).wf());
    assert(state.send_failed(key).wf());
    assert(state.ended(key, stream).wf());
    assert(state.received(key, stream, now).wf());
    assert(state.swept(now).wf());
}

/// A flow that has been silent for thirty seconds or more loses its entry:
/// a sweep drops it, and so does its own next datagram, which asks for a new
/// stream. The stream that is opened for the flow after that has a handle
/// other than the one that went.
pub proof fn lemma_idle_flow_is_evicted(state: NatState, key: FlowKey, now: u64, later: u64)
    requires
        state.wf(),
        state.flows.contains_key(key),
        now - state.flows[key].last_active >= 30_000,
    ensures
        !state.swept(now).flows.contains_key(key),
        !state.datagram(key, now).flows.contains_key(key),
        state.datagram_action(key, now) == DatagramAction::Open,
        state.swept(now).datagram_action(key, later) == DatagramAction::Open,
        state.datagram(key, now).datagram_action(key, later) == DatagramAction::Open,
        state.next_stream < u64::MAX ==> {
            let reopened = state.swept(now).datagram(key, later).opened(key, later);
            &&& reopened.flows.contains_key(key)
            &&& reopened.flows[key].stream != state.flows[key].stream
            &&& reopened.flows[key].last_active == later
        },
{
}

/// A flow that is not idle keeps its entry through a sweep, and its next
/// datagram goes through the stream that it has.
pub proof fn lemma_live_flow_is_kept(state: NatState, key: FlowKey, now: u64)
    requires
        state.flows.contains_key(key),
        now - state.flows[key].last_active < 30_000,
    ensures
        state.swept(now).flows.contains_key(key),
        state.swept(now).flows[key] == state.flows[key],
        state.datagram_action(key, now) == (DatagramAction::Forward {
            stream: state.flows[key].stream,
        }),
        state.datagram(key, now).flows[key].last_active == now,
{
}

/// After a failed send, and after the end of its stream, a flow has no
/// entry, so that its next datagram asks for a new stream; the entries of
/// all other flows stay as they are.
pub proof fn lemma_failed_flow_is_dropped(state: NatState, key: FlowKey, other: FlowKey, now: u64)
    requires
        state.flows.contains_key(key),
        other != key,
    ensures
        !state.send_failed(key).flows.contains_key(key),
        state.send_failed(key).datagram_action(key, now) == DatagramAction::Open,
        !state.ended(key, state.flows[key].stream).flows.contains_key(key),
        state.send_failed(key).flows.contains_key(other) == state.flows.contains_key(other),
        state.flows.contains_key(other) ==> state.send_failed(key).flows[other]
            == state.flows[other],
{
}

/// The UDP flow table of one bridge.
pub struct UdpNat {
    flows: DashMap<FlowKey, NatEntry>,
    next_stream: u64,
}

impl View for UdpNat {
    type V = NatState;

    closed spec fn view(&self) -> NatState {
        NatState { flows: flows_contents(self.flows), next_stream: self.next_stream }
    }
}

impl UdpNat {
    /// The invariant of the table: that of its value.
    pub open spec fn wf(&self) -> bool {
        self@.wf()
    }

    /// A table without flows.
    pub fn new() -> (table: Self)
        ensures
            table.wf(),
            table@.flows == spec_no_flows(),
            table@.next_stream == 0,
    {
        Self { flows: flows_new(), next_stream: 0 }
    }

    /// The entry of flow `key`, if it has one.
    pub fn lookup(&self, key: FlowKey) -> (entry: Option<NatEntry>)
        ensures
            entry == if self@.flows.contains_key(key) {
                Some(self@.flows[key])
            } else {
                None
            },
    {
        flows_get(&self.flows, &key)
    }

    /// A datagram of flow `key` arrives from the IP stack at `now`. A flow
    /// with a live entry is forwarded through its stream and marked active.
    /// Any other flow needs a new stream; an entry that has gone idle is
    /// dropped, so that its stream is not used again.
    pub fn on_datagram(&mut self, key: FlowKey, now: u64) -> (action: DatagramAction)
        requires
            old(self).wf(),
        ensures
            final(self).wf(),
            final(self)@ == old(self)@.datagram(key, now),
            action == old(self)@.datagram_action(key, now),
    {
        proof {
            lemma_steps_keep_wf(self@, key, 0, now);
        }
        match flows_get(&self.flows, &key) {
            Some(entry) => {
                if entry.idle_at(now) {
                    flows_remove(&mut self.flows, &key);
                    DatagramAction::Open
                } else {
                    flows_insert(
                        &mut self.flows,
                        key,
                        NatEntry { stream: entry.stream, last_active: now },
                    );
                    DatagramAction::Forward { stream: entry.stream }
                }
            },
            None => {
                assert(self@.flows.remove(key) =~= self@.flows);
                DatagramAction::Open
            },
        }
    }

    /// A stream was opened for flow `key` at `now`. The flow gets an entry
    /// with a handle that no stream had before, which is returned; `None`
    /// when the handles are used up, and then nothing changes.
    pub fn stream_opened(&mut self, key: FlowKey, now: u64) -> (stream: Option<u64>)
        requires
            old(self).wf(),
        ensures
            final(self).wf(),
            final(self)@ == old(self)@.opened(key, now),
            stream == if old(self)@.next_stream == u64::MAX {
                None
            } else {
                Some(old(self)@.next_stream)
            },
    {
        proof {
            lemma_steps_keep_wf(self@, key, 0, now);
        }
        if self.next_stream == u64::MAX {
            return None;
        }
        let stream = self.next_stream;
        flows_insert(&mut self.flows, key, NatEntry { stream, last_active: now });
        self.next_stream = stream + 1;
        Some(stream)
    }

    /// A send on flow `key` failed: its entry goes.
    pub fn send_failed(&mut self, key: FlowKey)
        requires
            old(self).wf(),
        ensures
            final(self).wf(),
            final(self)@ == old(self)@.send_failed(key),
    {
        proof {
            lemma_steps_keep_wf(self@, key, 0, 0);
        }
        flows_remove(&mut self.flows, &key);
    }

    /// The receive side of `stream`, opened for flow `key`, has ended: the
    /// entry goes, unless the flow has a later stream by now.
    pub fn stream_ended(&mut self, key: FlowKey, stream: u64)
        requires
            old(self).wf(),
        ensures
            final(self).wf(),
            final(self)@ == old(self)@.ended(key, stream),
    {
        proof {
            lemma_steps_keep_wf(self@, key, stream, 0);
        }
        match flows_get(&self.flows, &key) {
            Some(entry) => {
                if entry.stream == stream {
                    flows_remove(&mut self.flows, &key);
                }
            },
            None => {},
        }
    }

    /// `stream` of flow `key` has handed out a datagram at `now`: the flow
    /// is marked active.
    pub fn received(&mut self, key: FlowKey, stream: u64, now: u64)
        requires
            old(self).wf(),
        ensures
            final(self).wf(),
            final(self)@ == old(self)@.received(key, stream, now),
    {
        proof {
            lemma_steps_keep_wf(self@, key, stream, now);
        }
        match flows_get(&self.flows, &key) {
            Some(entry) => {
                if entry.stream == stream {
                    flows_insert(&mut self.flows, key, NatEntry { stream, last_active: now });
                }
            },
            None => {},
        }
    }

    /// Drops every flow that is idle at `now`.
    pub fn evict_idle(&mut self, now: u64)
        requires
            old(self).wf(),
        ensures
            final(self).wf(),
            final(self)@ == old(self)@.swept(now),
    {
        proof {
            lemma_steps_keep_wf(self@, arbitrary(), 0, now);
        }
        flows_retain_active(&mut self.flows, now);
    }
}

} // verus!
