//! Socket addresses as plain numbers.
//!
//! The bridge finds a flow again by the pair of its endpoints, and the
//! lifecycle remembers where the upstream session was connected to. Both
//! hold an address as the integers it is made of.

use vstd::prelude::*;

verus! {

/// The integers that tell one endpoint from every other: whether it is an
/// IPv6 endpoint, the address, the port, and the flow information and scope
/// of an IPv6 endpoint (both zero for IPv4).
pub type EndpointKey = (bool, u128, u16, u32, u32);

/// The pair of endpoints of a flow: where it comes from, where it goes.
pub type FlowKey = (EndpointKey, EndpointKey);

/// An IP address and a port.
#[derive(Debug, Clone, Copy, PartialEq, Eq, Structural)]
#[allow(inconsistent_fields)]
pub enum SocketAddress {
    /// An IPv4 endpoint; `ip` holds the four octets, the first one highest.
    V4 { ip: u32, port: u16 },
    /// An IPv6 endpoint; `ip` holds the sixteen octets, the first one highest.
    V6 { ip: u128, port: u16, flowinfo: u32, scope_id: u32 },
}

impl SocketAddress {
    pub open spec fn spec_port(&self) -> u16 {
        match *self {
            SocketAddress::V4 { port, .. } => port,
            SocketAddress::V6 { port, .. } => port,
        }
    }

    pub open spec fn spec_key(&self) -> EndpointKey {
        match *self {
            SocketAddress::V4 { ip, port } => (false, ip as u128, port, 0u32, 0u32),
            SocketAddress::V6 { ip, port, flowinfo, scope_id } => (
                true,
                ip,
                port,
                flowinfo,
                scope_id,
            ),
        }
    }

    /// The port of the endpoint.
    #[verifier::when_used_as_spec(spec_port)]
    pub fn port(&self) -> (port: u16)
        ensures
            port == self.spec_port(),
    {
        match self {
            SocketAddress::V4 { port, .. } => *port,
            SocketAddress::V6 { port, .. } => *port,
        }
    }

    /// The integers by which the endpoint is found again.
    #[verifier::when_used_as_spec(spec_key)]
    pub fn key(&self) -> (key: EndpointKey)
        ensures
            key == self.spec_key(),
    {
        match self {
            SocketAddress::V4 { ip, port } => (false, *ip as u128, *port, 0u32, 0u32),
            SocketAddress::V6 { ip, port, flowinfo, scope_id } => (
                true,
                *ip,
                *port,
                *flowinfo,
                *scope_id,
            ),
        }
    }
}

/// The key of the flow from `source` to `destination`.
pub open spec fn spec_flow_key(source: SocketAddress, destination: SocketAddress) -> FlowKey {
    (source.spec_key(), destination.spec_key())
}

/// The key of the flow from `source` to `destination`.
#[verifier::when_used_as_spec(spec_flow_key)]
pub fn flow_key(source: SocketAddress, destination: SocketAddress) -> (key: FlowKey)
    ensures
        key == spec_flow_key(source, destination),
{
    (source.key(), destination.key())
}

/// The flow that answers `key`: its endpoints the other way round.
pub open spec fn spec_reversed(key: FlowKey) -> FlowKey {
    (key.1, key.0)
}

/// The endpoints between which the answer to a datagram travels: it comes
/// from where the datagram went, and goes to where the datagram came from.
pub fn reply_route(source: SocketAddress, destination: SocketAddress) -> (route: (
    SocketAddress,
    SocketAddress,
))
    ensures
        route == (destination, source),
        spec_flow_key(route.0, route.1) == spec_reversed(spec_flow_key(source, destination)),
{
    (destination, source)
}

/// Two endpoints with the same key are the same endpoint.
pub proof fn lemma_key_tells_apart(a: SocketAddress, b: SocketAddress)
    requires
        a.spec_key() == b.spec_key(),
    ensures
        a == b,
{
}

/// Two flows with the same key have the same endpoints.
pub proof fn lemma_flow_key_tells_apart(
    a_source: SocketAddress,
    a_destination: SocketAddress,
    b_source: SocketAddress,
    b_destination: SocketAddress,
)
    requires
        spec_flow_key(a_source, a_destination) == spec_flow_key(b_source, b_destination),
    ensures
        a_source == b_source,
        a_destination == b_destination,
{
}

} // verus!
