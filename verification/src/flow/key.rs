//! Identifying which conversation a packet belongs to.
//!
//! A flow is one conversation between two endpoints. The same conversation
//! arrives as packets going both ways, and the tool must not report those as
//! two separate things: the identity of a flow is independent of which
//! direction a packet happened to be travelling, and of which packet arrived
//! first.
//!
//! Endpoints are ordered by address and then by port, every IPv4 address
//! before every IPv6 one, and addresses of one family by their octets read as
//! a big-endian number. The order is written here as a rank, one integer per
//! endpoint, so that contracts can compare endpoints and keys with `<`.

use vstd::prelude::*;

use crate::decode::model::{DecodedPacketView, NetworkLayerView};
use crate::decode::types::{IpAddress, Ipv4Address, Ipv6Address};
use crate::decode::{DecodedPacket, NetworkLayer, TransportLayer};

verus! {

/// The octets of `s` read as one big-endian number.
pub open spec fn be_value(s: Seq<u8>) -> nat
    decreases s.len(),
{
    if s.len() == 0 {
        0
    } else {
        be_value(s.drop_last()) * 256 + s.last() as nat
    }
}

/// `256` to the power `n`: one more than the largest `n`-octet number.
pub open spec fn be_limit(n: nat) -> nat
    decreases n,
{
    if n == 0 {
        1
    } else {
        be_limit((n - 1) as nat) * 256
    }
}

/// `2^128`, where the IPv6 addresses start in the address order.
pub open spec fn ipv6_base() -> int {
    0x1_0000_0000_0000_0000_0000_0000_0000_0000int
}

/// `2^145`, one more than the largest endpoint rank.
pub open spec fn endpoint_span() -> int {
    0x2_0000_0000_0000_0000_0000_0000_0000_0000_0000int
}

/// An address's place in the endpoint order: IPv4 addresses by their value,
/// then IPv6 addresses by theirs.
pub open spec fn address_rank(address: IpAddress) -> int {
    match address {
        IpAddress::V4(v4) => be_value(v4.0@) as int,
        IpAddress::V6(v6) => ipv6_base() + be_value(v6.0@),
    }
}

/// One end of a conversation.
#[derive(Debug, Clone, Copy, PartialEq, Eq, PartialOrd, Ord, Hash)]
pub struct Endpoint {
    /// The host's address.
    pub address: IpAddress,
    /// The transport port.
    pub port: u16,
}

/// An endpoint's place in the order: by address, then by port.
pub open spec fn endpoint_rank(endpoint: Endpoint) -> int {
    address_rank(endpoint.address) * 65_536 + endpoint.port
}

impl Endpoint {
    /// Builds an endpoint.
    pub fn new(address: IpAddress, port: u16) -> (endpoint: Self)
        ensures
            endpoint.address == address,
            endpoint.port == port,
    {
        Self { address, port }
    }
}

/// The transport protocols NetSentry forms flows for.
///
/// Narrower than `IpProtocol` on purpose: a flow can only exist for a
/// protocol with ports, so an ICMP flow cannot be constructed by mistake.
#[derive(Debug, Clone, Copy, PartialEq, Eq, PartialOrd, Ord, Hash)]
pub enum FlowProtocol {
    /// TCP.
    Tcp,
    /// UDP.
    Udp,
}

/// A protocol's place in the key order: TCP before UDP.
pub open spec fn protocol_rank(protocol: FlowProtocol) -> int {
    match protocol {
        FlowProtocol::Tcp => 0,
        FlowProtocol::Udp => 1,
    }
}

impl FlowProtocol {
    /// The protocol's usual name.
    pub open spec fn spec_label(self) -> &'static str {
        match self {
            FlowProtocol::Tcp => "TCP",
            FlowProtocol::Udp => "UDP",
        }
    }

    /// The protocol's usual name.
    pub fn label(self) -> (label: &'static str)
        ensures
            label == self.spec_label(),
    {
        match self {
            Self::Tcp => "TCP",
            Self::Udp => "UDP",
        }
    }
}

/// Which way along a flow a packet was travelling.
#[derive(Debug, Clone, Copy, PartialEq, Eq, Structural)]
pub enum Direction {
    /// From endpoint A towards endpoint B.
    AtoB,
    /// From endpoint B towards endpoint A.
    BtoA,
}

/// The identity of one bidirectional conversation.
///
/// The two endpoints are kept in a fixed order, the lower one as A, so that
/// the key is a property of the conversation rather than of the packet that
/// happened to be seen first.
#[derive(Debug, Clone, Copy, PartialEq, Eq, PartialOrd, Ord, Hash)]
pub struct FlowKey {
    /// The transport protocol.
    pub protocol: FlowProtocol,
    /// The lower-ordered endpoint.
    pub a: Endpoint,
    /// The higher-ordered endpoint.
    pub b: Endpoint,
}

/// A key's place in the key order: by protocol, then by A, then by B.
pub open spec fn key_rank(key: FlowKey) -> int {
    (protocol_rank(key.protocol) * endpoint_span() + endpoint_rank(key.a)) * endpoint_span()
        + endpoint_rank(key.b)
}

/// The canonical key of a packet travelling from `source` to `destination`,
/// with the direction that is.
pub open spec fn spec_canonical(protocol: FlowProtocol, source: Endpoint, destination: Endpoint) -> (
    FlowKey,
    Direction,
) {
    if endpoint_rank(source) <= endpoint_rank(destination) {
        (FlowKey { protocol, a: source, b: destination }, Direction::AtoB)
    } else {
        (FlowKey { protocol, a: destination, b: source }, Direction::BtoA)
    }
}

/// The source and destination addresses of an IP header.
pub open spec fn packet_addresses(network: NetworkLayerView) -> Option<(IpAddress, IpAddress)> {
    match network {
        NetworkLayerView::Ipv4(header) => Some(
            (IpAddress::V4(header.source), IpAddress::V4(header.destination)),
        ),
        NetworkLayerView::Ipv6(header) => Some(
            (IpAddress::V6(header.source), IpAddress::V6(header.destination)),
        ),
        NetworkLayerView::Arp(_) => None,
    }
}

/// The protocol and the source and destination ports of a transport header
/// that has ports.
pub open spec fn packet_ports(transport: TransportLayer) -> Option<(FlowProtocol, u16, u16)> {
    match transport {
        TransportLayer::Tcp(segment) => Some(
            (FlowProtocol::Tcp, segment.source_port, segment.destination_port),
        ),
        TransportLayer::Udp(datagram) => Some(
            (FlowProtocol::Udp, datagram.source_port, datagram.destination_port),
        ),
        TransportLayer::Icmp(_) => None,
    }
}

/// The flow a decoded packet belongs to, with its direction: present exactly
/// when the packet has an IP header and a TCP or UDP header.
pub open spec fn spec_from_packet(packet: DecodedPacketView) -> Option<(FlowKey, Direction)> {
    match (packet.network, packet.transport) {
        (Some(network), Some(transport)) => match (
            packet_addresses(network),
            packet_ports(transport),
        ) {
            (Some((source, destination)), Some((protocol, source_port, destination_port))) => Some(
                spec_canonical(
                    protocol,
                    Endpoint { address: source, port: source_port },
                    Endpoint { address: destination, port: destination_port },
                ),
            ),
            _ => None,
        },
        _ => None,
    }
}

/// The place of an exec comparison's left side relative to its right side.
#[derive(Debug, Clone, Copy, PartialEq, Eq, Structural)]
pub enum Placement {
    /// The left side comes first.
    Before,
    /// Both sides are in the same place.
    Same,
    /// The left side comes later.
    After,
}

/// The placement that comparing two ranks gives.
pub open spec fn placement_of(left: int, right: int) -> Placement {
    if left < right {
        Placement::Before
    } else if left == right {
        Placement::Same
    } else {
        Placement::After
    }
}

/// A big-endian number is below the limit for its length.
pub proof fn lemma_be_value_bound(s: Seq<u8>)
    ensures
        be_value(s) < be_limit(s.len()),
    decreases s.len(),
{
    if s.len() > 0 {
        lemma_be_value_bound(s.drop_last());
    }
}

/// Two octet sequences of one length with the same big-endian value are the
/// same sequence.
pub proof fn lemma_be_value_injective(s: Seq<u8>, t: Seq<u8>)
    requires
        s.len() == t.len(),
        be_value(s) == be_value(t),
    ensures
        s == t,
    decreases s.len(),
{
    if s.len() > 0 {
        let x = be_value(s.drop_last());
        let y = be_value(t.drop_last());
        assert(x * 256 + s.last() == y * 256 + t.last());
        assert(s.last() == t.last() && x == y) by (nonlinear_arith)
            requires
                x * 256 + s.last() == y * 256 + t.last(),
                0 <= s.last() < 256,
                0 <= t.last() < 256,
                x >= 0,
                y >= 0,
        ;
        lemma_be_value_injective(s.drop_last(), t.drop_last());
        assert(s =~= s.drop_last().push(s.last()));
        assert(t =~= t.drop_last().push(t.last()));
    }
}

/// The limits for four and sixteen octets.
pub proof fn lemma_be_limits()
    ensures
        be_limit(4) == 0x1_0000_0000,
        be_limit(16) == ipv6_base(),
{
    reveal_with_fuel(be_limit, 17);
}

/// Address ranks lie below `2^129`, IPv4 ones below `2^32` and IPv6 ones at or
/// above `2^128`.
pub proof fn lemma_address_rank_bounds(address: IpAddress)
    ensures
        0 <= address_rank(address) < 2 * ipv6_base(),
        address is V4 ==> address_rank(address) < 0x1_0000_0000,
        address is V6 ==> address_rank(address) >= ipv6_base(),
{
    lemma_be_limits();
    match address {
        IpAddress::V4(v4) => lemma_be_value_bound(v4.0@),
        IpAddress::V6(v6) => lemma_be_value_bound(v6.0@),
    }
}

/// Two addresses with the same rank are the same address.
pub proof fn lemma_address_rank_injective(x: IpAddress, y: IpAddress)
    requires
        address_rank(x) == address_rank(y),
    ensures
        x == y,
{
    lemma_address_rank_bounds(x);
    lemma_address_rank_bounds(y);
    match (x, y) {
        (IpAddress::V4(p), IpAddress::V4(q)) => {
            lemma_be_value_injective(p.0@, q.0@);
            assert(p.0 =~= q.0);
        },
        (IpAddress::V6(p), IpAddress::V6(q)) => {
            lemma_be_value_injective(p.0@, q.0@);
            assert(p.0 =~= q.0);
        },
        _ => {},
    }
}

/// Endpoint ranks lie in `0..2^145`.
pub proof fn lemma_endpoint_rank_bounds(endpoint: Endpoint)
    ensures
        0 <= endpoint_rank(endpoint) < endpoint_span(),
{
    lemma_address_rank_bounds(endpoint.address);
}

/// Two endpoints with the same rank are the same endpoint.
pub proof fn lemma_endpoint_rank_injective(x: Endpoint, y: Endpoint)
    requires
        endpoint_rank(x) == endpoint_rank(y),
    ensures
        x == y,
{
    lemma_address_rank_bounds(x.address);
    lemma_address_rank_bounds(y.address);
    let rx = address_rank(x.address);
    let ry = address_rank(y.address);
    assert(rx == ry && x.port == y.port) by (nonlinear_arith)
        requires
            rx * 65_536 + x.port == ry * 65_536 + y.port,
            0 <= x.port < 65_536,
            0 <= y.port < 65_536,
    ;
    lemma_address_rank_injective(x.address, y.address);
}

/// Two keys with the same rank are the same key; key ranks are never negative.
pub proof fn lemma_key_rank_injective(x: FlowKey, y: FlowKey)
    requires
        key_rank(x) == key_rank(y),
    ensures
        x == y,
{
    lemma_endpoint_rank_bounds(x.a);
    lemma_endpoint_rank_bounds(x.b);
    lemma_endpoint_rank_bounds(y.a);
    lemma_endpoint_rank_bounds(y.b);
    let span = endpoint_span();
    let (px, ax, bx) = (protocol_rank(x.protocol), endpoint_rank(x.a), endpoint_rank(x.b));
    let (py, ay, by) = (protocol_rank(y.protocol), endpoint_rank(y.a), endpoint_rank(y.b));
    assert(px * span + ax == py * span + ay && bx == by) by (nonlinear_arith)
        requires
            (px * span + ax) * span + bx == (py * span + ay) * span + by,
            0 <= bx < span,
            0 <= by < span,
            0 <= ax < span,
            0 <= ay < span,
            0 <= px <= 1,
            0 <= py <= 1,
            span > 0,
    ;
    assert(px == py && ax == ay) by (nonlinear_arith)
        requires
            px * span + ax == py * span + ay,
            0 <= ax < span,
            0 <= ay < span,
            span > 0,
    ;
    lemma_endpoint_rank_injective(x.a, y.a);
    lemma_endpoint_rank_injective(x.b, y.b);
}

/// An address's family and big-endian value: IPv4 is family 0, IPv6 family 1.
fn address_value(address: IpAddress) -> (value: (u8, u128))
    ensures
        value.0 <= 1,
        value.1 < ipv6_base(),
        address_rank(address) == value.0 * ipv6_base() + value.1,
{
    proof {
        lemma_be_limits();
    }
    match address {
        IpAddress::V4(v4) => {
            let octets = v4.0;
            let value = octets_value(&octets);
            (0, value)
        },
        IpAddress::V6(v6) => {
            let octets = v6.0;
            let value = octets_value(&octets);
            (1, value)
        },
    }
}

/// The big-endian value of at most sixteen octets.
pub fn octets_value(octets: &[u8]) -> (value: u128)
    requires
        octets@.len() <= 16,
    ensures
        value == be_value(octets@),
{
    let mut value: u128 = 0;
    let mut i: usize = 0;
    proof {
        assert(octets@.take(0) =~= Seq::<u8>::empty());
        lemma_be_limits();
    }
    while i < octets.len()
        invariant
            i <= octets@.len() <= 16,
            value == be_value(octets@.take(i as int)),
            be_limit(16) == ipv6_base(),
        decreases octets@.len() - i,
    {
        proof {
            lemma_be_value_bound(octets@.take(i as int));
            lemma_be_limit_monotonic(i as nat, 15);
            assert(octets@.take(i as int + 1).drop_last() =~= octets@.take(i as int));
            reveal_with_fuel(be_limit, 17);
        }
        value = value * 256 + octets[i] as u128;
        i = i + 1;
    }
    proof {
        assert(octets@.take(i as int) =~= octets@);
    }
    value
}

/// A longer octet count has a larger limit.
proof fn lemma_be_limit_monotonic(m: nat, n: nat)
    requires
        m <= n,
    ensures
        be_limit(m) <= be_limit(n),
    decreases n,
{
    if m < n {
        lemma_be_limit_monotonic(m, (n - 1) as nat);
    }
}

/// Compares two endpoints in the endpoint order.
pub fn compare_endpoints(x: Endpoint, y: Endpoint) -> (placement: Placement)
    ensures
        placement == placement_of(endpoint_rank(x), endpoint_rank(y)),
{
    let (fx, vx) = address_value(x.address);
    let (fy, vy) = address_value(y.address);
    let ghost base = ipv6_base();
    proof {
        assert(address_rank(x.address) == fx * base + vx);
        assert(address_rank(y.address) == fy * base + vy);
    }
    if fx != fy {
        if fx < fy {
            assert(endpoint_rank(x) < endpoint_rank(y)) by (nonlinear_arith)
                requires
                    fx < fy,
                    fx >= 0,
                    vx < base,
                    vy >= 0,
                    endpoint_rank(x) == (fx * base + vx) * 65_536 + x.port,
                    endpoint_rank(y) == (fy * base + vy) * 65_536 + y.port,
                    x.port < 65_536,
                    y.port >= 0,
            ;
            Placement::Before
        } else {
            assert(endpoint_rank(x) > endpoint_rank(y)) by (nonlinear_arith)
                requires
                    fy < fx,
                    fy >= 0,
                    vy < base,
                    vx >= 0,
                    endpoint_rank(x) == (fx * base + vx) * 65_536 + x.port,
                    endpoint_rank(y) == (fy * base + vy) * 65_536 + y.port,
                    y.port < 65_536,
                    x.port >= 0,
            ;
            Placement::After
        }
    } else if vx != vy {
        if vx < vy {
            Placement::Before
        } else {
            Placement::After
        }
    } else if x.port < y.port {
        Placement::Before
    } else if x.port == y.port {
        Placement::Same
    } else {
        Placement::After
    }
}

/// Compares two keys in the key order.
pub fn compare_keys(x: FlowKey, y: FlowKey) -> (placement: Placement)
    ensures
        placement == placement_of(key_rank(x), key_rank(y)),
{
    proof {
        lemma_endpoint_rank_bounds(x.a);
        lemma_endpoint_rank_bounds(x.b);
        lemma_endpoint_rank_bounds(y.a);
        lemma_endpoint_rank_bounds(y.b);
    }
    let px: u8 = match x.protocol {
        FlowProtocol::Tcp => 0,
        FlowProtocol::Udp => 1,
    };
    let py: u8 = match y.protocol {
        FlowProtocol::Tcp => 0,
        FlowProtocol::Udp => 1,
    };
    let ghost span = endpoint_span();
    let ghost (ax, bx, ay, by) = (
        endpoint_rank(x.a),
        endpoint_rank(x.b),
        endpoint_rank(y.a),
        endpoint_rank(y.b),
    );
    if px != py {
        proof {
            lemma_lex_triple(px as int, ax, bx, py as int, ay, by, span);
        }
        if px < py {
            Placement::Before
        } else {
            Placement::After
        }
    } else {
        let a_order = compare_endpoints(x.a, y.a);
        proof {
            lemma_lex_triple(px as int, ax, bx, py as int, ay, by, span);
        }
        match a_order {
            Placement::Before => Placement::Before,
            Placement::After => Placement::After,
            Placement::Same => compare_endpoints(x.b, y.b),
        }
    }
}

/// Comparing `(p * span + a) * span + b` is comparing `(p, a, b)` in order,
/// for `a` and `b` below `span`.
proof fn lemma_lex_triple(px: int, ax: int, bx: int, py: int, ay: int, by: int, span: int)
    requires
        0 <= ax < span,
        0 <= bx < span,
        0 <= ay < span,
        0 <= by < span,
        span > 0,
    ensures
        px < py ==> (px * span + ax) * span + bx < (py * span + ay) * span + by,
        px > py ==> (px * span + ax) * span + bx > (py * span + ay) * span + by,
        px == py && ax < ay ==> (px * span + ax) * span + bx < (py * span + ay) * span + by,
        px == py && ax > ay ==> (px * span + ax) * span + bx > (py * span + ay) * span + by,
        px == py && ax == ay ==> ((px * span + ax) * span + bx) - ((py * span + ay) * span + by)
            == bx - by,
{
    assert(px < py ==> (px * span + ax) * span + bx < (py * span + ay) * span + by) by (nonlinear_arith)
        requires
            0 <= ax < span,
            0 <= bx < span,
            0 <= ay < span,
            0 <= by < span,
            span > 0,
    ;
    assert(px > py ==> (px * span + ax) * span + bx > (py * span + ay) * span + by) by (nonlinear_arith)
        requires
            0 <= ax < span,
            0 <= bx < span,
            0 <= ay < span,
            0 <= by < span,
            span > 0,
    ;
    assert(px == py && ax < ay ==> (px * span + ax) * span + bx < (py * span + ay) * span + by)
        by (nonlinear_arith)
        requires
            0 <= bx < span,
            0 <= by < span,
            span > 0,
    ;
    assert(px == py && ax > ay ==> (px * span + ax) * span + bx > (py * span + ay) * span + by)
        by (nonlinear_arith)
        requires
            0 <= bx < span,
            0 <= by < span,
            span > 0,
    ;
}

impl FlowKey {
    /// Builds the canonical key for a packet travelling `source` to
    /// `destination`, together with which direction that is.
    ///
    /// The lower endpoint in the endpoint order becomes A; a packet from A to
    /// B travels `AtoB`. A host talking to itself is `AtoB`.
    pub fn canonical(protocol: FlowProtocol, source: Endpoint, destination: Endpoint) -> (keyed: (
        Self,
        Direction,
    ))
        ensures
            keyed == spec_canonical(protocol, source, destination),
    {
        match compare_endpoints(source, destination) {
            Placement::After => (Self { protocol, a: destination, b: source }, Direction::BtoA),
            _ => (Self { protocol, a: source, b: destination }, Direction::AtoB),
        }
    }

    /// Works out which flow a decoded packet belongs to.
    ///
    /// Returns `None` when the packet is not part of a trackable
    /// conversation: ARP has no IP layer, ICMP has no ports, a non-initial
    /// fragment and a truncated packet carry no transport header to key on.
    pub fn from_packet(packet: &DecodedPacket) -> (keyed: Option<(Self, Direction)>)
        ensures
            keyed == spec_from_packet(packet@),
    {
        let (source, destination) = match &packet.network {
            Some(NetworkLayer::Ipv4(header)) => (
                IpAddress::V4(header.source),
                IpAddress::V4(header.destination),
            ),
            Some(NetworkLayer::Ipv6(header)) => (
                IpAddress::V6(header.source),
                IpAddress::V6(header.destination),
            ),
            _ => return None,
        };
        let (protocol, source_port, destination_port) = match packet.transport {
            Some(TransportLayer::Tcp(segment)) => (
                FlowProtocol::Tcp,
                segment.source_port,
                segment.destination_port,
            ),
            Some(TransportLayer::Udp(datagram)) => (
                FlowProtocol::Udp,
                datagram.source_port,
                datagram.destination_port,
            ),
            _ => return None,
        };
        Some(
            Self::canonical(
                protocol,
                Endpoint::new(source, source_port),
                Endpoint::new(destination, destination_port),
            ),
        )
    }
}

/// The key of a conversation does not depend on which way a packet went:
/// both directions give the same key, and opposite directions unless the two
/// endpoints are the same.
pub proof fn law_both_directions_share_a_key(protocol: FlowProtocol, x: Endpoint, y: Endpoint)
    ensures
        spec_canonical(protocol, x, y).0 == spec_canonical(protocol, y, x).0,
        x != y ==> spec_canonical(protocol, x, y).1 != spec_canonical(protocol, y, x).1,
        x == y ==> spec_canonical(protocol, x, y).1 == Direction::AtoB,
{
    if endpoint_rank(x) == endpoint_rank(y) {
        lemma_endpoint_rank_injective(x, y);
    }
}

/// In every key, A is not above B, and the direction says which of the two
/// endpoints the packet came from.
pub proof fn law_canonical_orders_the_endpoints(
    protocol: FlowProtocol,
    source: Endpoint,
    destination: Endpoint,
)
    ensures
        ({
            let (key, direction) = spec_canonical(protocol, source, destination);
            &&& endpoint_rank(key.a) <= endpoint_rank(key.b)
            &&& key.protocol == protocol
            &&& direction == Direction::AtoB ==> key.a == source && key.b == destination
            &&& direction == Direction::BtoA ==> key.a == destination && key.b == source
        }),
{
}

/// Keys of different protocols, or with different endpoints, are different
/// keys: an IPv4 and an IPv6 endpoint never compare equal.
pub proof fn law_ipv4_and_ipv6_endpoints_never_collide(four: Endpoint, six: Endpoint)
    requires
        four.address is V4,
        six.address is V6,
    ensures
        endpoint_rank(four) < endpoint_rank(six),
{
    lemma_address_rank_bounds(four.address);
    lemma_address_rank_bounds(six.address);
}

} // verus!
