//! Flow identity and its canonical endpoint order.

use netsentry::decode::{IpAddress, Ipv4Address, Ipv6Address};
use netsentry::flow::{Direction, Endpoint, FlowKey, FlowProtocol};


fn v4(a: u8, b: u8, c: u8, d: u8, port: u16) -> Endpoint {
    Endpoint::new(IpAddress::V4(Ipv4Address::new(a, b, c, d)), port)
}

fn v6(last: u16, port: u16) -> Endpoint {
    Endpoint::new(
        IpAddress::V6(Ipv6Address::new(0x2001, 0xdb8, 0, 0, 0, 0, 0, last)),
        port,
    )
}

#[test]
fn both_directions_of_one_conversation_share_a_key() {
    let client = v4(192, 168, 1, 15, 53_122);
    let server = v4(142, 250, 184, 14, 443);

    let (outbound, out_direction) = FlowKey::canonical(FlowProtocol::Tcp, client, server);
    let (inbound, in_direction) = FlowKey::canonical(FlowProtocol::Tcp, server, client);

    assert_eq!(outbound, inbound, "one conversation, one key");
    assert_ne!(
        out_direction, in_direction,
        "but the two packets went opposite ways"
    );
}

#[test]
fn the_key_does_not_depend_on_which_packet_arrived_first() {
    let one = v4(10, 0, 0, 1, 5_000);
    let other = v4(1, 1, 1, 1, 443);

    // Whichever way round the first packet was seen, A and B come out the
    // same, so two runs over the same capture agree.
    let (first, _) = FlowKey::canonical(FlowProtocol::Udp, one, other);
    let (second, _) = FlowKey::canonical(FlowProtocol::Udp, other, one);

    assert_eq!(first, second);
    assert_eq!(first.a, other, "the lower endpoint is always A");
    assert_eq!(first.b, one);
}

#[test]
fn direction_reports_which_way_the_packet_actually_went() {
    let low = v4(1, 1, 1, 1, 443);
    let high = v4(10, 0, 0, 1, 5_000);

    assert_eq!(
        FlowKey::canonical(FlowProtocol::Tcp, low, high).1,
        Direction::AtoB
    );
    assert_eq!(
        FlowKey::canonical(FlowProtocol::Tcp, high, low).1,
        Direction::BtoA
    );
}

#[test]
fn a_host_talking_to_itself_is_still_deterministic() {
    let endpoint = v4(127, 0, 0, 1, 5_000);
    let (key, direction) = FlowKey::canonical(FlowProtocol::Tcp, endpoint, endpoint);

    assert_eq!(key.a, key.b);
    assert_eq!(direction, Direction::AtoB);
}

#[test]
fn different_ports_are_different_flows() {
    let client_a = v4(10, 0, 0, 1, 5_000);
    let client_b = v4(10, 0, 0, 1, 5_001);
    let server = v4(1, 1, 1, 1, 443);

    let (first, _) = FlowKey::canonical(FlowProtocol::Tcp, client_a, server);
    let (second, _) = FlowKey::canonical(FlowProtocol::Tcp, client_b, server);
    assert_ne!(first, second);
}

#[test]
fn different_protocols_are_different_flows() {
    let client = v4(10, 0, 0, 1, 5_000);
    let server = v4(1, 1, 1, 1, 53);

    let (tcp, _) = FlowKey::canonical(FlowProtocol::Tcp, client, server);
    let (udp, _) = FlowKey::canonical(FlowProtocol::Udp, client, server);
    assert_ne!(tcp, udp, "same hosts and ports, different conversations");
}

#[test]
fn ipv4_and_ipv6_endpoints_never_collide() {
    let four = v4(1, 2, 3, 4, 443);
    let six = v6(1, 443);
    assert_ne!(four, six);

    // Not even the IPv4-mapped form of the same address.
    let mapped = Endpoint::new(
        IpAddress::V6(Ipv6Address::new(0, 0, 0, 0, 0, 0xffff, 0x0102, 0x0304)),
        443,
    );
    assert_ne!(four, mapped);

    let (v4_flow, _) = FlowKey::canonical(FlowProtocol::Tcp, four, v4(5, 6, 7, 8, 80));
    let (v6_flow, _) = FlowKey::canonical(FlowProtocol::Tcp, six, v6(2, 80));
    assert_ne!(v4_flow, v6_flow);
}

#[test]
fn ipv6_flows_are_canonical_too() {
    let one = v6(1, 5_000);
    let other = v6(2, 443);

    let (forward, forward_direction) = FlowKey::canonical(FlowProtocol::Tcp, one, other);
    let (back, back_direction) = FlowKey::canonical(FlowProtocol::Tcp, other, one);

    assert_eq!(forward, back);
    assert_eq!(forward.a, one, "2001:db8::1 sorts below 2001:db8::2");
    assert_eq!(forward_direction, Direction::AtoB);
    assert_eq!(back_direction, Direction::BtoA);
}

#[test]
fn endpoints_print_readably_for_both_address_families() {
    assert_eq!(
        v4(192, 168, 1, 15, 53_122).to_text(),
        "192.168.1.15:53122"
    );
    assert_eq!(v6(1, 443).to_text(), "[2001:db8::1]:443");
}

#[test]
fn a_flow_key_prints_as_a_two_way_conversation() {
    let (key, _) = FlowKey::canonical(
        FlowProtocol::Tcp,
        v4(192, 168, 1, 15, 53_122),
        v4(142, 250, 184, 14, 443),
    );
    assert_eq!(
        key.to_text(),
        "TCP 142.250.184.14:443 \u{2194} 192.168.1.15:53122"
    );
}
