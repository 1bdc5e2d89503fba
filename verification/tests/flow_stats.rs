//! What a flow accumulates.

use netsentry::capture::PacketTimestamp;
use netsentry::decode::{IpAddress, Ipv4Address, TcpFlags, TcpHeader, TransportLayer};
use netsentry::flow::{Direction, DirectionStats, Endpoint, Flow, FlowKey, FlowProtocol};


fn endpoint(last: u8, port: u16) -> Endpoint {
    Endpoint::new(IpAddress::V4(Ipv4Address::new(10, 0, 0, last)), port)
}

fn key() -> FlowKey {
    FlowKey::canonical(FlowProtocol::Tcp, endpoint(1, 5_000), endpoint(2, 443)).0
}

fn ts(seconds: i64, micros: i64) -> PacketTimestamp {
    PacketTimestamp::from_parts(seconds, micros)
}

fn tcp(flags: u16) -> TransportLayer {
    TransportLayer::Tcp(TcpHeader {
        source_port: 5_000,
        destination_port: 443,
        sequence: 0,
        acknowledgment: 0,
        header_len: 20,
        flags: TcpFlags(flags),
        window: 0,
        checksum: 0,
        urgent_pointer: 0,
        options_len: 0,
    })
}

#[test]
fn packets_are_counted_in_the_direction_they_travelled() {
    let mut flow = Flow::new(key(), ts(100, 0));
    flow.record(Direction::AtoB, ts(100, 0), 74, 74, None);
    flow.record(Direction::AtoB, ts(101, 0), 66, 66, None);
    flow.record(Direction::BtoA, ts(102, 0), 1500, 1500, None);

    assert_eq!(flow.a_to_b.packets, 2);
    assert_eq!(flow.b_to_a.packets, 1);
    assert_eq!(flow.total_packets(), 3);
}

#[test]
fn captured_and_wire_bytes_are_counted_separately() {
    let mut flow = Flow::new(key(), ts(100, 0));
    // A capture with a small snapshot length: 64 bytes kept of a 1514-byte
    // frame.
    flow.record(Direction::AtoB, ts(100, 0), 64, 1514, None);
    flow.record(Direction::BtoA, ts(101, 0), 64, 590, None);

    assert_eq!(flow.a_to_b.captured_bytes, 64);
    assert_eq!(flow.a_to_b.wire_bytes, 1514);
    assert_eq!(flow.total_captured_bytes(), 128);
    assert_eq!(flow.total_wire_bytes(), 2104);
}

#[test]
fn byte_counters_saturate_rather_than_wrapping() {
    let mut flow = Flow::new(key(), ts(0, 0));
    flow.a_to_b = DirectionStats {
        packets: u64::MAX,
        captured_bytes: u64::MAX,
        wire_bytes: u64::MAX - 1,
    };
    flow.record(Direction::AtoB, ts(0, 0), u32::MAX, u32::MAX, None);

    assert_eq!(flow.a_to_b.packets, u64::MAX);
    assert_eq!(flow.a_to_b.wire_bytes, u64::MAX);
    assert_eq!(flow.total_packets(), u64::MAX);
}

#[test]
fn first_and_last_seen_are_the_extremes_not_the_arrival_order() {
    let mut flow = Flow::new(key(), ts(500, 0));
    // Deliberately out of order, as a merged or clock-adjusted capture is.
    flow.record(Direction::AtoB, ts(500, 0), 60, 60, None);
    flow.record(Direction::AtoB, ts(100, 0), 60, 60, None);
    flow.record(Direction::BtoA, ts(900, 0), 60, 60, None);
    flow.record(Direction::AtoB, ts(300, 0), 60, 60, None);

    assert_eq!(flow.first_seen(), ts(100, 0));
    assert_eq!(flow.last_seen(), ts(900, 0));
    assert_eq!(flow.duration(), Some(800 * 1_000_000));
}

#[test]
fn a_single_packet_flow_lasts_no_time() {
    let mut flow = Flow::new(key(), ts(100, 123_456));
    flow.record(Direction::AtoB, ts(100, 123_456), 60, 60, None);

    assert_eq!(flow.duration(), Some(0));
    assert_eq!(flow.first_seen(), flow.last_seen());
}

#[test]
fn duration_keeps_microsecond_resolution() {
    let mut flow = Flow::new(key(), ts(100, 250_000));
    flow.record(Direction::AtoB, ts(100, 250_000), 60, 60, None);
    flow.record(Direction::BtoA, ts(102, 990_123), 60, 60, None);

    assert_eq!(flow.duration(), Some(2_740_123));
}

#[test]
fn a_malformed_timestamp_yields_no_duration_rather_than_a_wrong_one() {
    let mut flow = Flow::new(key(), ts(100, 0));
    flow.record(Direction::AtoB, ts(100, -1), 60, 60, None);

    assert_eq!(flow.duration(), None);
    // The packet was still counted: a bad clock is not a reason to lose it.
    assert_eq!(flow.total_packets(), 1);
}

#[test]
fn tcp_flags_accumulate_per_direction() {
    let mut flow = Flow::new(key(), ts(100, 0));
    flow.record(Direction::AtoB, ts(100, 0), 60, 60, Some(&tcp(0x002))); // SYN
    flow.record(Direction::BtoA, ts(101, 0), 60, 60, Some(&tcp(0x012))); // SYN,ACK
    flow.record(Direction::AtoB, ts(102, 0), 60, 60, Some(&tcp(0x010))); // ACK
    flow.record(Direction::AtoB, ts(103, 0), 60, 60, Some(&tcp(0x011))); // FIN,ACK
    flow.record(Direction::BtoA, ts(104, 0), 60, 60, Some(&tcp(0x004))); // RST

    let facts = flow.tcp.unwrap_or_default();
    assert_eq!(facts.a_to_b.syn, 1);
    assert_eq!(facts.a_to_b.fin, 1);
    assert_eq!(facts.a_to_b.rst, 0);
    assert_eq!(facts.b_to_a.syn, 1);
    assert_eq!(facts.b_to_a.rst, 1);
    // Every bit either side ever set, OR-ed together.
    assert_eq!(facts.a_to_b.flags_seen.to_text(), "SYN,FIN,ACK");
    assert_eq!(facts.b_to_a.flags_seen.to_text(), "SYN,RST,ACK");
}

#[test]
fn a_udp_flow_carries_no_tcp_facts() {
    let mut flow = Flow::new(key(), ts(100, 0));
    flow.record(Direction::AtoB, ts(100, 0), 60, 60, None);
    assert_eq!(flow.tcp, None);
}
