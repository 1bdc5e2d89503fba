//! The library's laws, each checked once on concrete values.

use netsentry::NetSentryError;
use netsentry::capture::{
    CaptureSettings, PacketPump, PacketTimestamp, PumpAction, PumpEvent, StopReason,
};
use netsentry::decode::{
    EtherType, IpAddress, IpProtocol, Ipv4Address, Ipv6Address, LinkLayer, NetworkLayer,
    TcpFlags, TcpHeader, TransportLayer, decode,
};
use netsentry::flow::{Direction, Endpoint, Flow, FlowKey, FlowProtocol};

fn ts(seconds: i64, micros: i64) -> PacketTimestamp {
    PacketTimestamp::from_parts(seconds, micros)
}

fn v4(a: u8, b: u8, c: u8, d: u8, port: u16) -> Endpoint {
    Endpoint::new(IpAddress::V4(Ipv4Address([a, b, c, d])), port)
}

fn segment(flags: u16) -> TransportLayer {
    TransportLayer::Tcp(TcpHeader {
        source_port: 1,
        destination_port: 2,
        sequence: 0,
        acknowledgment: 0,
        header_len: 20,
        flags: TcpFlags(flags),
        window: 0,
        checksum: 0,
        urgent_pointer: 0,
        options_len: 0,
    })
}

#[test]
fn law_default_settings_pass_their_own_validation() {
    let defaults = CaptureSettings::default();
    assert_eq!(
        CaptureSettings::new(defaults.snaplen(), defaults.promiscuous(), defaults.count()),
        Ok(defaults)
    );
}

#[test]
fn law_both_directions_of_a_conversation_share_one_key() {
    let client = v4(192, 168, 1, 10, 50_000);
    let server = v4(1, 1, 1, 1, 443);
    let (out_key, out_dir) = FlowKey::canonical(FlowProtocol::Tcp, client, server);
    let (back_key, back_dir) = FlowKey::canonical(FlowProtocol::Tcp, server, client);
    assert_eq!(out_key, back_key);
    assert_ne!(out_dir, back_dir);
    // A is the endpoint that sorts first, not whoever spoke first.
    assert_eq!(out_key.a, server);
    assert_eq!(out_key.b, client);
    assert_eq!(out_dir, Direction::BtoA);
}

#[test]
fn law_ipv4_endpoints_sort_before_ipv6_ones() {
    let four = v4(255, 255, 255, 255, 65_535);
    let six = Endpoint::new(IpAddress::V6(Ipv6Address([0; 16])), 0);
    let (key, direction) = FlowKey::canonical(FlowProtocol::Udp, six, four);
    assert_eq!(key.a, four);
    assert_eq!(key.b, six);
    assert_eq!(direction, Direction::BtoA);
}

#[test]
fn law_counting_order_does_not_change_a_flow() {
    let (key, _) = FlowKey::canonical(FlowProtocol::Tcp, v4(10, 0, 0, 1, 1), v4(10, 0, 0, 2, 2));
    let first = (Direction::AtoB, ts(100, 5), 60_u32, 1514_u32, segment(0x002));
    let second = (Direction::BtoA, ts(99, 7), 54_u32, 54_u32, segment(0x012));

    let mut forwards = Flow::new(key, ts(100, 0));
    for (direction, timestamp, caplen, wirelen, transport) in [first, second] {
        forwards.record(direction, timestamp, caplen, wirelen, Some(&transport));
    }
    let mut backwards = Flow::new(key, ts(100, 0));
    for (direction, timestamp, caplen, wirelen, transport) in [second, first] {
        backwards.record(direction, timestamp, caplen, wirelen, Some(&transport));
    }
    assert_eq!(forwards, backwards);
    // The bounds are the range of the stamps, not the arrival order.
    assert_eq!(forwards.first_seen, ts(99, 7));
    assert_eq!(forwards.last_seen, ts(100, 5));
}

#[test]
fn law_round_trips_of_numbered_types() {
    for value in [0x0800_u16, 0x0806, 0x86dd, 0x8100, 0x88a8, 0x05dc, 0x88cc] {
        assert_eq!(EtherType::from_u16(value).as_u16(), value);
    }
    for value in [1_u8, 6, 17, 58, 47, 255] {
        assert_eq!(IpProtocol::from_u8(value).as_u8(), value);
    }
    for dlt in [1, 113, 276, 0, -5, 105] {
        assert_eq!(LinkLayer::from_dlt(dlt).as_dlt(), dlt);
    }
}

#[test]
fn law_decoded_layers_nest_on_hostile_bytes() {
    let mut bytes = vec![0xff_u8; 64];
    for split in [0, 13, 14, 18, 33, 34, 54, 64] {
        for link in [LinkLayer::Ethernet, LinkLayer::LinuxSll, LinkLayer::LinuxSll2] {
            let packet = decode(link, bytes.get(..split).unwrap_or(&[]));
            assert!(packet.transport.is_none() || packet.network.is_some());
            assert!(packet.network.is_none() || packet.link.is_some());
        }
        bytes.rotate_left(3);
    }
    let stacked = [
        [0xaa; 6].as_slice(),
        [0xbb; 6].as_slice(),
        &[0x81, 0x00, 0x00, 0x01],
        &[0x81, 0x00, 0x00, 0x02],
        &[0x81, 0x00, 0x00, 0x03],
        &[0x08, 0x00],
    ]
    .concat();
    let packet = decode(LinkLayer::Ethernet, &stacked);
    assert!(packet.network.is_none(), "a third VLAN tag is not followed");
    assert!(!matches!(packet.network, Some(NetworkLayer::Ipv4(_))));
}

#[test]
fn law_the_pump_stops_at_its_limit() {
    let mut pump = PacketPump::new(Some(2));
    let packet = PumpEvent::Packet {
        caplen: 60,
        wirelen: 60,
        timestamp: ts(1, 0),
    };
    let PumpAction::Deliver(first) = pump.step(packet) else {
        panic!("a packet is delivered");
    };
    assert_eq!(first.number, 1);
    assert_eq!(pump.step(PumpEvent::Delivered { output_ok: true }), PumpAction::ReadNext);
    assert_eq!(pump.step(PumpEvent::Timeout), PumpAction::ReadNext);
    let PumpAction::Deliver(second) = pump.step(packet) else {
        panic!("a packet is delivered");
    };
    assert_eq!(second.number, 2);
    assert_eq!(
        pump.step(PumpEvent::Delivered { output_ok: true }),
        PumpAction::Stop(StopReason::CountReached)
    );
    let run = pump.finish(StopReason::CountReached);
    assert_eq!(run.tally.packets, 2);
    assert_eq!(run.tally.captured_bytes, 120);
}

#[test]
fn the_pump_reports_each_way_a_run_ends() {
    let mut pump = PacketPump::new(None);
    assert_eq!(
        pump.step(PumpEvent::Interrupted),
        PumpAction::Stop(StopReason::Interrupted)
    );
    assert_eq!(
        pump.step(PumpEvent::SourceEnded { interrupted: true }),
        PumpAction::Stop(StopReason::Interrupted)
    );
    assert_eq!(
        pump.step(PumpEvent::SourceEnded { interrupted: false }),
        PumpAction::Stop(StopReason::SourceEnded)
    );
    assert_eq!(
        pump.step(PumpEvent::ReadFailed),
        PumpAction::Stop(StopReason::ReadFailed)
    );
    assert_eq!(
        pump.step(PumpEvent::Delivered { output_ok: false }),
        PumpAction::Stop(StopReason::OutputClosed)
    );
    assert_eq!(pump.tally.packets, 0);
}

#[test]
fn selectors_in_messages_are_quoted_and_escaped() {
    let error = NetSentryError::InterfaceNotFound {
        selector: "eth\t\"9\"".to_owned(),
        available: 2,
    };
    assert_eq!(
        error.message(),
        "interface \"eth\\t\\\"9\\\"\" not found (2 interface(s) available)"
    );
    let error = NetSentryError::AmbiguousInterface {
        selector: "ETH0".to_owned(),
    };
    assert_eq!(
        error.message(),
        "interface \"ETH0\" matches more than one interface"
    );
}

#[test]
fn every_error_has_its_own_message() {
    let cases = [
        (
            NetSentryError::InterfaceIndexOutOfRange {
                index: 9,
                available: 2,
            },
            "interface #9 not found (2 interface(s) available)",
        ),
        (
            NetSentryError::InvalidSnaplen {
                value: 0,
                min: 1,
                max: 262_144,
            },
            "invalid snapshot length 0: must be between 1 and 262144 bytes",
        ),
        (
            NetSentryError::InvalidCount { value: 0 },
            "invalid packet count 0: must be at least 1",
        ),
        (
            NetSentryError::CapturePermissionDenied {
                interface: "eth0".to_owned(),
                source: String::new(),
            },
            "not allowed to capture on \"eth0\"",
        ),
        (
            NetSentryError::CaptureOpen {
                interface: "eth0".to_owned(),
                source: String::new(),
            },
            "could not open \"eth0\" for capture",
        ),
        (
            NetSentryError::CaptureFileCorrupt {
                path: "cut.pcap".to_owned(),
                source: "truncated dump file".to_owned(),
            },
            "capture file is truncated or corrupt: cut.pcap",
        ),
        (
            NetSentryError::OutputFileExists {
                path: "session.pcap".to_owned(),
            },
            "refusing to overwrite existing file: session.pcap",
        ),
        (
            NetSentryError::NoInterfacesFound,
            "no network interfaces are visible to the capture driver",
        ),
    ];
    for (error, expected) in cases {
        assert_eq!(error.message(), expected);
    }
}

#[test]
fn a_known_instant_is_rendered_in_utc() {
    let stamp = ts(1_789_999_489, 568_771);
    assert_eq!(stamp.format_datetime(), "2026-09-21 14:04:49.568771 UTC");
    assert_eq!(stamp.format_time_of_day(), "14:04:49.568771");
    let leap_day = ts(1_709_164_800, 1);
    assert_eq!(leap_day.format_datetime(), "2024-02-29 00:00:00.000001 UTC");
}

#[test]
fn dates_follow_the_proleptic_gregorian_calendar() {
    assert_eq!(ts(1_790_005_351, 0).format_datetime(), "2026-09-21 15:42:31.000000 UTC");
    assert_eq!(ts(951_782_400, 0).format_datetime(), "2000-02-29 00:00:00.000000 UTC");
    assert_eq!(ts(-86_400, 0).format_datetime(), "1969-12-31 00:00:00.000000 UTC");
    assert_eq!(ts(253_402_300_799, 0).format_datetime(), "9999-12-31 23:59:59.000000 UTC");
}
