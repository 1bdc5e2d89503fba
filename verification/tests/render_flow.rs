//! Rendering the flow table.

use std::time::Duration;

use netsentry::capture::{PacketMetadata, PacketTimestamp};
use netsentry::decode::{
    DecodedPacket, IpProtocol, Ipv4Address, Ipv4Header, Ipv6Address, Ipv6Header, NetworkLayer, TcpFlags,
    TcpHeader, TransportLayer, UdpHeader,
};
use netsentry::flow::{FlowTable, UntrackedCounts};
use netsentry::render::flow::{flow_table, format_bytes, format_duration, untracked_note};

/// A duration as the whole microseconds the library works in.
fn micros(duration: Duration) -> u64 {
    u64::try_from(duration.as_micros()).unwrap_or(u64::MAX)
}


fn metadata(seconds: i64, micros: i64, caplen: u32, wirelen: u32) -> PacketMetadata {
    PacketMetadata {
        number: 1,
        timestamp: PacketTimestamp::from_parts(seconds, micros),
        caplen,
        wirelen,
    }
}

fn ipv4(source: [u8; 4], destination: [u8; 4], protocol: IpProtocol) -> NetworkLayer {
    NetworkLayer::Ipv4(Ipv4Header {
        source: Ipv4Address(source),
        destination: Ipv4Address(destination),
        protocol,
        ttl: 64,
        header_len: 20,
        total_len: 60,
        identification: 0,
        dscp: 0,
        ecn: 0,
        dont_fragment: true,
        more_fragments: false,
        fragment_offset: 0,
        checksum: 0,
        options_len: 0,
    })
}

fn tcp(source_port: u16, destination_port: u16, flags: u16) -> TransportLayer {
    TransportLayer::Tcp(TcpHeader {
        source_port,
        destination_port,
        sequence: 0,
        acknowledgment: 0,
        header_len: 20,
        flags: TcpFlags(flags),
        window: 0,
        checksum: 0,
        urgent_pointer: 0,
        options_len: 0,
    })
}

fn packet(network: NetworkLayer, transport: TransportLayer) -> DecodedPacket {
    DecodedPacket {
        link: None,
        network: Some(network),
        transport: Some(transport),
        stopped: None,
    }
}

/// A table holding one TCP conversation with traffic both ways.
fn one_conversation() -> FlowTable {
    let mut table = FlowTable::default();
    for _ in 0..14 {
        table.record(
            &metadata(100, 0, 300, 300),
            &packet(
                ipv4([192, 168, 1, 15], [142, 250, 184, 14], IpProtocol::Tcp),
                tcp(53_122, 443, 0x018),
            ),
        );
    }
    for _ in 0..24 {
        table.record(
            &metadata(102, 740_000, 2_170, 2_170),
            &packet(
                ipv4([142, 250, 184, 14], [192, 168, 1, 15], IpProtocol::Tcp),
                tcp(443, 53_122, 0x010),
            ),
        );
    }
    table
}

#[test]
fn a_flow_reads_as_a_conversation_with_both_directions() {
    let table = one_conversation();
    let rendered = flow_table(&table);

    assert!(rendered.contains("[*] Flows: 1"), "{rendered}");
    // The reader is told what A and B mean rather than left to infer it.
    assert!(
        rendered.contains("A is the endpoint on the left"),
        "{rendered}"
    );
    assert!(
        rendered.contains("TCP 142.250.184.14:443 \u{2194} 192.168.1.15:53122"),
        "{rendered}"
    );
    assert!(rendered.contains("packets 38"), "{rendered}");
    assert!(rendered.contains("duration 2.74s"), "{rendered}");
    // The server sent far more than the client, and that asymmetry shows.
    assert!(rendered.contains("A\u{2192}B 24"), "{rendered}");
    assert!(rendered.contains("B\u{2192}A 14"), "{rendered}");
}

#[test]
fn tcp_flag_facts_appear_for_tcp_flows_only() {
    let rendered = flow_table(&one_conversation());
    // A is 142.250.184.14:443 here: the lower-sorted endpoint, which
    // happens to be the server. It sent bare ACKs; the client sent PSH,ACK.
    assert!(rendered.contains("TCP A\u{2192}B [ACK]"), "{rendered}");
    assert!(rendered.contains("B\u{2192}A [PSH,ACK]"), "{rendered}");

    let mut udp = FlowTable::default();
    udp.record(
        &metadata(100, 0, 74, 74),
        &packet(
            ipv4([192, 168, 1, 15], [8, 8, 8, 8], IpProtocol::Udp),
            TransportLayer::Udp(UdpHeader {
                source_port: 60_432,
                destination_port: 53,
                length: 42,
                checksum: 0,
                captured_payload_len: 34,
            }),
        ),
    );
    let rendered = flow_table(&udp);
    assert!(rendered.contains("UDP"), "{rendered}");
    assert!(!rendered.contains("syn"), "UDP has no flags: {rendered}");
}

#[test]
fn truncation_is_called_out_only_when_it_happened() {
    let full = flow_table(&one_conversation());
    assert!(!full.contains("snapshot length"), "{full}");

    let mut cut = FlowTable::default();
    cut.record(
        &metadata(100, 0, 64, 1514),
        &packet(
            ipv4([192, 168, 1, 15], [1, 1, 1, 1], IpProtocol::Tcp),
            tcp(5_000, 443, 0x002),
        ),
    );
    let rendered = flow_table(&cut);
    assert!(rendered.contains("snapshot length truncated"), "{rendered}");
    assert!(rendered.contains("64 B of 1514 B"), "{rendered}");
}

#[test]
fn ipv6_endpoints_stay_readable() {
    let mut table = FlowTable::default();
    table.record(
        &metadata(100, 0, 74, 74),
        &packet(
            NetworkLayer::Ipv6(Ipv6Header {
                source: Ipv6Address::new(0x2001, 0xdb8, 0, 0, 0, 0, 0, 1),
                destination: Ipv6Address::new(0x2001, 0xdb8, 0, 0, 0, 0, 0, 2),
                next_header: IpProtocol::Tcp,
                hop_limit: 64,
                payload_len: 20,
                traffic_class: 0,
                flow_label: 0,
                extension_headers: vec![],
                non_initial_fragment: false,
            }),
            tcp(53_122, 443, 0x002),
        ),
    );

    let rendered = flow_table(&table);
    assert!(
        rendered.contains("[2001:db8::1]:53122 \u{2194} [2001:db8::2]:443"),
        "{rendered}"
    );
}

#[test]
fn an_empty_table_says_so_plainly() {
    let rendered = flow_table(&FlowTable::default());
    assert!(rendered.contains("[*] Flows: 0"));
    assert!(rendered.contains("no TCP or UDP conversations"));
}

#[test]
fn untracked_packets_are_listed_with_their_reasons() {
    let counts = UntrackedCounts {
        arp: 12,
        icmp: 3,
        later_fragments: 2,
        undecoded: 1,
        other_protocol: 0,
        over_flow_limit: 0,
    };
    let note = untracked_note(counts);

    assert!(note.contains("18 packets formed no flow"), "{note}");
    assert!(note.contains("12 ARP"));
    assert!(note.contains("3 ICMP"));
    assert!(note.contains("2 later fragments"));
    assert!(note.contains("1 undecoded"));
    assert!(
        !note.contains("other IP protocols"),
        "zero counts are omitted"
    );

    assert_eq!(untracked_note(UntrackedCounts::default()), "");
}

#[test]
fn reaching_the_flow_limit_is_announced_with_what_to_do() {
    let mut table = FlowTable::with_limit(1);
    for port in [5_000u16, 5_001] {
        table.record(
            &metadata(100, 0, 60, 60),
            &packet(
                ipv4([192, 168, 1, 15], [1, 1, 1, 1], IpProtocol::Tcp),
                tcp(port, 443, 0x002),
            ),
        );
    }

    let rendered = flow_table(&table);
    assert!(
        rendered.contains("flow limit of 1 was reached"),
        "{rendered}"
    );
    assert!(rendered.contains("--max-flows"), "{rendered}");
    assert!(rendered.contains("1 over the flow limit"), "{rendered}");
}

#[test]
fn rendering_is_identical_across_runs() {
    let table = one_conversation();
    assert_eq!(flow_table(&table), flow_table(&table));
}

#[test]
fn byte_counts_stay_exact_while_they_are_small() {
    assert_eq!(format_bytes(0), "0 B");
    assert_eq!(format_bytes(54), "54 B");
    assert_eq!(format_bytes(9_999), "9999 B");
    // Above that, readability wins.
    assert_eq!(format_bytes(10_000), "10.0 KB");
    assert_eq!(format_bytes(56_200), "56.2 KB");
    assert_eq!(format_bytes(1_000_000), "1.0 MB");
    assert_eq!(format_bytes(2_500_000_000), "2.5 GB");
    assert_eq!(format_bytes(u64::MAX), "18446744.1 TB");
}

#[test]
fn durations_read_naturally_at_both_ends_of_the_scale() {
    assert_eq!(format_duration(Some(micros(Duration::ZERO))), "0.00s");
    assert_eq!(
        format_duration(Some(micros(Duration::from_micros(2_740_123)))),
        "2.74s"
    );
    assert_eq!(
        format_duration(Some(micros(Duration::from_millis(59_990)))),
        "59.99s"
    );
    assert_eq!(format_duration(Some(micros(Duration::from_secs(60)))), "1m 00.00s");
    assert_eq!(
        format_duration(Some(micros(Duration::from_secs(3_725)))),
        "62m 05.00s"
    );
    assert_eq!(format_duration(None), "unknown");
}

#[test]
fn sizes_round_as_binary64_arithmetic_does() {
    // Exact halves in binary round to the even tenth.
    assert_eq!(format_bytes(10_250), "10.2 KB");
    assert_eq!(format_bytes(10_750), "10.8 KB");
    assert_eq!(format_bytes(1_250_000), "1.2 MB");
    // Decimal halves that binary cannot hold round the way their double lies.
    assert_eq!(format_bytes(10_050), "10.1 KB");
    assert_eq!(format_bytes(10_350), "10.3 KB");
    assert_eq!(format_bytes(10_260), "10.3 KB");
    assert_eq!(format_bytes(999_950), "1000.0 KB");
}

/// The size as the decimal-unit formatting computes it in `f64`.
fn size_in_f64(bytes: u64) -> String {
    if bytes < 10_000 {
        return format!("{bytes} B");
    }
    let suffixes = ["KB", "MB", "GB", "TB"];
    #[allow(clippy::cast_precision_loss)]
    let mut value = bytes as f64 / 1000.0;
    let mut suffix = suffixes[0];
    for next in suffixes.iter().skip(1) {
        if value < 1000.0 {
            break;
        }
        value /= 1000.0;
        suffix = next;
    }
    format!("{value:.1} {suffix}")
}

#[test]
fn sizes_agree_with_f64_formatting_everywhere() {
    let mut state: u64 = 0x9e37_79b9_7f4a_7c15;
    let mut checked = 0_u32;
    let check = |bytes: u64| {
        assert_eq!(format_bytes(bytes), size_in_f64(bytes), "bytes = {bytes}");
    };
    for bytes in [
        0, 9_999, 10_000, 10_050, 999_949, 999_950, 1_000_000, 999_999_999, 1 << 53,
        (1 << 53) + 1, (1 << 63) + 12_345, u64::MAX - 1, u64::MAX,
    ] {
        check(bytes);
    }
    for _ in 0..200_000 {
        state ^= state << 13;
        state ^= state >> 7;
        state ^= state << 17;
        let shift = (state % 61) as u32;
        check(state >> shift);
        // A decimal half at some unit.
        let unit = [100_u64, 100_000, 100_000_000, 100_000_000_000][(state % 4) as usize];
        check((state % 100_000_000) * unit + unit / 2);
        checked += 2;
    }
    assert!(checked > 0);
}
