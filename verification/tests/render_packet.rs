//! Rendering a decoded packet as one line.

use netsentry::capture::{PacketMetadata, PacketTimestamp};
use netsentry::decode::{
    ArpAddresses, ArpOperation, ArpPacket, DecodeStop, DecodedPacket, EtherType, EthernetFrame, IcmpFamily,
    IcmpMessage, IpProtocol, Ipv4Address, Ipv4Header, Ipv6Address, Ipv6Header, Layer, LinkFrame, LinkLayer,
    LinuxSllFrame, MacAddress, NetworkLayer, SllPacketType, SllVersion, TcpFlags, TcpHeader,
    TransportLayer, UdpHeader, VlanTag, decode,
};
use netsentry::render::packet::{packet_line, summary};


fn metadata() -> PacketMetadata {
    PacketMetadata {
        number: 1,
        timestamp: PacketTimestamp::from_parts(1_790_005_351, 123_456),
        caplen: 74,
        wirelen: 74,
    }
}

fn ipv4(protocol: IpProtocol) -> NetworkLayer {
    NetworkLayer::Ipv4(Ipv4Header {
        source: Ipv4Address::new(192, 168, 1, 15),
        destination: Ipv4Address::new(142, 250, 184, 14),
        protocol,
        ttl: 64,
        header_len: 20,
        total_len: 60,
        identification: 0,
        dscp: 0,
        ecn: 0,
        dont_fragment: true,
        more_fragments: false,
        fragment_offset: 0,
        checksum: 0,
        options_len: 0,
    })
}

fn tcp(source_port: u16, destination_port: u16, flags: u16) -> TransportLayer {
    TransportLayer::Tcp(TcpHeader {
        source_port,
        destination_port,
        sequence: 0,
        acknowledgment: 0,
        header_len: 20,
        flags: TcpFlags(flags),
        window: 64240,
        checksum: 0,
        urgent_pointer: 0,
        options_len: 0,
    })
}

fn packet(network: Option<NetworkLayer>, transport: Option<TransportLayer>) -> DecodedPacket {
    DecodedPacket {
        link: Some(LinkFrame::Ethernet(EthernetFrame {
            source: MacAddress([0x00, 0x11, 0x22, 0x33, 0x44, 0x55]),
            destination: MacAddress([0xaa, 0xbb, 0xcc, 0xdd, 0xee, 0xff]),
            ether_type: EtherType::Ipv4,
            vlan_tags: vec![],
        })),
        network,
        transport,
        stopped: None,
    }
}

#[test]
fn renders_a_tcp_segment_the_way_the_examples_read() {
    let decoded = packet(Some(ipv4(IpProtocol::Tcp)), Some(tcp(53122, 443, 0x002)));
    assert_eq!(
        summary(&decoded),
        "192.168.1.15:53122 \u{2192} 142.250.184.14:443 TCP SYN"
    );

    let line = packet_line(&metadata(), &decoded);
    assert_eq!(
        line,
        "     1  15:42:31.123456  192.168.1.15:53122 \u{2192} 142.250.184.14:443 TCP SYN"
    );
}

#[test]
fn renders_a_udp_datagram_with_its_declared_length() {
    let decoded = packet(
        Some(ipv4(IpProtocol::Udp)),
        Some(TransportLayer::Udp(UdpHeader {
            source_port: 60432,
            destination_port: 53,
            length: 42,
            checksum: 0,
            captured_payload_len: 34,
        })),
    );
    assert!(summary(&decoded).ends_with(":60432 \u{2192} 142.250.184.14:53 UDP len=42"));
}

#[test]
fn renders_icmp_without_ports_and_with_its_name() {
    let decoded = packet(
        Some(ipv4(IpProtocol::Icmp)),
        Some(TransportLayer::Icmp(IcmpMessage {
            family: IcmpFamily::V4,
            message_type: 0,
            code: 0,
            checksum: 0,
        })),
    );
    assert_eq!(
        summary(&decoded),
        "192.168.1.15 \u{2192} 142.250.184.14 ICMP Echo Reply"
    );
}

#[test]
fn an_unnamed_icmp_type_is_shown_by_its_numbers() {
    let decoded = packet(
        Some(ipv4(IpProtocol::Icmp)),
        Some(TransportLayer::Icmp(IcmpMessage {
            family: IcmpFamily::V4,
            message_type: 99,
            code: 7,
            checksum: 0,
        })),
    );
    assert!(summary(&decoded).ends_with("ICMP type 99 code 7"));
}

#[test]
fn renders_arp_requests_and_replies_in_their_conventional_wording() {
    let addresses = ArpAddresses {
        sender_mac: MacAddress([0x00, 0x11, 0x22, 0x33, 0x44, 0x55]),
        sender_ip: Ipv4Address::new(192, 168, 1, 15),
        target_mac: MacAddress::unspecified(),
        target_ip: Ipv4Address::new(192, 168, 1, 1),
    };

    let request = packet(
        Some(NetworkLayer::Arp(ArpPacket {
            operation: ArpOperation::Request,
            hardware_type: 1,
            protocol_type: EtherType::Ipv4,
            addresses: Some(addresses),
        })),
        None,
    );
    assert_eq!(
        summary(&request),
        "ARP Who has 192.168.1.1? Tell 192.168.1.15"
    );

    let reply = packet(
        Some(NetworkLayer::Arp(ArpPacket {
            operation: ArpOperation::Reply,
            hardware_type: 1,
            protocol_type: EtherType::Ipv4,
            addresses: Some(ArpAddresses {
                sender_ip: Ipv4Address::new(192, 168, 1, 1),
                sender_mac: MacAddress([0xaa, 0xbb, 0xcc, 0xdd, 0xee, 0xff]),
                ..addresses
            }),
        })),
        None,
    );
    assert_eq!(summary(&reply), "ARP 192.168.1.1 is at aa:bb:cc:dd:ee:ff");
}

#[test]
fn renders_ipv6_addresses() {
    let decoded = packet(
        Some(NetworkLayer::Ipv6(Ipv6Header {
            source: Ipv6Address::new(0x2001, 0xdb8, 0, 0, 0, 0, 0, 1),
            destination: Ipv6Address::new(0x2001, 0xdb8, 0, 0, 0, 0, 0, 2),
            next_header: IpProtocol::Tcp,
            hop_limit: 64,
            payload_len: 20,
            traffic_class: 0,
            flow_label: 0,
            extension_headers: vec![],
            non_initial_fragment: false,
        })),
        Some(tcp(443, 53122, 0x012)),
    );
    assert_eq!(
        summary(&decoded),
        "2001:db8::1:443 \u{2192} 2001:db8::2:53122 TCP SYN,ACK"
    );
}

#[test]
fn an_unknown_ether_type_falls_back_to_the_link_header() {
    let decoded = DecodedPacket {
        link: Some(LinkFrame::Ethernet(EthernetFrame {
            source: MacAddress([0x00, 0x11, 0x22, 0x33, 0x44, 0x55]),
            destination: MacAddress([0xaa, 0xbb, 0xcc, 0xdd, 0xee, 0xff]),
            ether_type: EtherType::Other(0x88cc),
            vlan_tags: vec![],
        })),
        network: None,
        transport: None,
        stopped: Some(DecodeStop::UnsupportedEtherType(EtherType::Other(0x88cc))),
    };
    assert_eq!(
        summary(&decoded),
        "00:11:22:33:44:55 \u{2192} aa:bb:cc:dd:ee:ff EtherType 0x88cc"
    );
}

#[test]
fn vlan_ids_are_shown_on_the_link_fallback_line() {
    let decoded = DecodedPacket {
        link: Some(LinkFrame::Ethernet(EthernetFrame {
            source: MacAddress([0x00, 0x11, 0x22, 0x33, 0x44, 0x55]),
            destination: MacAddress::broadcast(),
            ether_type: EtherType::Other(0x88cc),
            vlan_tags: vec![VlanTag {
                tag_protocol: EtherType::Vlan,
                priority: 0,
                drop_eligible: false,
                id: 100,
            }],
        })),
        network: None,
        transport: None,
        stopped: Some(DecodeStop::UnsupportedEtherType(EtherType::Other(0x88cc))),
    };
    assert!(summary(&decoded).contains("vlan=100"));
}

#[test]
fn a_truncated_packet_says_so_rather_than_showing_nothing() {
    let decoded = DecodedPacket {
        link: None,
        network: None,
        transport: None,
        stopped: Some(DecodeStop::Truncated {
            layer: Layer::Network,
            protocol: "IPv4",
        }),
    };
    assert_eq!(summary(&decoded), "[truncated IPv4]");
}

#[test]
fn a_truncated_transport_header_keeps_the_addresses_that_did_decode() {
    let decoded = DecodedPacket {
        stopped: Some(DecodeStop::Truncated {
            layer: Layer::Transport,
            protocol: "TCP",
        }),
        ..packet(Some(ipv4(IpProtocol::Tcp)), None)
    };
    assert_eq!(
        summary(&decoded),
        "192.168.1.15 \u{2192} 142.250.184.14 TCP [truncated TCP]"
    );
}

#[test]
fn a_later_fragment_is_labelled_as_one() {
    let decoded = DecodedPacket {
        stopped: Some(DecodeStop::NonInitialFragment),
        ..packet(Some(ipv4(IpProtocol::Tcp)), None)
    };
    assert!(summary(&decoded).ends_with("TCP [later fragment]"));
}

#[test]
fn an_unsupported_link_type_is_reported_on_its_own() {
    let decoded = DecodedPacket::stopped_at(DecodeStop::UnsupportedLinkType { dlt: 105 });
    assert_eq!(summary(&decoded), "[no decoder for link type 105]");
}

#[test]
fn a_linux_cooked_frame_without_a_decodable_payload_still_renders() {
    let decoded = DecodedPacket {
        link: Some(LinkFrame::LinuxSll(LinuxSllFrame {
            version: SllVersion::V1,
            packet_type: SllPacketType::Host,
            arphrd_type: 1,
            source_address: vec![],
            protocol: EtherType::Other(0x4321),
        })),
        network: None,
        transport: None,
        stopped: Some(DecodeStop::UnsupportedEtherType(EtherType::Other(0x4321))),
    };
    assert_eq!(summary(&decoded), "SLL EtherType 0x4321");
}

#[test]
fn an_unsupported_ip_protocol_names_the_protocol() {
    let decoded = DecodedPacket {
        stopped: Some(DecodeStop::UnsupportedProtocol(IpProtocol::Other(47))),
        ..packet(Some(ipv4(IpProtocol::Other(47))), None)
    };
    assert_eq!(
        summary(&decoded),
        "192.168.1.15 \u{2192} 142.250.184.14 IP protocol 47"
    );
}

#[test]
fn packet_line_survives_an_unconvertible_timestamp() {
    let broken = PacketMetadata {
        timestamp: PacketTimestamp::from_parts(i64::MAX, -5),
        ..metadata()
    };
    let decoded = packet(Some(ipv4(IpProtocol::Tcp)), Some(tcp(53122, 443, 0x002)));

    let line = packet_line(&broken, &decoded);
    // The timestamp degrades to its raw form; the packet is still described.
    assert!(line.contains("raw"), "{line}");
    assert!(line.contains("TCP SYN"), "{line}");
}

#[test]
fn no_decoded_packet_can_make_the_renderer_panic() {
    // Feed the renderer the output of the decoder for a wide range of junk.
    // Rendering is the last step before the terminal; it must be as
    // unfailing as the decoding that precedes it.
    let mut rendered = 0usize;
    for link in [
        LinkLayer::Ethernet,
        LinkLayer::LinuxSll,
        LinkLayer::Unsupported(9),
    ] {
        for length in 0..64usize {
            for fill in [0x00u8, 0xff, 0x45, 0x60, 0x81] {
                let bytes = vec![fill; length];
                let decoded = decode(link, &bytes);
                let line = packet_line(&metadata(), &decoded);
                assert!(!line.is_empty());
                rendered += 1;
            }
        }
    }
    assert!(rendered > 900, "only {rendered} renders");
}
