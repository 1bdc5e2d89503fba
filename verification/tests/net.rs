//! Network-layer decoding: IPv4, IPv6 with its extension headers, and ARP.

use netsentry::decode::net::{IPV6_HEADER_LEN, MAX_EXTENSION_HEADERS, decode_arp, decode_ipv4, decode_ipv6};
use netsentry::decode::{
    ArpAddresses, ArpOperation, DecodeStop, EtherType, IpProtocol, Ipv4Address, MacAddress, NetworkLayer,
};

/// A 20-byte IPv4 header for a TCP packet, with no options.
fn ipv4_tcp() -> Vec<u8> {
    vec![
        0x45, // version 4, IHL 5 (20 bytes)
        0x00, // DSCP 0, ECN 0
        0x00, 0x3c, // total length 60
        0x1c, 0x46, // identification
        0x40, 0x00, // don't fragment, offset 0
        0x40, // TTL 64
        0x06, // protocol: TCP
        0xb1, 0xe6, // checksum
        192, 168, 1, 15, // source
        142, 250, 184, 14, // destination
    ]
}

#[test]
fn decodes_a_plain_ipv4_header() {
    let mut packet = ipv4_tcp();
    packet.extend_from_slice(&[0xde, 0xad]);

    let Ok(result) = decode_ipv4(&packet) else {
        panic!("a well-formed header must decode");
    };
    let NetworkLayer::Ipv4(header) = result.layer else {
        panic!("expected IPv4");
    };

    assert_eq!(header.source, Ipv4Address::new(192, 168, 1, 15));
    assert_eq!(header.destination, Ipv4Address::new(142, 250, 184, 14));
    assert_eq!(header.protocol, IpProtocol::Tcp);
    assert_eq!(header.ttl, 64);
    assert_eq!(header.header_len, 20);
    assert_eq!(header.total_len, 60);
    assert_eq!(header.identification, 0x1c46);
    assert_eq!(header.options_len, 0);
    assert!(header.dont_fragment);
    assert!(!header.more_fragments);
    assert_eq!(header.fragment_offset, 0);
    assert!(!header.is_fragment());
    assert_eq!(result.payload, &[0xde, 0xad]);
    assert_eq!(result.payload_protocol, Some(IpProtocol::Tcp));
}

#[test]
fn ipv4_options_move_the_payload_to_the_right_offset() {
    let mut packet = ipv4_tcp();
    packet[0] = 0x47; // IHL 7 => 28-byte header, 8 bytes of options
    // Eight bytes of options, then the payload.
    packet.extend_from_slice(&[0x01; 8]);
    packet.extend_from_slice(&[0xaa, 0xbb]);

    let Ok(result) = decode_ipv4(&packet) else {
        panic!("options are not a failure");
    };
    let NetworkLayer::Ipv4(header) = result.layer else {
        panic!("expected IPv4");
    };

    assert_eq!(header.header_len, 28);
    assert_eq!(header.options_len, 8);
    // The options must be skipped, not handed on as payload.
    assert_eq!(result.payload, &[0xaa, 0xbb]);
}

#[test]
fn net_options_that_run_past_the_captured_bytes_are_reported() {
    let mut packet = ipv4_tcp();
    packet[0] = 0x4f; // IHL 15 => 60-byte header, 40 bytes of options ...
    // ... but none of them are present.

    assert!(matches!(
        decode_ipv4(&packet),
        Err(DecodeStop::Truncated { .. })
    ));
}

#[test]
fn a_wrong_version_or_short_ihl_is_malformed_not_guessed() {
    let mut wrong_version = ipv4_tcp();
    wrong_version[0] = 0x65; // version 6 in an IPv4 slot
    assert!(matches!(
        decode_ipv4(&wrong_version),
        Err(DecodeStop::Malformed { .. })
    ));

    let mut short_ihl = ipv4_tcp();
    short_ihl[0] = 0x44; // IHL 4 => 16 bytes, below the minimum
    assert!(matches!(
        decode_ipv4(&short_ihl),
        Err(DecodeStop::Malformed { .. })
    ));
}

#[test]
fn a_total_length_shorter_than_the_header_is_malformed() {
    let mut packet = ipv4_tcp();
    packet[2] = 0x00;
    packet[3] = 0x0a; // total length 10, less than the 20-byte header

    assert!(matches!(
        decode_ipv4(&packet),
        Err(DecodeStop::Malformed { .. })
    ));
}

#[test]
fn a_first_fragment_still_carries_its_transport_header() {
    let mut packet = ipv4_tcp();
    packet[6] = 0x20; // more fragments, offset 0
    packet[7] = 0x00;
    packet.extend_from_slice(&[0xaa]);

    let Ok(result) = decode_ipv4(&packet) else {
        panic!("a first fragment is well-formed");
    };
    let NetworkLayer::Ipv4(header) = result.layer else {
        panic!("expected IPv4");
    };

    assert!(header.is_fragment());
    assert!(!header.is_non_initial_fragment());
    assert!(header.more_fragments);
    // The transport header really is here, so decoding may continue.
    assert_eq!(result.payload_protocol, Some(IpProtocol::Tcp));
    assert_eq!(result.stopped, None);
}

#[test]
fn a_later_fragment_is_not_parsed_as_if_it_had_a_transport_header() {
    let mut packet = ipv4_tcp();
    packet[6] = 0x20; // more fragments ...
    packet[7] = 0xb9; // ... at offset 185, so this is not the first
    packet.extend_from_slice(&[0xaa, 0xbb, 0xcc, 0xdd]);

    let Ok(result) = decode_ipv4(&packet) else {
        panic!("a later fragment is still a valid IPv4 header");
    };
    let NetworkLayer::Ipv4(header) = result.layer else {
        panic!("expected IPv4");
    };

    assert!(header.is_non_initial_fragment());
    assert_eq!(header.fragment_offset, 185);
    // These bytes are the middle of someone else's payload. Reading them
    // as a TCP header would invent a header that was never sent.
    assert_eq!(result.payload_protocol, None);
    assert_eq!(result.stopped, Some(DecodeStop::NonInitialFragment));
}

#[test]
fn every_truncation_of_an_ipv4_header_is_reported() {
    let packet = ipv4_tcp();
    for length in 0..packet.len() {
        let prefix = packet.get(..length).unwrap_or(&[]);
        let outcome = decode_ipv4(prefix);
        assert!(
            outcome.is_err(),
            "a {length}-byte IPv4 header must not decode"
        );
    }
    assert!(decode_ipv4(&packet).is_ok());
}

/// A 40-byte IPv6 header for a TCP packet.
fn ipv6_tcp() -> Vec<u8> {
    let mut packet = vec![
        0x60, 0x00, 0x00, 0x00, // version 6, traffic class 0, flow label 0
        0x00, 0x14, // payload length 20
        0x06, // next header: TCP
        0x40, // hop limit 64
    ];
    // 2001:db8::1 -> 2001:db8::2
    packet.extend_from_slice(&[
        0x20, 0x01, 0x0d, 0xb8, 0, 0, 0, 0, 0, 0, 0, 0, 0, 0, 0, 0x01,
    ]);
    packet.extend_from_slice(&[
        0x20, 0x01, 0x0d, 0xb8, 0, 0, 0, 0, 0, 0, 0, 0, 0, 0, 0, 0x02,
    ]);
    packet
}

#[test]
fn decodes_a_plain_ipv6_header() {
    let mut packet = ipv6_tcp();
    packet.extend_from_slice(&[0xaa, 0xbb]);

    let Ok(result) = decode_ipv6(&packet) else {
        panic!("a well-formed header must decode");
    };
    let NetworkLayer::Ipv6(header) = result.layer else {
        panic!("expected IPv6");
    };

    assert_eq!(header.source.to_text(), "2001:db8::1");
    assert_eq!(header.destination.to_text(), "2001:db8::2");
    assert_eq!(header.next_header, IpProtocol::Tcp);
    assert_eq!(header.hop_limit, 64);
    assert_eq!(header.payload_len, 20);
    assert!(header.extension_headers.is_empty());
    assert_eq!(result.payload, &[0xaa, 0xbb]);
    assert_eq!(result.payload_protocol, Some(IpProtocol::Tcp));
}

#[test]
fn traffic_class_and_flow_label_are_unpacked_correctly() {
    let mut packet = ipv6_tcp();
    // version 6, traffic class 0x88, flow label 0x12345
    packet[0] = 0x68;
    packet[1] = 0x81;
    packet[2] = 0x23;
    packet[3] = 0x45;

    let Ok(result) = decode_ipv6(&packet) else {
        panic!("must decode");
    };
    let NetworkLayer::Ipv6(header) = result.layer else {
        panic!("expected IPv6");
    };
    assert_eq!(header.traffic_class, 0x88);
    assert_eq!(header.flow_label, 0x12345);
}

#[test]
fn a_wrong_ipv6_version_is_malformed() {
    let mut packet = ipv6_tcp();
    packet[0] = 0x40; // version 4 in an IPv6 slot
    assert!(matches!(
        decode_ipv6(&packet),
        Err(DecodeStop::Malformed { .. })
    ));
}

#[test]
fn walks_an_ipv6_extension_header_chain_to_the_transport_header() {
    let mut packet = ipv6_tcp();
    packet[6] = 0x00; // next header: Hop-by-Hop
    // Hop-by-Hop: next header TCP, length 0 => 8 bytes total.
    packet.extend_from_slice(&[0x06, 0x00, 0, 0, 0, 0, 0, 0]);
    packet.extend_from_slice(&[0xaa, 0xbb]);

    let Ok(result) = decode_ipv6(&packet) else {
        panic!("a chain of known headers must be walked");
    };
    let NetworkLayer::Ipv6(header) = result.layer else {
        panic!("expected IPv6");
    };

    assert_eq!(header.extension_headers, vec![IpProtocol::HopByHop]);
    assert_eq!(header.next_header, IpProtocol::Tcp);
    // The payload starts after the extension header, not after byte 40.
    assert_eq!(result.payload, &[0xaa, 0xbb]);
}

#[test]
fn walks_a_longer_extension_header_chain() {
    let mut packet = ipv6_tcp();
    packet[6] = 0x00; // Hop-by-Hop ...
    // ... then Destination Options (60), 16 bytes long ...
    packet.extend_from_slice(&[0x3c, 0x00, 0, 0, 0, 0, 0, 0]);
    // ... then TCP.
    packet.extend_from_slice(&[0x06, 0x01, 0, 0, 0, 0, 0, 0]);
    packet.extend_from_slice(&[0u8; 8]);
    packet.push(0xaa);

    let Ok(result) = decode_ipv6(&packet) else {
        panic!("must decode");
    };
    let NetworkLayer::Ipv6(header) = result.layer else {
        panic!("expected IPv6");
    };
    assert_eq!(
        header.extension_headers,
        vec![IpProtocol::HopByHop, IpProtocol::Ipv6DestOpts]
    );
    assert_eq!(header.next_header, IpProtocol::Tcp);
    assert_eq!(result.payload, &[0xaa]);
}

#[test]
fn an_encrypted_payload_ends_the_walk_rather_than_being_guessed_at() {
    let mut packet = ipv6_tcp();
    packet[6] = 0x32; // ESP: the rest is encrypted
    packet.extend_from_slice(&[0xaa; 16]);

    let Ok(result) = decode_ipv6(&packet) else {
        panic!("the IPv6 header itself is fine");
    };
    // ESP is not an extension header we can step over, so decoding stops
    // rather than reading ciphertext as a TCP header.
    assert_eq!(result.payload_protocol, Some(IpProtocol::Esp));
}

#[test]
fn an_extension_chain_that_runs_off_the_packet_is_reported() {
    let mut packet = ipv6_tcp();
    packet[6] = 0x00; // Hop-by-Hop claiming 48 bytes ...
    packet.extend_from_slice(&[0x06, 0x05]); // ... but nothing follows

    let Ok(result) = decode_ipv6(&packet) else {
        panic!("the fixed header decoded fine");
    };
    assert!(matches!(result.stopped, Some(DecodeStop::Truncated { .. })));
    assert_eq!(result.payload_protocol, None);
}

#[test]
fn an_endless_extension_chain_is_bounded() {
    let mut packet = ipv6_tcp();
    packet[6] = 0x00;
    // Sixty Hop-by-Hop headers, each pointing at another one.
    for _ in 0..60 {
        packet.extend_from_slice(&[0x00, 0x00, 0, 0, 0, 0, 0, 0]);
    }

    let Ok(result) = decode_ipv6(&packet) else {
        panic!("must not fail outright");
    };
    let NetworkLayer::Ipv6(header) = &result.layer else {
        panic!("expected IPv6");
    };
    assert_eq!(header.extension_headers.len(), MAX_EXTENSION_HEADERS);
    assert!(matches!(
        result.stopped,
        Some(DecodeStop::UnsupportedExtensionHeader(_))
    ));
}

#[test]
fn a_later_ipv6_fragment_is_not_parsed_as_transport() {
    let mut packet = ipv6_tcp();
    packet[6] = 0x2c; // next header: Fragment
    // Fragment header: next TCP, reserved, offset 185 (<<3 = 0x05c8), id.
    packet.extend_from_slice(&[0x06, 0x00, 0x05, 0xc8, 0, 0, 0, 1]);
    packet.extend_from_slice(&[0xaa, 0xbb, 0xcc, 0xdd]);

    let Ok(result) = decode_ipv6(&packet) else {
        panic!("the header chain is well formed");
    };
    let NetworkLayer::Ipv6(header) = &result.layer else {
        panic!("expected IPv6");
    };

    assert!(header.non_initial_fragment);
    assert_eq!(result.payload_protocol, None);
    assert_eq!(result.stopped, Some(DecodeStop::NonInitialFragment));
}

#[test]
fn every_truncation_of_an_ipv6_header_is_reported() {
    let packet = ipv6_tcp();
    for length in 0..IPV6_HEADER_LEN {
        let prefix = packet.get(..length).unwrap_or(&[]);
        assert!(
            decode_ipv6(prefix).is_err(),
            "a {length}-byte IPv6 header must not decode"
        );
    }
    assert!(decode_ipv6(&packet).is_ok());
}

/// An Ethernet/IPv4 ARP request: who has 192.168.1.1?
fn arp_request() -> Vec<u8> {
    vec![
        0x00, 0x01, // hardware type: Ethernet
        0x08, 0x00, // protocol type: IPv4
        0x06, // hardware address length
        0x04, // protocol address length
        0x00, 0x01, // operation: request
        0x00, 0x11, 0x22, 0x33, 0x44, 0x55, // sender MAC
        192, 168, 1, 15, // sender IP
        0x00, 0x00, 0x00, 0x00, 0x00, 0x00, // target MAC: unknown
        192, 168, 1, 1, // target IP
    ]
}

#[test]
fn decodes_an_arp_request() {
    let packet = arp_request();
    let Ok(result) = decode_arp(&packet) else {
        panic!("a well-formed request must decode");
    };
    let NetworkLayer::Arp(arp) = result.layer else {
        panic!("expected ARP");
    };

    assert_eq!(arp.operation, ArpOperation::Request);
    assert_eq!(arp.hardware_type, 1);
    assert_eq!(arp.protocol_type, EtherType::Ipv4);

    let addresses = arp.addresses.unwrap_or(ArpAddresses {
        sender_mac: MacAddress::unspecified(),
        sender_ip: Ipv4Address::new(0, 0, 0, 0),
        target_mac: MacAddress::unspecified(),
        target_ip: Ipv4Address::new(0, 0, 0, 0),
    });
    assert_eq!(addresses.sender_ip, Ipv4Address::new(192, 168, 1, 15));
    assert_eq!(addresses.target_ip, Ipv4Address::new(192, 168, 1, 1));
    assert_eq!(addresses.sender_mac.to_text(), "00:11:22:33:44:55");
    assert_eq!(addresses.target_mac, MacAddress::unspecified());
    // Nothing rides on top of ARP.
    assert_eq!(result.payload_protocol, None);
}

#[test]
fn decodes_an_arp_reply() {
    let mut packet = arp_request();
    packet[7] = 0x02; // operation: reply
    packet.splice(18..24, [0xaa, 0xbb, 0xcc, 0xdd, 0xee, 0xff]);

    let Ok(result) = decode_arp(&packet) else {
        panic!("a well-formed reply must decode");
    };
    let NetworkLayer::Arp(arp) = result.layer else {
        panic!("expected ARP");
    };
    assert_eq!(arp.operation, ArpOperation::Reply);
    assert_eq!(
        arp.addresses.map(|a| a.target_mac.to_text()),
        Some("aa:bb:cc:dd:ee:ff".to_owned())
    );
}

#[test]
fn a_non_ethernet_arp_packet_is_reported_without_inventing_addresses() {
    let mut packet = arp_request();
    packet[1] = 0x06; // hardware type: IEEE 802 networks, not Ethernet

    let Ok(result) = decode_arp(&packet) else {
        panic!("the fixed part still decodes");
    };
    let NetworkLayer::Arp(arp) = result.layer else {
        panic!("expected ARP");
    };
    assert_eq!(arp.hardware_type, 6);
    assert_eq!(
        arp.addresses, None,
        "addresses of an unknown layout must not be read as Ethernet/IPv4"
    );
    assert_eq!(arp.operation, ArpOperation::Request);
}

#[test]
fn an_unknown_arp_operation_keeps_its_number() {
    let mut packet = arp_request();
    packet[7] = 0x09; // InARP reply
    let Ok(result) = decode_arp(&packet) else {
        panic!("must decode");
    };
    let NetworkLayer::Arp(arp) = result.layer else {
        panic!("expected ARP");
    };
    assert_eq!(arp.operation, ArpOperation::Other(9));
}

#[test]
fn every_truncation_of_an_arp_packet_is_reported() {
    let packet = arp_request();
    for length in 0..packet.len() {
        let prefix = packet.get(..length).unwrap_or(&[]);
        let outcome = decode_arp(prefix);
        // The first 8 bytes are the fixed part; a packet shorter than the
        // full 28 bytes cannot yield Ethernet/IPv4 addresses.
        if length < 8 {
            assert!(outcome.is_err(), "{length} bytes is not an ARP packet");
        } else if let Ok(result) = outcome {
            let NetworkLayer::Arp(arp) = result.layer else {
                panic!("expected ARP");
            };
            assert!(
                arp.addresses.is_none() || length == packet.len(),
                "{length} bytes must not yield complete addresses"
            );
        }
    }
}
