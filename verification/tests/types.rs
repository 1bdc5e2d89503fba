//! Primitive protocol values and their text.

use netsentry::decode::{EtherType, IpProtocol, MacAddress, TcpFlags};

#[test]
fn mac_addresses_print_in_the_conventional_form() {
    let mac = MacAddress([0x00, 0x11, 0x22, 0xaa, 0xbb, 0xcc]);
    assert_eq!(mac.to_text(), "00:11:22:aa:bb:cc");
    assert_eq!(MacAddress::broadcast().to_text(), "ff:ff:ff:ff:ff:ff");
}

#[test]
fn broadcast_and_multicast_are_recognised() {
    assert!(MacAddress::broadcast().is_broadcast());
    assert!(MacAddress::broadcast().is_multicast());
    // IPv4 multicast MACs start 01:00:5e.
    assert!(MacAddress([0x01, 0x00, 0x5e, 0, 0, 1]).is_multicast());
    assert!(!MacAddress([0x00, 0x11, 0x22, 0, 0, 1]).is_multicast());
    assert!(!MacAddress::unspecified().is_broadcast());
}

#[test]
fn ether_types_round_trip_through_their_raw_value() {
    for raw in [
        0x0800, 0x0806, 0x86dd, 0x8100, 0x88a8, 0x88cc, 0x0001, 0x05dc,
    ] {
        assert_eq!(EtherType::from_u16(raw).as_u16(), raw, "raw {raw:#06x}");
    }
}

#[test]
fn small_ether_type_values_are_lengths_not_types() {
    // In IEEE 802.3 a value of 1500 or below is a payload length.
    assert_eq!(EtherType::from_u16(0x05dc), EtherType::Length(1500));
    assert_eq!(EtherType::from_u16(0x05ff), EtherType::Length(0x05ff));
    assert_eq!(EtherType::from_u16(0x0600), EtherType::Other(0x0600));
}

#[test]
fn unknown_ether_types_keep_their_value_and_print_it() {
    // LLDP, which NetSentry does not decode.
    let lldp = EtherType::from_u16(0x88cc);
    assert_eq!(lldp, EtherType::Other(0x88cc));
    assert_eq!(lldp.to_text(), "EtherType 0x88cc");
}

#[test]
fn vlan_tags_are_flagged_as_such() {
    assert!(EtherType::Vlan.is_vlan());
    assert!(EtherType::VlanQinQ.is_vlan());
    assert!(!EtherType::Ipv4.is_vlan());
}

#[test]
fn ip_protocols_round_trip_and_name_themselves() {
    for raw in [0u8, 1, 6, 17, 43, 44, 50, 51, 58, 59, 60, 135, 200, 255] {
        assert_eq!(IpProtocol::from_u8(raw).as_u8(), raw, "raw {raw}");
    }
    assert_eq!(IpProtocol::from_u8(6).to_text(), "TCP");
    assert_eq!(IpProtocol::from_u8(200).to_text(), "IP protocol 200");
}

#[test]
fn tcp_flags_are_written_the_way_people_read_them() {
    assert_eq!(TcpFlags(0x002).to_text(), "SYN");
    assert_eq!(TcpFlags(0x012).to_text(), "SYN,ACK");
    assert_eq!(TcpFlags(0x011).to_text(), "FIN,ACK");
    assert_eq!(TcpFlags(0x004).to_text(), "RST");
    assert_eq!(TcpFlags(0x018).to_text(), "PSH,ACK");
    assert_eq!(TcpFlags(0x000).to_text(), "none");
}

#[test]
fn tcp_flag_predicates_distinguish_handshake_stages() {
    assert!(TcpFlags(0x002).is_syn());
    assert!(!TcpFlags(0x012).is_syn(), "SYN/ACK is not a bare SYN");
    assert!(TcpFlags(0x012).is_syn_ack());
    assert!(TcpFlags(0x014).is_reset());
    assert!(!TcpFlags(0x010).is_syn());
}

#[test]
fn reserved_tcp_bits_are_not_silently_dropped() {
    // The NS bit plus an unassigned reserved bit.
    let flags = TcpFlags(0x102);
    assert_eq!(flags.0, 0x102);
    assert_eq!(flags.to_text(), "SYN,NS");
}

#[test]
fn a_flag_mask_answers_for_any_of_its_bits() {
    assert!(TcpFlags(0x012).has(0x003));
    assert!(!TcpFlags(0x010).has(0x003));
    assert!(TcpFlags(0x100).has(0x100));
    assert!(!TcpFlags(0x000).has(0x1ff));
}
