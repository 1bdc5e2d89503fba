//! Rendering a decoded packet as one line of terminal output.
//!
//! This module contains no decoding logic whatsoever: it reads an already
//! decoded packet and turns it into text. A packet is described by the
//! deepest layer that decoded, and a layer which did not decode is *named*
//! rather than silently omitted.

use vstd::prelude::*;

use crate::capture::pump::PacketMetadata;
use crate::decode::model::{
    ArpOperation, ArpPacket, DecodeStop, DecodedPacketView, LinkFrameView, NetworkLayerView,
};
use crate::decode::{DecodedPacket, IcmpMessage, LinkFrame, NetworkLayer, TransportLayer, VlanTag};
use crate::render::protocol::{protocol_text, push_protocol};
use crate::render::values::{
    ether_type_text, flags_text, ipv4_text, ipv6_text, mac_text, push_ether_type, push_flags, push_ipv4,
    push_ipv6, push_mac,
};
use crate::text::{
    byte_digits, pad_left, push_char, push_i64, push_str, push_u16, push_u64, push_u8, signed_digits,
    word_digits, digits,
};

verus! {

/// The two addresses of a network header, as text.
pub open spec fn address_pair(network: NetworkLayerView) -> (Seq<char>, Seq<char>) {
    match network {
        NetworkLayerView::Ipv4(header) => (ipv4_text(header.source), ipv4_text(header.destination)),
        NetworkLayerView::Ipv6(header) => (ipv6_text(header.source), ipv6_text(header.destination)),
        NetworkLayerView::Arp(_) => ("ARP"@, "ARP"@),
    }
}

/// Appends one address of a network header: the source, or the destination.
fn push_address_of(out: &mut String, network: &NetworkLayer, source: bool)
    ensures
        final(out)@ == old(out)@ + if source {
            address_pair(network@).0
        } else {
            address_pair(network@).1
        },
{
    match network {
        NetworkLayer::Ipv4(header) => push_ipv4(out, if source { header.source } else { header.destination }),
        NetworkLayer::Ipv6(header) => push_ipv6(out, if source { header.source } else { header.destination }),
        NetworkLayer::Arp(_) => push_str(out, "ARP"),
    }
}

/// `source → destination`, with no ports.
pub open spec fn addresses_text(network: NetworkLayerView) -> Seq<char> {
    address_pair(network).0 + " \u{2192} "@ + address_pair(network).1
}

/// The ports of a transport header that has them.
pub open spec fn ports_of(transport: TransportLayer) -> Option<(u16, u16)> {
    match transport {
        TransportLayer::Tcp(segment) => Some((segment.source_port, segment.destination_port)),
        TransportLayer::Udp(datagram) => Some((datagram.source_port, datagram.destination_port)),
        _ => None,
    }
}

/// `source:port → destination:port`, or bare addresses for a protocol
/// without ports.
pub open spec fn endpoints_text(network: NetworkLayerView, transport: TransportLayer) -> Seq<char> {
    match ports_of(transport) {
        Some((source_port, destination_port)) => address_pair(network).0 + seq![':'] + word_digits(
            source_port,
        ) + " \u{2192} "@ + address_pair(network).1 + seq![':'] + word_digits(destination_port),
        None => addresses_text(network),
    }
}

/// Appends the endpoints of a packet.
fn push_endpoints(out: &mut String, network: &NetworkLayer, transport: &TransportLayer)
    ensures
        final(out)@ == old(out)@ + endpoints_text(network@, *transport),
{
    let ports = match transport {
        TransportLayer::Tcp(segment) => Some((segment.source_port, segment.destination_port)),
        TransportLayer::Udp(datagram) => Some((datagram.source_port, datagram.destination_port)),
        _ => None,
    };
    push_address_of(out, network, true);
    match ports {
        Some((source_port, _)) => {
            push_char(out, ':');
            push_u16(out, source_port);
        },
        None => {},
    }
    push_str(out, " \u{2192} ");
    push_address_of(out, network, false);
    match ports {
        Some((_, destination_port)) => {
            push_char(out, ':');
            push_u16(out, destination_port);
        },
        None => {},
    }
    proof {
        assert(out@ =~= old(out)@ + endpoints_text(network@, *transport));
    }
}

/// `ICMP Echo Reply`, or `ICMP type 99 code 7` when the type has no name.
pub open spec fn message_text(message: IcmpMessage) -> Seq<char> {
    message.family.spec_label()@ + match message.spec_description() {
        Some(description) => seq![' '] + description@,
        None => " type "@ + byte_digits(message.message_type) + " code "@ + byte_digits(message.code),
    }
}

/// Appends the name of a message, or its numbers.
fn push_message(out: &mut String, message: IcmpMessage)
    ensures
        final(out)@ == old(out)@ + message_text(message),
{
    push_str(out, message.family.label());
    match message.description() {
        Some(description) => {
            push_char(out, ' ');
            push_str(out, description);
        },
        None => {
            push_str(out, " type ");
            push_u8(out, message.message_type);
            push_str(out, " code ");
            push_u8(out, message.code);
        },
    }
    proof {
        assert(out@ =~= old(out)@ + message_text(message));
    }
}

/// The protocol-specific tail of the line.
pub open spec fn transport_detail_text(transport: TransportLayer) -> Seq<char> {
    match transport {
        TransportLayer::Tcp(segment) => "TCP "@ + flags_text(segment.flags),
        TransportLayer::Udp(datagram) => "UDP len="@ + word_digits(datagram.length),
        TransportLayer::Icmp(message) => message_text(message),
    }
}

/// Appends the protocol-specific tail of the line.
fn push_transport_detail(out: &mut String, transport: &TransportLayer)
    ensures
        final(out)@ == old(out)@ + transport_detail_text(*transport),
{
    match transport {
        TransportLayer::Tcp(segment) => {
            push_str(out, "TCP ");
            push_flags(out, segment.flags);
        },
        TransportLayer::Udp(datagram) => {
            push_str(out, "UDP len=");
            push_u16(out, datagram.length);
        },
        TransportLayer::Icmp(message) => push_message(out, *message),
    }
    proof {
        assert(out@ =~= old(out)@ + transport_detail_text(*transport));
    }
}

/// The protocol a network header carried, as text.
pub open spec fn carried_protocol_text(network: Option<NetworkLayerView>) -> Seq<char> {
    match network {
        Some(NetworkLayerView::Ipv4(header)) => protocol_text(header.protocol),
        Some(NetworkLayerView::Ipv6(header)) => protocol_text(header.next_header),
        _ => "IP"@,
    }
}

/// What to say when a network header decoded but nothing above it did.
pub open spec fn network_only_text(packet: DecodedPacketView) -> Seq<char> {
    let protocol = carried_protocol_text(packet.network);
    match packet.stopped {
        Some(DecodeStop::NonInitialFragment) => protocol + " [later fragment]"@,
        Some(DecodeStop::Truncated { protocol: cut, .. }) => protocol + " [truncated "@ + cut@ + seq![']'],
        Some(DecodeStop::Malformed { protocol: bad, reason, .. }) => protocol + " [malformed "@ + bad@ + ": "@
            + reason@ + seq![']'],
        Some(DecodeStop::UnsupportedExtensionHeader(header)) => protocol + " [unfollowable "@ + protocol_text(
            header,
        ) + " header]"@,
        _ => protocol,
    }
}

/// Appends what to say when a network header decoded but nothing above it did.
fn push_network_only(out: &mut String, packet: &DecodedPacket)
    ensures
        final(out)@ == old(out)@ + network_only_text(packet@),
{
    match &packet.network {
        Some(NetworkLayer::Ipv4(header)) => push_protocol(out, header.protocol),
        Some(NetworkLayer::Ipv6(header)) => push_protocol(out, header.next_header),
        _ => push_str(out, "IP"),
    }
    match packet.stopped {
        Some(DecodeStop::NonInitialFragment) => push_str(out, " [later fragment]"),
        Some(DecodeStop::Truncated { protocol: cut, .. }) => {
            push_str(out, " [truncated ");
            push_str(out, cut);
            push_char(out, ']');
        },
        Some(DecodeStop::Malformed { protocol: bad, reason, .. }) => {
            push_str(out, " [malformed ");
            push_str(out, bad);
            push_str(out, ": ");
            push_str(out, reason);
            push_char(out, ']');
        },
        Some(DecodeStop::UnsupportedExtensionHeader(header)) => {
            push_str(out, " [unfollowable ");
            push_protocol(out, header);
            push_str(out, " header]");
        },
        _ => {},
    }
    proof {
        assert(out@ =~= old(out)@ + network_only_text(packet@));
    }
}

/// `Who has X? Tell Y` and `X is at Y`, the way ARP is conventionally read;
/// the numbers, when the packet is not Ethernet/IPv4.
pub open spec fn arp_text(arp: ArpPacket) -> Seq<char> {
    match arp.addresses {
        None => "ARP operation "@ + match arp.operation {
            ArpOperation::Request => "request"@,
            ArpOperation::Reply => "reply"@,
            ArpOperation::Other(code) => word_digits(code),
        } + " hardware type "@ + word_digits(arp.hardware_type),
        Some(addresses) => match arp.operation {
            ArpOperation::Request => "ARP Who has "@ + ipv4_text(addresses.target_ip) + "? Tell "@ + ipv4_text(
                addresses.sender_ip,
            ),
            ArpOperation::Reply => "ARP "@ + ipv4_text(addresses.sender_ip) + " is at "@ + mac_text(
                addresses.sender_mac,
            ),
            ArpOperation::Other(code) => "ARP operation "@ + word_digits(code) + seq![' '] + ipv4_text(
                addresses.sender_ip,
            ) + " \u{2192} "@ + ipv4_text(addresses.target_ip),
        },
    }
}

/// Appends the description of an ARP packet.
fn push_arp(out: &mut String, arp: &ArpPacket)
    ensures
        final(out)@ == old(out)@ + arp_text(*arp),
{
    match arp.addresses {
        None => {
            push_str(out, "ARP operation ");
            match arp.operation {
                ArpOperation::Request => push_str(out, "request"),
                ArpOperation::Reply => push_str(out, "reply"),
                ArpOperation::Other(code) => push_u16(out, code),
            }
            push_str(out, " hardware type ");
            push_u16(out, arp.hardware_type);
        },
        Some(addresses) => match arp.operation {
            ArpOperation::Request => {
                push_str(out, "ARP Who has ");
                push_ipv4(out, addresses.target_ip);
                push_str(out, "? Tell ");
                push_ipv4(out, addresses.sender_ip);
            },
            ArpOperation::Reply => {
                push_str(out, "ARP ");
                push_ipv4(out, addresses.sender_ip);
                push_str(out, " is at ");
                push_mac(out, addresses.sender_mac);
            },
            ArpOperation::Other(code) => {
                push_str(out, "ARP operation ");
                push_u16(out, code);
                push_char(out, ' ');
                push_ipv4(out, addresses.sender_ip);
                push_str(out, " \u{2192} ");
                push_ipv4(out, addresses.target_ip);
            },
        },
    }
    proof {
        assert(out@ =~= old(out)@ + arp_text(*arp));
    }
}

/// A bracketed note's text about why decoding stopped, when it adds anything:
/// an unsupported EtherType or protocol is already printed alongside.
pub open spec fn stop_detail_text(stop: Option<DecodeStop>) -> Option<Seq<char>> {
    match stop {
        Some(DecodeStop::Truncated { protocol, .. }) => Some("truncated "@ + protocol@),
        Some(DecodeStop::Malformed { protocol, reason, .. }) => Some(
            "malformed "@ + protocol@ + ": "@ + reason@,
        ),
        Some(DecodeStop::UnsupportedLinkType { dlt }) => Some(
            "no decoder for link type "@ + signed_digits(dlt as int),
        ),
        Some(DecodeStop::NonInitialFragment) => Some("later fragment"@),
        Some(DecodeStop::UnsupportedExtensionHeader(header)) => Some(
            "unfollowable "@ + protocol_text(header) + " header"@,
        ),
        _ => None,
    }
}

/// Appends the note about why decoding stopped, when there is one, and says
/// whether there was.
fn push_stop_detail(out: &mut String, stop: Option<DecodeStop>) -> (noted: bool)
    ensures
        noted == stop_detail_text(stop) is Some,
        final(out)@ == old(out)@ + match stop_detail_text(stop) {
            Some(detail) => detail,
            None => Seq::empty(),
        },
{
    let noted = match stop {
        Some(DecodeStop::Truncated { protocol, .. }) => {
            push_str(out, "truncated ");
            push_str(out, protocol);
            true
        },
        Some(DecodeStop::Malformed { protocol, reason, .. }) => {
            push_str(out, "malformed ");
            push_str(out, protocol);
            push_str(out, ": ");
            push_str(out, reason);
            true
        },
        Some(DecodeStop::UnsupportedLinkType { dlt }) => {
            push_str(out, "no decoder for link type ");
            push_dlt(out, dlt);
            true
        },
        Some(DecodeStop::NonInitialFragment) => {
            push_str(out, "later fragment");
            true
        },
        Some(DecodeStop::UnsupportedExtensionHeader(header)) => {
            push_str(out, "unfollowable ");
            push_protocol(out, header);
            push_str(out, " header");
            true
        },
        _ => false,
    };
    proof {
        assert(out@ =~= old(out)@ + match stop_detail_text(stop) {
            Some(detail) => detail,
            None => Seq::<char>::empty(),
        });
    }
    noted
}

/// Appends a link-type number.
fn push_dlt(out: &mut String, dlt: i32)
    ensures
        final(out)@ == old(out)@ + signed_digits(dlt as int),
{
    push_i64(out, dlt as i64);
}

/// ` vlan=<id>` for each VLAN tag, outermost first.
pub open spec fn vlan_text(tags: Seq<VlanTag>) -> Seq<char>
    decreases tags.len(),
{
    if tags.len() == 0 {
        Seq::empty()
    } else {
        vlan_text(tags.drop_last()) + " vlan="@ + word_digits(tags.last().id)
    }
}

/// What to say when nothing above the link layer decoded.
pub open spec fn link_only_text(packet: DecodedPacketView) -> Seq<char> {
    match packet.link {
        None => match stop_detail_text(packet.stopped) {
            Some(detail) => seq!['['] + detail + seq![']'],
            None => "[undecoded packet]"@,
        },
        Some(frame) => (match frame {
            LinkFrameView::Ethernet(f) => mac_text(f.source) + " \u{2192} "@ + mac_text(f.destination)
                + vlan_text(f.vlan_tags) + seq![' '] + ether_type_text(f.ether_type),
            LinkFrameView::LinuxSll(f) => "SLL "@ + ether_type_text(f.protocol),
        }) + match stop_detail_text(packet.stopped) {
            Some(detail) => " ["@ + detail + seq![']'],
            None => Seq::empty(),
        },
    }
}

/// Appends the VLAN ids of a frame.
fn push_vlans(out: &mut String, tags: &Vec<VlanTag>)
    ensures
        final(out)@ == old(out)@ + vlan_text(tags@),
{
    let mut k: usize = 0;
    while k < tags.len()
        invariant
            k <= tags@.len(),
            out@ == old(out)@ + vlan_text(tags@.subrange(0, k as int)),
        decreases tags@.len() - k,
    {
        push_str(out, " vlan=");
        push_u16(out, tags[k].id);
        proof {
            let next = tags@.subrange(0, k + 1);
            assert(next.drop_last() =~= tags@.subrange(0, k as int));
        }
        k = k + 1;
    }
    proof {
        assert(tags@.subrange(0, k as int) =~= tags@);
    }
}

/// Appends what to say when nothing above the link layer decoded.
fn push_link_only(out: &mut String, packet: &DecodedPacket)
    ensures
        final(out)@ == old(out)@ + link_only_text(packet@),
{
    match &packet.link {
        None => {
            let mut detail = String::new();
            let noted = push_stop_detail(&mut detail, packet.stopped);
            if noted {
                push_char(out, '[');
                push_str(out, detail.as_str());
                push_char(out, ']');
            } else {
                push_str(out, "[undecoded packet]");
            }
        },
        Some(frame) => {
            match frame {
                LinkFrame::Ethernet(f) => {
                    push_mac(out, f.source);
                    push_str(out, " \u{2192} ");
                    push_mac(out, f.destination);
                    push_vlans(out, &f.vlan_tags);
                    push_char(out, ' ');
                    push_ether_type(out, f.ether_type);
                },
                LinkFrame::LinuxSll(f) => {
                    push_str(out, "SLL ");
                    push_ether_type(out, f.protocol);
                },
            }
            let mut detail = String::new();
            let noted = push_stop_detail(&mut detail, packet.stopped);
            if noted {
                push_str(out, " [");
                push_str(out, detail.as_str());
                push_char(out, ']');
            }
        },
    }
    proof {
        assert(out@ =~= old(out)@ + link_only_text(packet@));
    }
}

/// A decoded packet described in as much detail as was understood.
pub open spec fn summary_text(packet: DecodedPacketView) -> Seq<char> {
    match (packet.network, packet.transport) {
        (Some(NetworkLayerView::Arp(arp)), _) => arp_text(arp),
        (Some(network), Some(transport)) => endpoints_text(network, transport) + seq![' ']
            + transport_detail_text(transport),
        (Some(network), None) => addresses_text(network) + seq![' '] + network_only_text(packet),
        (None, _) => link_only_text(packet),
    }
}

/// Appends the description of a decoded packet.
fn push_summary(out: &mut String, packet: &DecodedPacket)
    ensures
        final(out)@ == old(out)@ + summary_text(packet@),
{
    match (&packet.network, &packet.transport) {
        (Some(NetworkLayer::Arp(arp)), _) => push_arp(out, arp),
        (Some(network), Some(transport)) => {
            push_endpoints(out, network, transport);
            push_char(out, ' ');
            push_transport_detail(out, transport);
        },
        (Some(network), None) => {
            push_address_of(out, network, true);
            push_str(out, " \u{2192} ");
            push_address_of(out, network, false);
            push_char(out, ' ');
            push_network_only(out, packet);
        },
        (None, _) => push_link_only(out, packet),
    }
    proof {
        assert(out@ =~= old(out)@ + summary_text(packet@));
    }
}

/// Describes a decoded packet in as much detail as was understood.
///
/// The rule throughout is that a packet is described by the deepest layer that
/// decoded, and that a layer which did not decode is *named* rather than
/// silently omitted.
pub fn summary(packet: &DecodedPacket) -> (text: String)
    ensures
        text@ == summary_text(packet@),
{
    let mut out = String::new();
    push_summary(&mut out, packet);
    proof {
        assert(Seq::<char>::empty() + summary_text(packet@) =~= summary_text(packet@));
    }
    out
}

/// One packet's line: its number right-aligned to six columns, its time of
/// day, and its description.
pub open spec fn packet_line_text(metadata: PacketMetadata, packet: DecodedPacketView) -> Seq<char> {
    pad_left(digits(metadata.number as nat), 6, ' ') + "  "@ + metadata.timestamp.spec_time_of_day() + "  "@
        + summary_text(packet)
}

/// Renders one captured packet as a single line, without a trailing newline.
pub fn packet_line(metadata: &PacketMetadata, packet: &DecodedPacket) -> (line: String)
    ensures
        line@ == packet_line_text(*metadata, packet@),
{
    let mut number = String::new();
    push_u64(&mut number, metadata.number);
    let mut out = String::new();
    crate::text::push_padded_left(&mut out, number.as_str(), 6, ' ');
    push_str(&mut out, "  ");
    let clock = metadata.timestamp.format_time_of_day();
    push_str(&mut out, clock.as_str());
    push_str(&mut out, "  ");
    push_summary(&mut out, packet);
    proof {
        assert(number@ =~= digits(metadata.number as nat));
        assert(out@ =~= packet_line_text(*metadata, packet@));
    }
    out
}

} // verus!
