//! Packet decoding.
//!
//! One pure function: [`decode`] takes a link type and a slice of bytes and
//! returns what it understood. It knows nothing about libpcap, about which
//! interface the bytes came from, or about where the answer will be printed,
//! and it holds no state between calls.
//!
//! Every byte reaching this layer came off a network and is untrusted. Every
//! read goes through [`bytes::ByteReader`], loops over attacker-controlled
//! chains are bounded, and a malformed packet produces a *result* — a
//! [`DecodedPacket`] whose `stopped` field says how far decoding got — never a
//! panic. Payload is not stored, checksums are not verified, and nothing above
//! the transport header is parsed.

pub mod bytes;
pub mod link;
pub mod model;
pub mod net;
pub mod transport;
pub mod types;

pub use model::{
    ArpAddresses, ArpOperation, ArpPacket, DecodeStop, DecodedPacket, EthernetFrame, IcmpFamily,
    IcmpMessage, Ipv4Header, Ipv6Header, Layer, LinkFrame, LinuxSllFrame, NetworkLayer,
    SllPacketType, SllVersion, TcpHeader, TransportLayer, UdpHeader, VlanTag,
};
pub use types::{EtherType, IpAddress, IpProtocol, Ipv4Address, Ipv6Address, MacAddress, TcpFlags};

use vstd::prelude::*;

use crate::decode::link::{
    decode_ethernet, decode_linux_sll, decode_linux_sll2, spec_decode_ethernet,
    spec_decode_linux_sll, spec_decode_linux_sll2, vlan_chain, LinkResult, MAX_VLAN_TAGS,
};
use crate::decode::model::{
    DecodedPacketView, EthernetFrameView, LinkFrameView, NetworkLayerView,
};
use crate::decode::net::{
    decode_arp, decode_ipv4, decode_ipv6, extension_walk, spec_decode_arp, spec_decode_ipv4,
    spec_decode_ipv6, ExtensionChainView, NetworkResult, NetworkSpec, MAX_EXTENSION_HEADERS,
};
use crate::decode::transport::{
    decode_icmp, decode_tcp, decode_udp, spec_decode_icmp, spec_decode_tcp, spec_decode_udp,
};

verus! {

/// The link-layer format of a capture, as far as decoding is concerned.
#[derive(Debug, Clone, Copy, PartialEq, Eq, Structural)]
pub enum LinkLayer {
    /// `DLT_EN10MB` (1): Ethernet II, by far the common case.
    Ethernet,
    /// `DLT_LINUX_SLL` (113): Linux cooked capture, used by the `any` device.
    LinuxSll,
    /// `DLT_LINUX_SLL2` (276): the newer cooked-capture header.
    LinuxSll2,
    /// A link type NetSentry has no decoder for.
    Unsupported(i32),
}

impl LinkLayer {
    /// The classification of a `DLT_*` value.
    pub open spec fn spec_from_dlt(dlt: i32) -> LinkLayer {
        if dlt == 1 {
            LinkLayer::Ethernet
        } else if dlt == 113 {
            LinkLayer::LinuxSll
        } else if dlt == 276 {
            LinkLayer::LinuxSll2
        } else {
            LinkLayer::Unsupported(dlt)
        }
    }

    /// The `DLT_*` value a link layer stands for.
    pub open spec fn spec_as_dlt(self) -> i32 {
        match self {
            LinkLayer::Ethernet => 1,
            LinkLayer::LinuxSll => 113,
            LinkLayer::LinuxSll2 => 276,
            LinkLayer::Unsupported(dlt) => dlt,
        }
    }

    /// Classifies a `DLT_*` value from the capture driver.
    pub fn from_dlt(dlt: i32) -> (link: Self)
        ensures
            link == Self::spec_from_dlt(dlt),
    {
        match dlt {
            1 => Self::Ethernet,
            113 => Self::LinuxSll,
            276 => Self::LinuxSll2,
            other => Self::Unsupported(other),
        }
    }

    /// The `DLT_*` value this corresponds to.
    pub fn as_dlt(self) -> (dlt: i32)
        ensures
            dlt == self.spec_as_dlt(),
    {
        match self {
            Self::Ethernet => 1,
            Self::LinuxSll => 113,
            Self::LinuxSll2 => 276,
            Self::Unsupported(dlt) => dlt,
        }
    }
}

/// Classifying a `DLT_*` value and turning it back into a number gives back the
/// value the driver reported.
pub proof fn law_link_layer_round_trip(dlt: i32)
    ensures
        LinkLayer::spec_from_dlt(dlt).spec_as_dlt() == dlt,
{
}

/// A packet of which nothing but the reason decoding stopped is known.
pub open spec fn stopped_view(stop: DecodeStop) -> DecodedPacketView {
    DecodedPacketView { link: None, network: None, transport: None, stopped: Some(stop) }
}

/// What the layers above a decoded network header decode to.
pub open spec fn spec_above_network(
    frame: LinkFrameView,
    layer: NetworkLayerView,
    payload_protocol: Option<IpProtocol>,
    payload: Seq<u8>,
    stopped: Option<DecodeStop>,
) -> DecodedPacketView {
    let partial = DecodedPacketView {
        link: Some(frame),
        network: Some(layer),
        transport: None,
        stopped,
    };
    match payload_protocol {
        None => partial,
        Some(protocol) => {
            let transport = match protocol {
                IpProtocol::Tcp => Some(spec_decode_tcp(payload)),
                IpProtocol::Udp => Some(spec_decode_udp(payload)),
                IpProtocol::Icmp => Some(spec_decode_icmp(payload, IcmpFamily::V4)),
                IpProtocol::Icmpv6 => Some(spec_decode_icmp(payload, IcmpFamily::V6)),
                _ => None,
            };
            match transport {
                None => DecodedPacketView {
                    stopped: Some(DecodeStop::UnsupportedProtocol(protocol)),
                    ..partial
                },
                Some(Ok(header)) => DecodedPacketView { transport: Some(header), ..partial },
                Some(Err(stop)) => DecodedPacketView { stopped: Some(stop), ..partial },
            }
        },
    }
}

/// What the network header of a payload of type `ether_type` decodes to, if
/// NetSentry decodes that type at all.
pub open spec fn spec_network(ether_type: EtherType, payload: Seq<u8>) -> Option<NetworkSpec> {
    match ether_type {
        EtherType::Ipv4 => Some(spec_decode_ipv4(payload)),
        EtherType::Ipv6 => Some(spec_decode_ipv6(payload)),
        EtherType::Arp => Some(spec_decode_arp(payload)),
        _ => None,
    }
}

/// What the layers above a decoded link frame decode to.
pub open spec fn spec_above_link(frame: LinkFrameView, ether_type: EtherType, payload: Seq<u8>) -> DecodedPacketView {
    let partial = DecodedPacketView {
        link: Some(frame),
        network: None,
        transport: None,
        stopped: None,
    };
    match spec_network(ether_type, payload) {
        None => DecodedPacketView {
            stopped: Some(DecodeStop::UnsupportedEtherType(ether_type)),
            ..partial
        },
        Some(Err(stop)) => DecodedPacketView { stopped: Some(stop), ..partial },
        Some(Ok((layer, payload_protocol, start, stopped))) => spec_above_network(
            frame,
            layer,
            payload_protocol,
            payload.subrange(start, payload.len() as int),
            stopped,
        ),
    }
}

/// What one captured packet decodes to.
pub open spec fn spec_decode(link: LinkLayer, data: Seq<u8>) -> DecodedPacketView {
    let link_spec = match link {
        LinkLayer::Ethernet => Some(spec_decode_ethernet(data)),
        LinkLayer::LinuxSll => Some(spec_decode_linux_sll(data)),
        LinkLayer::LinuxSll2 => Some(spec_decode_linux_sll2(data)),
        LinkLayer::Unsupported(_) => None,
    };
    match link_spec {
        None => stopped_view(DecodeStop::UnsupportedLinkType { dlt: link.spec_as_dlt() }),
        Some(Err(stop)) => stopped_view(stop),
        Some(Ok((frame, ether_type, start))) => spec_above_link(
            frame,
            ether_type,
            data.subrange(start, data.len() as int),
        ),
    }
}

/// A VLAN tag stack never grows past [`MAX_VLAN_TAGS`].
proof fn lemma_vlan_chain_bounded(data: Seq<u8>, at: int, ether_type: EtherType, count: nat)
    requires
        count <= MAX_VLAN_TAGS,
    ensures
        vlan_chain(data, at, ether_type, count) matches Ok((tags, _, _)) ==> tags.len() + count
            <= MAX_VLAN_TAGS,
    decreases MAX_VLAN_TAGS - count,
{
    if ether_type.spec_is_vlan() && count < MAX_VLAN_TAGS && at + 4 <= data.len() {
        let inner = EtherType::spec_from_u16(crate::decode::bytes::be16(data, at + 2) as u16);
        lemma_vlan_chain_bounded(data, at + 4, inner, count + 1);
    }
}

/// An extension header walk never steps over more than
/// [`MAX_EXTENSION_HEADERS`] headers.
proof fn lemma_extension_walk_bounded(
    data: Seq<u8>,
    at: int,
    protocol: IpProtocol,
    count: nat,
    walked: Seq<IpProtocol>,
)
    requires
        count <= MAX_EXTENSION_HEADERS,
        walked.len() == count,
    ensures
        extension_walk(data, at, protocol, count, walked).walked.len() <= MAX_EXTENSION_HEADERS,
    decreases MAX_EXTENSION_HEADERS - count,
{
    if count < MAX_EXTENSION_HEADERS {
        match crate::decode::net::extension_length(data, at, protocol) {
            Some(Ok(length)) => {
                if at + length <= data.len() {
                    let next = IpProtocol::spec_from_u8(data[at]);
                    lemma_extension_walk_bounded(
                        data,
                        at + length,
                        next,
                        count + 1,
                        walked.push(protocol),
                    );
                }
            },
            _ => {},
        }
    }
}

/// The layers of a decoded packet nest: a transport header is only ever
/// reported above a network header, and a network header above a link frame.
/// When decoding did not stop, every layer the packet has was decoded: a
/// transport header, or an ARP packet, which has nothing above it. However
/// hostile the bytes, at most [`MAX_VLAN_TAGS`] VLAN tags and
/// [`MAX_EXTENSION_HEADERS`] IPv6 extension headers are followed.
pub proof fn law_decoded_layers_nest(link: LinkLayer, data: Seq<u8>)
    ensures
        ({
            let packet = spec_decode(link, data);
            &&& packet.transport is Some ==> packet.network is Some
            &&& packet.network is Some ==> packet.link is Some
            &&& packet.stopped is None ==> packet.link is Some && packet.network is Some && (
            packet.transport is Some || packet.network matches Some(NetworkLayerView::Arp(_)))
            &&& packet.link matches Some(LinkFrameView::Ethernet(frame)) ==> frame.vlan_tags.len()
                <= MAX_VLAN_TAGS
            &&& packet.network matches Some(NetworkLayerView::Ipv6(header))
                ==> header.extension_headers.len() <= MAX_EXTENSION_HEADERS
        }),
{
    if link is Ethernet && data.len() >= link::ETHERNET_HEADER_LEN {
        let outer = EtherType::spec_from_u16(crate::decode::bytes::be16(data, 12) as u16);
        lemma_vlan_chain_bounded(data, link::ETHERNET_HEADER_LEN as int, outer, 0);
    }
    let link_spec = match link {
        LinkLayer::Ethernet => Some(spec_decode_ethernet(data)),
        LinkLayer::LinuxSll => Some(spec_decode_linux_sll(data)),
        LinkLayer::LinuxSll2 => Some(spec_decode_linux_sll2(data)),
        LinkLayer::Unsupported(_) => None,
    };
    if let Some(Ok((frame, ether_type, start))) = link_spec {
        let payload = data.subrange(start, data.len() as int);
        if ether_type == EtherType::Ipv6 && payload.len() >= net::IPV6_HEADER_LEN {
            lemma_extension_walk_bounded(
                payload,
                net::IPV6_HEADER_LEN as int,
                IpProtocol::spec_from_u8(payload[6]),
                0,
                seq![],
            );
        }
    }
}

/// Decodes one captured packet.
///
/// Never fails and never panics: an undecodable packet comes back carrying
/// whatever was understood plus a [`DecodeStop`] explaining where decoding
/// ended.
pub fn decode(link: LinkLayer, bytes: &[u8]) -> (packet: DecodedPacket)
    ensures
        packet@ == spec_decode(link, bytes@),
{
    let link_result = match link {
        LinkLayer::Ethernet => decode_ethernet(bytes),
        LinkLayer::LinuxSll => decode_linux_sll(bytes),
        LinkLayer::LinuxSll2 => decode_linux_sll2(bytes),
        LinkLayer::Unsupported(dlt) => {
            return DecodedPacket::stopped_at(DecodeStop::UnsupportedLinkType { dlt });
        },
    };

    match link_result {
        Ok(result) => decode_above_link(result),
        Err(stop) => DecodedPacket::stopped_at(stop),
    }
}

/// Continues from a decoded link frame into the network layer.
fn decode_above_link(link: LinkResult<'_>) -> (packet: DecodedPacket)
    ensures
        packet@ == spec_above_link(link.frame@, link.payload_type, link.payload@),
{
    let ghost frame = link.frame@;
    let network_result = match link.payload_type {
        EtherType::Ipv4 => decode_ipv4(link.payload),
        EtherType::Ipv6 => decode_ipv6(link.payload),
        EtherType::Arp => decode_arp(link.payload),
        other => {
            return DecodedPacket {
                link: Some(link.frame),
                network: None,
                transport: None,
                stopped: Some(DecodeStop::UnsupportedEtherType(other)),
            };
        },
    };

    match network_result {
        Ok(result) => decode_above_network(link.frame, result),
        Err(stop) => DecodedPacket {
            link: Some(link.frame),
            network: None,
            transport: None,
            stopped: Some(stop),
        },
    }
}

/// Continues from a decoded network header into the transport layer.
fn decode_above_network(frame: LinkFrame, network: NetworkResult<'_>) -> (packet: DecodedPacket)
    ensures
        packet@ == spec_above_network(
            frame@,
            network.layer@,
            network.payload_protocol,
            network.payload@,
            network.stopped,
        ),
{
    let protocol = match network.payload_protocol {
        Some(protocol) => protocol,
        None => {
            return DecodedPacket {
                link: Some(frame),
                network: Some(network.layer),
                transport: None,
                stopped: network.stopped,
            };
        },
    };

    let transport_result = match protocol {
        IpProtocol::Tcp => decode_tcp(network.payload),
        IpProtocol::Udp => decode_udp(network.payload),
        IpProtocol::Icmp => decode_icmp(network.payload, IcmpFamily::V4),
        IpProtocol::Icmpv6 => decode_icmp(network.payload, IcmpFamily::V6),
        other => {
            return DecodedPacket {
                link: Some(frame),
                network: Some(network.layer),
                transport: None,
                stopped: Some(DecodeStop::UnsupportedProtocol(other)),
            };
        },
    };

    match transport_result {
        Ok(layer) => DecodedPacket {
            link: Some(frame),
            network: Some(network.layer),
            transport: Some(layer),
            stopped: network.stopped,
        },
        Err(stop) => DecodedPacket {
            link: Some(frame),
            network: Some(network.layer),
            transport: None,
            stopped: Some(stop),
        },
    }
}

} // verus!
