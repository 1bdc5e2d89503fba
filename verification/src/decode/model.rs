//! The decoded packet domain model.
//!
//! These types are NetSentry's own vocabulary for "what was on the wire".
//! Packet payload is not stored: headers describe who was talking.
//!
//! Types holding a `Vec` have a view that holds a `Seq` instead, so that the
//! decoder's contracts can describe them.

use vstd::prelude::*;

use crate::decode::types::{
    EtherType, IpProtocol, Ipv4Address, Ipv6Address, MacAddress, TcpFlags,
};

verus! {

/// Which protocol layer a decoder was working on.
#[derive(Debug, Clone, Copy, PartialEq, Eq, Structural)]
pub enum Layer {
    /// Ethernet, Linux SLL, VLAN tags.
    Link,
    /// IPv4, IPv6, ARP.
    Network,
    /// TCP, UDP, ICMP.
    Transport,
}

impl Layer {
    /// The short lowercase name of a layer.
    pub open spec fn spec_label(self) -> &'static str {
        match self {
            Layer::Link => "link",
            Layer::Network => "network",
            Layer::Transport => "transport",
        }
    }

    /// A short lowercase name for messages.
    pub fn label(self) -> (label: &'static str)
        ensures
            label == self.spec_label(),
    {
        match self {
            Self::Link => "link",
            Self::Network => "network",
            Self::Transport => "transport",
        }
    }
}

/// Why the decoder stopped before reaching the end of the protocol stack.
///
/// Every variant is a *result*, not a failure of the program: the packet is
/// reported as far as it was understood and the capture continues.
#[derive(Debug, Clone, Copy, PartialEq, Eq)]
pub enum DecodeStop {
    /// The capture's link type has no decoder.
    UnsupportedLinkType {
        /// The `DLT_*` value reported by the capture driver.
        dlt: i32,
    },
    /// The packet ended in the middle of a header.
    Truncated {
        /// Where the packet ran out.
        layer: Layer,
        /// What was being read, for the user's benefit.
        protocol: &'static str,
    },
    /// A header was complete but its contents contradict themselves.
    Malformed {
        /// Where the contradiction was found.
        layer: Layer,
        /// What was being read.
        protocol: &'static str,
        /// What did not add up.
        reason: &'static str,
    },
    /// The link layer carried something NetSentry does not decode.
    UnsupportedEtherType(EtherType),
    /// The network layer carried something NetSentry does not decode.
    UnsupportedProtocol(IpProtocol),
    /// A non-initial IP fragment: the transport header is in an earlier packet.
    NonInitialFragment,
    /// An IPv6 extension header chain that could not be followed safely.
    UnsupportedExtensionHeader(IpProtocol),
}

/// An IEEE 802.1Q VLAN tag.
#[derive(Debug, Clone, Copy, PartialEq, Eq)]
pub struct VlanTag {
    /// The tag protocol the tag was introduced by (`0x8100` or `0x88a8`).
    pub tag_protocol: EtherType,
    /// Priority code point: the 802.1p class of service, 0-7.
    pub priority: u8,
    /// Drop eligible indicator.
    pub drop_eligible: bool,
    /// VLAN identifier, 0-4095.
    pub id: u16,
}

/// An Ethernet II frame header, with any VLAN tags that followed it.
#[derive(Debug, Clone, PartialEq, Eq)]
pub struct EthernetFrame {
    /// Where the frame came from.
    pub source: MacAddress,
    /// Where the frame was addressed.
    pub destination: MacAddress,
    /// The protocol of the payload, after any VLAN tags were stripped.
    pub ether_type: EtherType,
    /// VLAN tags, outermost first. Empty on an untagged frame.
    pub vlan_tags: Vec<VlanTag>,
}

/// What an [`EthernetFrame`] holds, with its tags as a sequence.
pub ghost struct EthernetFrameView {
    pub source: MacAddress,
    pub destination: MacAddress,
    pub ether_type: EtherType,
    pub vlan_tags: Seq<VlanTag>,
}

impl View for EthernetFrame {
    type V = EthernetFrameView;

    open spec fn view(&self) -> EthernetFrameView {
        EthernetFrameView {
            source: self.source,
            destination: self.destination,
            ether_type: self.ether_type,
            vlan_tags: self.vlan_tags@,
        }
    }
}

/// Which Linux cooked-capture header version was used.
#[derive(Debug, Clone, Copy, PartialEq, Eq, Structural)]
pub enum SllVersion {
    /// `DLT_LINUX_SLL` (113), a 16-byte header.
    V1,
    /// `DLT_LINUX_SLL2` (276), a 20-byte header.
    V2,
}

/// How a packet reached the capturing host, per Linux's `PACKET_*` constants.
#[derive(Debug, Clone, Copy, PartialEq, Eq, Structural)]
pub enum SllPacketType {
    /// Addressed to us.
    Host,
    /// A link-layer broadcast.
    Broadcast,
    /// A link-layer multicast.
    Multicast,
    /// Addressed to another host, seen because the interface is promiscuous.
    OtherHost,
    /// Sent by this host.
    Outgoing,
    /// Anything else, kept as reported.
    Other(u16),
}

impl SllPacketType {
    /// The classification of a raw `PACKET_*` value.
    pub open spec fn spec_from_u16(value: u16) -> SllPacketType {
        if value == 0 {
            SllPacketType::Host
        } else if value == 1 {
            SllPacketType::Broadcast
        } else if value == 2 {
            SllPacketType::Multicast
        } else if value == 3 {
            SllPacketType::OtherHost
        } else if value == 4 {
            SllPacketType::Outgoing
        } else {
            SllPacketType::Other(value)
        }
    }

    /// Classifies a raw `PACKET_*` value.
    #[verifier::when_used_as_spec(spec_from_u16)]
    pub fn from_u16(value: u16) -> (packet_type: Self)
        ensures
            packet_type == Self::spec_from_u16(value),
    {
        match value {
            0 => Self::Host,
            1 => Self::Broadcast,
            2 => Self::Multicast,
            3 => Self::OtherHost,
            4 => Self::Outgoing,
            other => Self::Other(other),
        }
    }
}

/// A Linux SLL / SLL2 "cooked capture" header.
#[derive(Debug, Clone, PartialEq, Eq)]
pub struct LinuxSllFrame {
    /// Whether this is SLL (version 1) or SLL2.
    pub version: SllVersion,
    /// How the packet reached this host.
    pub packet_type: SllPacketType,
    /// The `ARPHRD_*` value describing the real link layer.
    pub arphrd_type: u16,
    /// The source link-layer address, as much of it as was reported.
    pub source_address: Vec<u8>,
    /// The protocol of the payload.
    pub protocol: EtherType,
}

/// What a [`LinuxSllFrame`] holds, with its address as a sequence.
pub ghost struct LinuxSllFrameView {
    pub version: SllVersion,
    pub packet_type: SllPacketType,
    pub arphrd_type: u16,
    pub source_address: Seq<u8>,
    pub protocol: EtherType,
}

impl View for LinuxSllFrame {
    type V = LinuxSllFrameView;

    open spec fn view(&self) -> LinuxSllFrameView {
        LinuxSllFrameView {
            version: self.version,
            packet_type: self.packet_type,
            arphrd_type: self.arphrd_type,
            source_address: self.source_address@,
            protocol: self.protocol,
        }
    }
}

/// The link-layer frame.
#[derive(Debug, Clone, PartialEq, Eq)]
pub enum LinkFrame {
    /// An Ethernet II frame.
    Ethernet(EthernetFrame),
    /// A Linux "cooked capture" pseudo-header.
    LinuxSll(LinuxSllFrame),
}

/// What a [`LinkFrame`] holds.
pub ghost enum LinkFrameView {
    Ethernet(EthernetFrameView),
    LinuxSll(LinuxSllFrameView),
}

impl View for LinkFrame {
    type V = LinkFrameView;

    open spec fn view(&self) -> LinkFrameView {
        match self {
            LinkFrame::Ethernet(frame) => LinkFrameView::Ethernet(frame@),
            LinkFrame::LinuxSll(frame) => LinkFrameView::LinuxSll(frame@),
        }
    }
}

/// An IPv4 header.
#[derive(Debug, Clone, Copy, PartialEq, Eq)]
pub struct Ipv4Header {
    /// Sender address.
    pub source: Ipv4Address,
    /// Recipient address.
    pub destination: Ipv4Address,
    /// The protocol of the payload.
    pub protocol: IpProtocol,
    /// Time to live: how many more routers may forward this packet.
    pub ttl: u8,
    /// Header length in bytes, including options. Always a multiple of 4.
    pub header_len: u8,
    /// Total packet length in bytes, as the sender declared it.
    pub total_len: u16,
    /// Identification field, used to reassemble fragments.
    pub identification: u16,
    /// Differentiated services code point.
    pub dscp: u8,
    /// Explicit congestion notification bits.
    pub ecn: u8,
    /// The "don't fragment" flag.
    pub dont_fragment: bool,
    /// The "more fragments" flag.
    pub more_fragments: bool,
    /// This fragment's offset within the original packet, in 8-byte units.
    pub fragment_offset: u16,
    /// Header checksum as it appeared. Not verified by NetSentry.
    pub checksum: u16,
    /// Length of the options that followed the fixed 20-byte header.
    pub options_len: u8,
}

impl Ipv4Header {
    /// Whether this packet is a piece of a larger one.
    pub fn is_fragment(&self) -> (fragment: bool)
        ensures
            fragment == (self.more_fragments || self.fragment_offset > 0),
    {
        self.more_fragments || self.fragment_offset > 0
    }

    /// Whether the transport header is missing because it was in an earlier
    /// fragment.
    pub fn is_non_initial_fragment(&self) -> (later: bool)
        ensures
            later == (self.fragment_offset > 0),
    {
        self.fragment_offset > 0
    }
}

/// An IPv6 header.
#[derive(Debug, Clone, PartialEq, Eq)]
pub struct Ipv6Header {
    /// Sender address.
    pub source: Ipv6Address,
    /// Recipient address.
    pub destination: Ipv6Address,
    /// The protocol after any extension headers were followed.
    pub next_header: IpProtocol,
    /// Hop limit: IPv6's name for TTL.
    pub hop_limit: u8,
    /// Payload length in bytes, as the sender declared it.
    pub payload_len: u16,
    /// Traffic class, IPv6's equivalent of DSCP plus ECN.
    pub traffic_class: u8,
    /// Flow label, used to group packets belonging to one stream.
    pub flow_label: u32,
    /// Extension headers walked, in the order they appeared.
    pub extension_headers: Vec<IpProtocol>,
    /// Whether a fragment header said this is not the first fragment.
    pub non_initial_fragment: bool,
}

/// What an [`Ipv6Header`] holds, with its extension headers as a sequence.
pub ghost struct Ipv6HeaderView {
    pub source: Ipv6Address,
    pub destination: Ipv6Address,
    pub next_header: IpProtocol,
    pub hop_limit: u8,
    pub payload_len: u16,
    pub traffic_class: u8,
    pub flow_label: u32,
    pub extension_headers: Seq<IpProtocol>,
    pub non_initial_fragment: bool,
}

impl View for Ipv6Header {
    type V = Ipv6HeaderView;

    open spec fn view(&self) -> Ipv6HeaderView {
        Ipv6HeaderView {
            source: self.source,
            destination: self.destination,
            next_header: self.next_header,
            hop_limit: self.hop_limit,
            payload_len: self.payload_len,
            traffic_class: self.traffic_class,
            flow_label: self.flow_label,
            extension_headers: self.extension_headers@,
            non_initial_fragment: self.non_initial_fragment,
        }
    }
}

/// What an ARP packet is doing.
#[derive(Debug, Clone, Copy, PartialEq, Eq, Structural)]
pub enum ArpOperation {
    /// "Who has this IP?"
    Request,
    /// "I have this IP."
    Reply,
    /// Anything else, kept as reported.
    Other(u16),
}

impl ArpOperation {
    /// The classification of a raw operation code.
    pub open spec fn spec_from_u16(value: u16) -> ArpOperation {
        if value == 1 {
            ArpOperation::Request
        } else if value == 2 {
            ArpOperation::Reply
        } else {
            ArpOperation::Other(value)
        }
    }

    /// Classifies a raw operation code.
    #[verifier::when_used_as_spec(spec_from_u16)]
    pub fn from_u16(value: u16) -> (operation: Self)
        ensures
            operation == Self::spec_from_u16(value),
    {
        match value {
            1 => Self::Request,
            2 => Self::Reply,
            other => Self::Other(other),
        }
    }
}

/// The address quartet of an Ethernet/IPv4 ARP packet.
#[derive(Debug, Clone, Copy, PartialEq, Eq)]
pub struct ArpAddresses {
    /// The sender's MAC address.
    pub sender_mac: MacAddress,
    /// The sender's IPv4 address.
    pub sender_ip: Ipv4Address,
    /// The target's MAC address; all-zero in a request.
    pub target_mac: MacAddress,
    /// The IPv4 address being asked about.
    pub target_ip: Ipv4Address,
}

/// An ARP packet.
///
/// Only the Ethernet/IPv4 form carries addresses; any other hardware or
/// protocol combination is reported by its numbers alone.
#[derive(Debug, Clone, Copy, PartialEq, Eq)]
pub struct ArpPacket {
    /// What the sender is asking for or announcing.
    pub operation: ArpOperation,
    /// Hardware type, `1` for Ethernet.
    pub hardware_type: u16,
    /// Protocol type, `0x0800` for IPv4.
    pub protocol_type: EtherType,
    /// The addresses, when this is an Ethernet/IPv4 ARP packet.
    pub addresses: Option<ArpAddresses>,
}

/// The network-layer header.
#[derive(Debug, Clone, PartialEq, Eq)]
pub enum NetworkLayer {
    /// An IPv4 header.
    Ipv4(Ipv4Header),
    /// An IPv6 header, with any extension headers that were walked.
    Ipv6(Ipv6Header),
    /// An ARP packet, which has no transport layer above it.
    Arp(ArpPacket),
}

/// What a [`NetworkLayer`] holds.
pub ghost enum NetworkLayerView {
    Ipv4(Ipv4Header),
    Ipv6(Ipv6HeaderView),
    Arp(ArpPacket),
}

impl View for NetworkLayer {
    type V = NetworkLayerView;

    open spec fn view(&self) -> NetworkLayerView {
        match self {
            NetworkLayer::Ipv4(header) => NetworkLayerView::Ipv4(*header),
            NetworkLayer::Ipv6(header) => NetworkLayerView::Ipv6(header@),
            NetworkLayer::Arp(packet) => NetworkLayerView::Arp(*packet),
        }
    }
}

/// A TCP header.
#[derive(Debug, Clone, Copy, PartialEq, Eq)]
pub struct TcpHeader {
    /// Sender's port.
    pub source_port: u16,
    /// Recipient's port.
    pub destination_port: u16,
    /// Sequence number of the first byte of this segment.
    pub sequence: u32,
    /// The next sequence number the sender expects to receive.
    pub acknowledgment: u32,
    /// Header length in bytes, including options. Always a multiple of 4.
    pub header_len: u8,
    /// The control bits.
    pub flags: TcpFlags,
    /// How many more bytes the sender is willing to receive.
    pub window: u16,
    /// Checksum as it appeared. Not verified by NetSentry.
    pub checksum: u16,
    /// Urgent pointer.
    pub urgent_pointer: u16,
    /// Length of the options that followed the fixed 20-byte header.
    pub options_len: u8,
}

/// Size of a UDP header in bytes.
pub const UDP_HEADER_LEN: u16 = 8;

/// A UDP header.
#[derive(Debug, Clone, Copy, PartialEq, Eq)]
pub struct UdpHeader {
    /// Sender's port.
    pub source_port: u16,
    /// Recipient's port.
    pub destination_port: u16,
    /// Datagram length in bytes, including this 8-byte header, as declared.
    pub length: u16,
    /// Checksum as it appeared. Not verified by NetSentry.
    pub checksum: u16,
    /// Payload bytes actually present after the header.
    pub captured_payload_len: u16,
}

impl UdpHeader {
    /// The payload length the header claims, if the header is self-consistent.
    pub fn declared_payload_len(self) -> (declared: Option<u16>)
        ensures
            self.length >= UDP_HEADER_LEN ==> declared == Some((self.length - UDP_HEADER_LEN) as u16),
            self.length < UDP_HEADER_LEN ==> declared is None,
    {
        self.length.checked_sub(UDP_HEADER_LEN)
    }
}

/// Which ICMP an [`IcmpMessage`] belongs to.
#[derive(Debug, Clone, Copy, PartialEq, Eq, Structural)]
pub enum IcmpFamily {
    /// ICMP for IPv4.
    V4,
    /// ICMPv6.
    V6,
}

impl IcmpFamily {
    /// The protocol's usual name.
    pub open spec fn spec_label(self) -> &'static str {
        match self {
            IcmpFamily::V4 => "ICMP",
            IcmpFamily::V6 => "ICMPv6",
        }
    }

    /// The protocol's usual name.
    pub fn label(self) -> (label: &'static str)
        ensures
            label == self.spec_label(),
    {
        match self {
            Self::V4 => "ICMP",
            Self::V6 => "ICMPv6",
        }
    }
}

/// An ICMP or ICMPv6 message.
#[derive(Debug, Clone, Copy, PartialEq, Eq)]
pub struct IcmpMessage {
    /// Whether this is ICMP for IPv4 or ICMPv6.
    pub family: IcmpFamily,
    /// The message type.
    pub message_type: u8,
    /// The message code, whose meaning depends on the type.
    pub code: u8,
    /// Checksum as it appeared. Not verified by NetSentry.
    pub checksum: u16,
}

impl IcmpMessage {
    /// The name of a message type, from the table of its family.
    pub open spec fn spec_description(self) -> Option<&'static str> {
        match self.family {
            IcmpFamily::V4 => if self.message_type == 0 {
                Some("Echo Reply")
            } else if self.message_type == 3 {
                Some("Destination Unreachable")
            } else if self.message_type == 5 {
                Some("Redirect")
            } else if self.message_type == 8 {
                Some("Echo Request")
            } else if self.message_type == 11 {
                Some("Time Exceeded")
            } else if self.message_type == 12 {
                Some("Parameter Problem")
            } else if self.message_type == 13 {
                Some("Timestamp Request")
            } else if self.message_type == 14 {
                Some("Timestamp Reply")
            } else {
                None
            },
            IcmpFamily::V6 => if self.message_type == 1 {
                Some("Destination Unreachable")
            } else if self.message_type == 2 {
                Some("Packet Too Big")
            } else if self.message_type == 3 {
                Some("Time Exceeded")
            } else if self.message_type == 4 {
                Some("Parameter Problem")
            } else if self.message_type == 128 {
                Some("Echo Request")
            } else if self.message_type == 129 {
                Some("Echo Reply")
            } else if self.message_type == 133 {
                Some("Router Solicitation")
            } else if self.message_type == 134 {
                Some("Router Advertisement")
            } else if self.message_type == 135 {
                Some("Neighbor Solicitation")
            } else if self.message_type == 136 {
                Some("Neighbor Advertisement")
            } else if self.message_type == 137 {
                Some("Redirect")
            } else {
                None
            },
        }
    }

    /// A human-readable name for this type, when one is known.
    pub fn description(self) -> (name: Option<&'static str>)
        ensures
            name == self.spec_description(),
    {
        match self.family {
            IcmpFamily::V4 => match self.message_type {
                0 => Some("Echo Reply"),
                3 => Some("Destination Unreachable"),
                5 => Some("Redirect"),
                8 => Some("Echo Request"),
                11 => Some("Time Exceeded"),
                12 => Some("Parameter Problem"),
                13 => Some("Timestamp Request"),
                14 => Some("Timestamp Reply"),
                _ => None,
            },
            IcmpFamily::V6 => match self.message_type {
                1 => Some("Destination Unreachable"),
                2 => Some("Packet Too Big"),
                3 => Some("Time Exceeded"),
                4 => Some("Parameter Problem"),
                128 => Some("Echo Request"),
                129 => Some("Echo Reply"),
                133 => Some("Router Solicitation"),
                134 => Some("Router Advertisement"),
                135 => Some("Neighbor Solicitation"),
                136 => Some("Neighbor Advertisement"),
                137 => Some("Redirect"),
                _ => None,
            },
        }
    }
}

/// The transport-layer header.
#[derive(Debug, Clone, Copy, PartialEq, Eq)]
pub enum TransportLayer {
    /// A TCP header.
    Tcp(TcpHeader),
    /// A UDP header.
    Udp(UdpHeader),
    /// An ICMP or ICMPv6 message.
    Icmp(IcmpMessage),
}

/// Everything the decoder understood about one captured packet.
///
/// Layers are independently optional; [`DecodedPacket::stopped`] says why the
/// chain ended where it did.
#[derive(Debug, Clone, PartialEq, Eq, Default)]
pub struct DecodedPacket {
    /// The link-layer frame, when the link type was supported.
    pub link: Option<LinkFrame>,
    /// The network-layer header, when one was found and readable.
    pub network: Option<NetworkLayer>,
    /// The transport-layer header, when one was found and readable.
    pub transport: Option<TransportLayer>,
    /// Why decoding stopped, if it stopped before running out of layers.
    pub stopped: Option<DecodeStop>,
}

/// What a [`DecodedPacket`] holds.
pub ghost struct DecodedPacketView {
    pub link: Option<LinkFrameView>,
    pub network: Option<NetworkLayerView>,
    pub transport: Option<TransportLayer>,
    pub stopped: Option<DecodeStop>,
}

impl View for DecodedPacket {
    type V = DecodedPacketView;

    open spec fn view(&self) -> DecodedPacketView {
        DecodedPacketView {
            link: match self.link {
                Some(frame) => Some(frame@),
                None => None,
            },
            network: match self.network {
                Some(layer) => Some(layer@),
                None => None,
            },
            transport: self.transport,
            stopped: self.stopped,
        }
    }
}

impl DecodedPacket {
    /// A packet that could not be decoded at all.
    pub fn stopped_at(stop: DecodeStop) -> (packet: Self)
        ensures
            packet@ == (DecodedPacketView {
                link: None,
                network: None,
                transport: None,
                stopped: Some(stop),
            }),
    {
        Self { link: None, network: None, transport: None, stopped: Some(stop) }
    }

    /// Whether decoding ended early for any reason.
    pub fn is_incomplete(&self) -> (incomplete: bool)
        ensures
            incomplete == self.stopped.is_some(),
    {
        self.stopped.is_some()
    }
}


/// The Linux `PACKET_*` number a packet type stands for.
pub open spec fn packet_type_number(packet_type: SllPacketType) -> u16 {
    match packet_type {
        SllPacketType::Host => 0,
        SllPacketType::Broadcast => 1,
        SllPacketType::Multicast => 2,
        SllPacketType::OtherHost => 3,
        SllPacketType::Outgoing => 4,
        SllPacketType::Other(value) => value,
    }
}

/// The packet type read from a cooked-capture header is the Linux
/// `PACKET_*` constant it carries: reading a number and taking the type's
/// number back gives the number read, and only the five named constants
/// have names (`PACKET_HOST` 0, `PACKET_BROADCAST` 1, `PACKET_MULTICAST` 2,
/// `PACKET_OTHERHOST` 3, `PACKET_OUTGOING` 4).
pub proof fn law_sll_packet_type_is_its_number(value: u16)
    ensures
        packet_type_number(SllPacketType::spec_from_u16(value)) == value,
        SllPacketType::spec_from_u16(value) is Other <==> value > 4,
        value == 1 ==> SllPacketType::spec_from_u16(value) == SllPacketType::Broadcast,
        value == 2 ==> SllPacketType::spec_from_u16(value) == SllPacketType::Multicast,
{
}

/// Whether a message is named `name`.
pub open spec fn named(message: IcmpMessage, name: Seq<char>) -> bool {
    message.spec_description() matches Some(text) && text@ == name
}

/// ICMP messages are named after their type in the IANA registries, whatever
/// their code: for ICMPv4, 0 Echo Reply, 3 Destination Unreachable,
/// 5 Redirect, 8 Echo Request, 11 Time Exceeded, 12 Parameter Problem,
/// 13 Timestamp Request, 14 Timestamp Reply; for ICMPv6, 1 Destination
/// Unreachable, 2 Packet Too Big, 3 Time Exceeded, 4 Parameter Problem,
/// 128 Echo Request, 129 Echo Reply, 133 and 134 Router Solicitation and
/// Advertisement, 135 and 136 Neighbor Solicitation and Advertisement,
/// 137 Redirect. Other types have no name.
pub proof fn law_icmp_names_follow_the_registry(message: IcmpMessage)
    ensures
        message.family == IcmpFamily::V4 ==> {
            &&& message.message_type == 0 ==> named(message, "Echo Reply"@)
            &&& message.message_type == 3 ==> named(message, "Destination Unreachable"@)
            &&& message.message_type == 5 ==> named(message, "Redirect"@)
            &&& message.message_type == 8 ==> named(message, "Echo Request"@)
            &&& message.message_type == 11 ==> named(message, "Time Exceeded"@)
            &&& message.message_type == 12 ==> named(message, "Parameter Problem"@)
            &&& message.message_type == 13 ==> named(message, "Timestamp Request"@)
            &&& message.message_type == 14 ==> named(message, "Timestamp Reply"@)
            &&& message.spec_description() is Some <==> (message.message_type == 0 || message.message_type == 3
                || message.message_type == 5 || message.message_type == 8 || message.message_type == 11
                || message.message_type == 12 || message.message_type == 13 || message.message_type == 14)
        },
        message.family == IcmpFamily::V6 ==> {
            &&& message.message_type == 1 ==> named(message, "Destination Unreachable"@)
            &&& message.message_type == 2 ==> named(message, "Packet Too Big"@)
            &&& message.message_type == 3 ==> named(message, "Time Exceeded"@)
            &&& message.message_type == 4 ==> named(message, "Parameter Problem"@)
            &&& message.message_type == 128 ==> named(message, "Echo Request"@)
            &&& message.message_type == 129 ==> named(message, "Echo Reply"@)
            &&& message.message_type == 133 ==> named(message, "Router Solicitation"@)
            &&& message.message_type == 134 ==> named(message, "Router Advertisement"@)
            &&& message.message_type == 135 ==> named(message, "Neighbor Solicitation"@)
            &&& message.message_type == 136 ==> named(message, "Neighbor Advertisement"@)
            &&& message.message_type == 137 ==> named(message, "Redirect"@)
            &&& message.spec_description() is Some <==> (message.message_type == 1 || message.message_type == 2
                || message.message_type == 3 || message.message_type == 4 || message.message_type == 128
                || message.message_type == 129 || message.message_type == 133 || message.message_type == 134
                || message.message_type == 135 || message.message_type == 136 || message.message_type == 137)
        },
{
}

} // verus!
