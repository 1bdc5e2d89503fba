//! Primitive protocol values.
//!
//! Every enum here keeps an `Other(..)` variant carrying the raw value: a
//! protocol number nobody has heard of is still a fact worth reporting.

use vstd::prelude::*;

verus! {

/// A 48-bit link-layer (MAC) address.
#[derive(Debug, Clone, Copy, PartialEq, Eq, PartialOrd, Ord, Hash)]
pub struct MacAddress(pub [u8; 6]);

impl MacAddress {
    /// The broadcast address `ff:ff:ff:ff:ff:ff`.
    pub fn broadcast() -> (mac: MacAddress)
        ensures
            forall|i: int| 0 <= i < 6 ==> mac.0[i] == 0xff,
    {
        MacAddress([0xff, 0xff, 0xff, 0xff, 0xff, 0xff])
    }

    /// The all-zero address, used by ARP to mean "unknown".
    pub fn unspecified() -> (mac: MacAddress)
        ensures
            forall|i: int| 0 <= i < 6 ==> mac.0[i] == 0,
    {
        MacAddress([0, 0, 0, 0, 0, 0])
    }

    /// Whether every octet of the address is `0xff`.
    pub open spec fn spec_is_broadcast(self) -> bool {
        forall|i: int| 0 <= i < 6 ==> self.0[i] == 0xff
    }

    /// Whether this is the link-layer broadcast address.
    pub fn is_broadcast(self) -> (broadcast: bool)
        ensures
            broadcast == self.spec_is_broadcast(),
    {
        let mut i: usize = 0;
        while i < 6
            invariant
                i <= 6,
                forall|k: int| 0 <= k < i ==> self.0[k] == 0xff,
            decreases 6 - i,
        {
            if self.0[i] != 0xff {
                return false;
            }
            i = i + 1;
        }
        true
    }

    /// Whether the multicast bit (the low bit of the first octet) is set.
    pub fn is_multicast(self) -> (multicast: bool)
        ensures
            multicast == (self.0[0] % 2 == 1),
    {
        self.0[0] % 2 == 1
    }
}

/// The MAC address stored at `at` in `data`.
pub open spec fn mac_at(data: Seq<u8>, at: int) -> MacAddress {
    MacAddress([data[at], data[at + 1], data[at + 2], data[at + 3], data[at + 4], data[at + 5]])
}

/// The IPv4 address stored at `at` in `data`.
pub open spec fn ipv4_at(data: Seq<u8>, at: int) -> Ipv4Address {
    Ipv4Address([data[at], data[at + 1], data[at + 2], data[at + 3]])
}

/// The IPv6 address stored at `at` in `data`.
pub open spec fn ipv6_at(data: Seq<u8>, at: int) -> Ipv6Address {
    Ipv6Address(
        [
            data[at],
            data[at + 1],
            data[at + 2],
            data[at + 3],
            data[at + 4],
            data[at + 5],
            data[at + 6],
            data[at + 7],
            data[at + 8],
            data[at + 9],
            data[at + 10],
            data[at + 11],
            data[at + 12],
            data[at + 13],
            data[at + 14],
            data[at + 15],
        ],
    )
}

/// An IPv4 address, as its four octets in network order.
#[derive(Debug, Clone, Copy, PartialEq, Eq, PartialOrd, Ord, Hash)]
pub struct Ipv4Address(pub [u8; 4]);

impl Ipv4Address {
    /// The address `a.b.c.d`.
    pub fn new(a: u8, b: u8, c: u8, d: u8) -> (address: Self)
        ensures
            address.0@ == seq![a, b, c, d],
    {
        let address = Ipv4Address([a, b, c, d]);
        assert(address.0@ =~= seq![a, b, c, d]);
        address
    }

    /// The four octets.
    pub fn octets(self) -> (octets: [u8; 4])
        ensures
            octets == self.0,
    {
        self.0
    }
}

/// An IPv6 address, as its sixteen octets in network order.
#[derive(Debug, Clone, Copy, PartialEq, Eq, PartialOrd, Ord, Hash)]
pub struct Ipv6Address(pub [u8; 16]);

impl Ipv6Address {
    /// The address built from eight 16-bit groups, as `a:b:c:d:e:f:g:h` is written.
    pub fn new(a: u16, b: u16, c: u16, d: u16, e: u16, f: u16, g: u16, h: u16) -> (address: Self)
        ensures
            address.0@ == seq![
                (a / 256) as u8, (a % 256) as u8, (b / 256) as u8, (b % 256) as u8,
                (c / 256) as u8, (c % 256) as u8, (d / 256) as u8, (d % 256) as u8,
                (e / 256) as u8, (e % 256) as u8, (f / 256) as u8, (f % 256) as u8,
                (g / 256) as u8, (g % 256) as u8, (h / 256) as u8, (h % 256) as u8,
            ],
    {
        let address = Ipv6Address([
            (a / 256) as u8, (a % 256) as u8, (b / 256) as u8, (b % 256) as u8,
            (c / 256) as u8, (c % 256) as u8, (d / 256) as u8, (d % 256) as u8,
            (e / 256) as u8, (e % 256) as u8, (f / 256) as u8, (f % 256) as u8,
            (g / 256) as u8, (g % 256) as u8, (h / 256) as u8, (h % 256) as u8,
        ]);
        assert(address.0@ =~= seq![
            (a / 256) as u8, (a % 256) as u8, (b / 256) as u8, (b % 256) as u8,
            (c / 256) as u8, (c % 256) as u8, (d / 256) as u8, (d % 256) as u8,
            (e / 256) as u8, (e % 256) as u8, (f / 256) as u8, (f % 256) as u8,
            (g / 256) as u8, (g % 256) as u8, (h / 256) as u8, (h % 256) as u8,
        ]);
        address
    }

    /// The sixteen octets.
    pub fn octets(self) -> (octets: [u8; 16])
        ensures
            octets == self.0,
    {
        self.0
    }
}

/// An IPv4 or IPv6 address.
#[derive(Debug, Clone, Copy, PartialEq, Eq, PartialOrd, Ord, Hash)]
pub enum IpAddress {
    /// An IPv4 address.
    V4(Ipv4Address),
    /// An IPv6 address.
    V6(Ipv6Address),
}

impl IpAddress {
    /// Whether this is an IPv4 address.
    pub fn is_ipv4(self) -> (v4: bool)
        ensures
            v4 == (self is V4),
    {
        matches!(self, IpAddress::V4(_))
    }
}

/// The protocol carried by an Ethernet frame.
#[derive(Debug, Clone, Copy, PartialEq, Eq, Structural)]
pub enum EtherType {
    /// IPv4 (`0x0800`).
    Ipv4,
    /// ARP (`0x0806`).
    Arp,
    /// IPv6 (`0x86dd`).
    Ipv6,
    /// 802.1Q VLAN tag (`0x8100`).
    Vlan,
    /// 802.1ad service VLAN tag (`0x88a8`).
    VlanQinQ,
    /// A value below `0x0600`, which in IEEE 802.3 is a length, not a type.
    Length(u16),
    /// Anything else, kept as reported.
    Other(u16),
}

/// Values below this are an 802.3 length field rather than a type.
pub const MIN_ETHER_TYPE: u16 = 0x0600;

impl EtherType {
    /// The classification of a raw EtherType field.
    pub open spec fn spec_from_u16(value: u16) -> EtherType {
        if value == 0x0800 {
            EtherType::Ipv4
        } else if value == 0x0806 {
            EtherType::Arp
        } else if value == 0x86dd {
            EtherType::Ipv6
        } else if value == 0x8100 {
            EtherType::Vlan
        } else if value == 0x88a8 {
            EtherType::VlanQinQ
        } else if value < MIN_ETHER_TYPE {
            EtherType::Length(value)
        } else {
            EtherType::Other(value)
        }
    }

    /// The raw value a classification stands for.
    pub open spec fn spec_as_u16(self) -> u16 {
        match self {
            EtherType::Ipv4 => 0x0800,
            EtherType::Arp => 0x0806,
            EtherType::Ipv6 => 0x86dd,
            EtherType::Vlan => 0x8100,
            EtherType::VlanQinQ => 0x88a8,
            EtherType::Length(value) => value,
            EtherType::Other(value) => value,
        }
    }

    /// Whether this tag introduces another VLAN tag.
    pub open spec fn spec_is_vlan(self) -> bool {
        self is Vlan || self is VlanQinQ
    }

    /// Classifies a raw EtherType field.
    #[verifier::when_used_as_spec(spec_from_u16)]
    pub fn from_u16(value: u16) -> (ether_type: Self)
        ensures
            ether_type == Self::spec_from_u16(value),
    {
        if value == 0x0800 {
            Self::Ipv4
        } else if value == 0x0806 {
            Self::Arp
        } else if value == 0x86dd {
            Self::Ipv6
        } else if value == 0x8100 {
            Self::Vlan
        } else if value == 0x88a8 {
            Self::VlanQinQ
        } else if value < MIN_ETHER_TYPE {
            Self::Length(value)
        } else {
            Self::Other(value)
        }
    }

    /// The raw value as it appeared on the wire.
    #[verifier::when_used_as_spec(spec_as_u16)]
    pub fn as_u16(self) -> (value: u16)
        ensures
            value == self.spec_as_u16(),
    {
        match self {
            Self::Ipv4 => 0x0800,
            Self::Arp => 0x0806,
            Self::Ipv6 => 0x86dd,
            Self::Vlan => 0x8100,
            Self::VlanQinQ => 0x88a8,
            Self::Length(value) => value,
            Self::Other(value) => value,
        }
    }

    /// Whether this tag introduces another VLAN tag.
    #[verifier::when_used_as_spec(spec_is_vlan)]
    pub fn is_vlan(self) -> (vlan: bool)
        ensures
            vlan == self.spec_is_vlan(),
    {
        matches!(self, Self::Vlan | Self::VlanQinQ)
    }
}

/// Classifying a raw EtherType and turning it back into a number gives back
/// the number that was on the wire.
pub proof fn law_ether_type_round_trip(value: u16)
    ensures
        EtherType::spec_from_u16(value).spec_as_u16() == value,
{
}

/// An IP protocol number, from IPv4's `protocol` or IPv6's `next header`.
#[derive(Debug, Clone, Copy, PartialEq, Eq, Structural)]
pub enum IpProtocol {
    /// IPv6 Hop-by-Hop options (0).
    HopByHop,
    /// ICMP for IPv4 (1).
    Icmp,
    /// TCP (6).
    Tcp,
    /// UDP (17).
    Udp,
    /// IPv6 routing header (43).
    Ipv6Route,
    /// IPv6 fragment header (44).
    Ipv6Fragment,
    /// Encapsulating Security Payload (50).
    Esp,
    /// Authentication Header (51).
    AuthHeader,
    /// ICMP for IPv6 (58).
    Icmpv6,
    /// "No next header" (59).
    NoNextHeader,
    /// IPv6 destination options (60).
    Ipv6DestOpts,
    /// Mobility header (135).
    Mobility,
    /// Anything else, kept as reported.
    Other(u8),
}

impl IpProtocol {
    /// The classification of a raw protocol number.
    pub open spec fn spec_from_u8(value: u8) -> IpProtocol {
        if value == 0 {
            IpProtocol::HopByHop
        } else if value == 1 {
            IpProtocol::Icmp
        } else if value == 6 {
            IpProtocol::Tcp
        } else if value == 17 {
            IpProtocol::Udp
        } else if value == 43 {
            IpProtocol::Ipv6Route
        } else if value == 44 {
            IpProtocol::Ipv6Fragment
        } else if value == 50 {
            IpProtocol::Esp
        } else if value == 51 {
            IpProtocol::AuthHeader
        } else if value == 58 {
            IpProtocol::Icmpv6
        } else if value == 59 {
            IpProtocol::NoNextHeader
        } else if value == 60 {
            IpProtocol::Ipv6DestOpts
        } else if value == 135 {
            IpProtocol::Mobility
        } else {
            IpProtocol::Other(value)
        }
    }

    /// The raw number a classification stands for.
    pub open spec fn spec_as_u8(self) -> u8 {
        match self {
            IpProtocol::HopByHop => 0,
            IpProtocol::Icmp => 1,
            IpProtocol::Tcp => 6,
            IpProtocol::Udp => 17,
            IpProtocol::Ipv6Route => 43,
            IpProtocol::Ipv6Fragment => 44,
            IpProtocol::Esp => 50,
            IpProtocol::AuthHeader => 51,
            IpProtocol::Icmpv6 => 58,
            IpProtocol::NoNextHeader => 59,
            IpProtocol::Ipv6DestOpts => 60,
            IpProtocol::Mobility => 135,
            IpProtocol::Other(value) => value,
        }
    }

    /// Classifies a raw protocol number.
    #[verifier::when_used_as_spec(spec_from_u8)]
    pub fn from_u8(value: u8) -> (protocol: Self)
        ensures
            protocol == Self::spec_from_u8(value),
    {
        match value {
            0 => Self::HopByHop,
            1 => Self::Icmp,
            6 => Self::Tcp,
            17 => Self::Udp,
            43 => Self::Ipv6Route,
            44 => Self::Ipv6Fragment,
            50 => Self::Esp,
            51 => Self::AuthHeader,
            58 => Self::Icmpv6,
            59 => Self::NoNextHeader,
            60 => Self::Ipv6DestOpts,
            135 => Self::Mobility,
            other => Self::Other(other),
        }
    }

    /// The raw value as it appeared on the wire.
    #[verifier::when_used_as_spec(spec_as_u8)]
    pub fn as_u8(self) -> (value: u8)
        ensures
            value == self.spec_as_u8(),
    {
        match self {
            Self::HopByHop => 0,
            Self::Icmp => 1,
            Self::Tcp => 6,
            Self::Udp => 17,
            Self::Ipv6Route => 43,
            Self::Ipv6Fragment => 44,
            Self::Esp => 50,
            Self::AuthHeader => 51,
            Self::Icmpv6 => 58,
            Self::NoNextHeader => 59,
            Self::Ipv6DestOpts => 60,
            Self::Mobility => 135,
            Self::Other(value) => value,
        }
    }
}

/// Classifying a raw protocol number and turning it back into a number gives
/// back the number that was on the wire.
pub proof fn law_ip_protocol_round_trip(value: u8)
    ensures
        IpProtocol::spec_from_u8(value).spec_as_u8() == value,
{
}

/// The TCP control bits, stored as the raw nine-bit field.
#[derive(Debug, Clone, Copy, PartialEq, Eq, Default, Structural)]
pub struct TcpFlags(pub u16);

/// FIN: the sender has finished sending.
pub const TCP_FIN: u16 = 0x001;
/// SYN: synchronise sequence numbers.
pub const TCP_SYN: u16 = 0x002;
/// RST: reset the connection.
pub const TCP_RST: u16 = 0x004;
/// PSH: push buffered data to the application.
pub const TCP_PSH: u16 = 0x008;
/// ACK: the acknowledgment field is significant.
pub const TCP_ACK: u16 = 0x010;
/// URG: the urgent pointer is significant.
pub const TCP_URG: u16 = 0x020;
/// ECE: ECN echo.
pub const TCP_ECE: u16 = 0x040;
/// CWR: congestion window reduced.
pub const TCP_CWR: u16 = 0x080;
/// NS: ECN nonce.
pub const TCP_NS: u16 = 0x100;

/// Whether the single-bit `flag` (a power of two) is set in `bits`.
pub open spec fn bit_set(bits: u16, flag: u16) -> bool {
    (bits / flag) % 2 == 1
}

/// For the single-bit flags, masking and reading the bit agree.
proof fn lemma_flag_bits(bits: u16)
    ensures
        (bits & 1u16 != 0) == ((bits / 1) % 2 == 1),
        (bits & 2u16 != 0) == ((bits / 2) % 2 == 1),
        (bits & 4u16 != 0) == ((bits / 4) % 2 == 1),
        (bits & 16u16 != 0) == ((bits / 16) % 2 == 1),
{
    assert((bits & 1u16 != 0) == ((bits / 1) % 2 == 1)) by (bit_vector);
    assert((bits & 2u16 != 0) == ((bits / 2) % 2 == 1)) by (bit_vector);
    assert((bits & 4u16 != 0) == ((bits / 4) % 2 == 1)) by (bit_vector);
    assert((bits & 16u16 != 0) == ((bits / 16) % 2 == 1)) by (bit_vector);
}

impl TcpFlags {
    /// Whether any bit of `flag` is set.
    pub fn has(self, flag: u16) -> (set: bool)
        ensures
            set == (self.0 & flag != 0),
    {
        self.0 & flag != 0
    }

    /// SYN set, with or without ACK.
    pub fn has_syn(self) -> (set: bool)
        ensures
            set == bit_set(self.0, TCP_SYN),
    {
        proof {
            lemma_flag_bits(self.0);
        }
        self.has(TCP_SYN)
    }

    /// FIN set.
    pub fn has_fin(self) -> (set: bool)
        ensures
            set == bit_set(self.0, TCP_FIN),
    {
        proof {
            lemma_flag_bits(self.0);
        }
        self.has(TCP_FIN)
    }

    /// SYN without ACK: a connection attempt.
    pub fn is_syn(self) -> (syn: bool)
        ensures
            syn == (bit_set(self.0, TCP_SYN) && !bit_set(self.0, TCP_ACK)),
    {
        proof {
            lemma_flag_bits(self.0);
        }
        self.has(TCP_SYN) && !self.has(TCP_ACK)
    }

    /// SYN with ACK: a connection being accepted.
    pub fn is_syn_ack(self) -> (syn_ack: bool)
        ensures
            syn_ack == (bit_set(self.0, TCP_SYN) && bit_set(self.0, TCP_ACK)),
    {
        proof {
            lemma_flag_bits(self.0);
        }
        self.has(TCP_SYN) && self.has(TCP_ACK)
    }

    /// RST: a connection being refused or torn down.
    pub fn is_reset(self) -> (reset: bool)
        ensures
            reset == bit_set(self.0, TCP_RST),
    {
        proof {
            lemma_flag_bits(self.0);
        }
        self.has(TCP_RST)
    }
}

} // verus!
