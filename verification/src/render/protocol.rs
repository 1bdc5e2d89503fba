//! The names of IP protocols.

use vstd::prelude::*;

use crate::decode::types::IpProtocol;
use crate::text::{byte_digits, push_str, push_u8};

verus! {

/// The usual name of an IP protocol; an unnamed one keeps its number.
pub open spec fn protocol_text(protocol: IpProtocol) -> Seq<char> {
    match protocol {
        IpProtocol::HopByHop => "Hop-by-Hop"@,
        IpProtocol::Icmp => "ICMP"@,
        IpProtocol::Tcp => "TCP"@,
        IpProtocol::Udp => "UDP"@,
        IpProtocol::Ipv6Route => "IPv6-Route"@,
        IpProtocol::Ipv6Fragment => "IPv6-Frag"@,
        IpProtocol::Esp => "ESP"@,
        IpProtocol::AuthHeader => "AH"@,
        IpProtocol::Icmpv6 => "ICMPv6"@,
        IpProtocol::NoNextHeader => "no-next-header"@,
        IpProtocol::Ipv6DestOpts => "IPv6-DestOpts"@,
        IpProtocol::Mobility => "Mobility"@,
        IpProtocol::Other(value) => "IP protocol "@ + byte_digits(value),
    }
}

/// Appends the name of an IP protocol.
pub fn push_protocol(out: &mut String, protocol: IpProtocol)
    ensures
        final(out)@ == old(out)@ + protocol_text(protocol),
{
    match protocol {
        IpProtocol::HopByHop => push_str(out, "Hop-by-Hop"),
        IpProtocol::Icmp => push_str(out, "ICMP"),
        IpProtocol::Tcp => push_str(out, "TCP"),
        IpProtocol::Udp => push_str(out, "UDP"),
        IpProtocol::Ipv6Route => push_str(out, "IPv6-Route"),
        IpProtocol::Ipv6Fragment => push_str(out, "IPv6-Frag"),
        IpProtocol::Esp => push_str(out, "ESP"),
        IpProtocol::AuthHeader => push_str(out, "AH"),
        IpProtocol::Icmpv6 => push_str(out, "ICMPv6"),
        IpProtocol::NoNextHeader => push_str(out, "no-next-header"),
        IpProtocol::Ipv6DestOpts => push_str(out, "IPv6-DestOpts"),
        IpProtocol::Mobility => push_str(out, "Mobility"),
        IpProtocol::Other(value) => {
            push_str(out, "IP protocol ");
            push_u8(out, value);
        },
    }
}

impl IpProtocol {
    /// The protocol's usual name, or `IP protocol <n>`.
    pub fn to_text(&self) -> (text: String)
        ensures
            text@ == protocol_text(*self),
    {
        let mut out = String::new();
        push_protocol(&mut out, *self);
        proof {
            assert(Seq::<char>::empty() + protocol_text(*self) =~= protocol_text(*self));
        }
        out
    }
}

} // verus!
