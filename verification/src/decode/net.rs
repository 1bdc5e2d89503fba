//! Network-layer decoding: IPv4, IPv6 and ARP.

use vstd::prelude::*;
use vstd::slice::slice_subrange;

use crate::decode::bytes::{be16, be32, ByteReader};
use crate::decode::model::{
    ArpAddresses, ArpOperation, ArpPacket, DecodeStop, Ipv4Header, Ipv6Header, Ipv6HeaderView,
    Layer, NetworkLayer, NetworkLayerView,
};
use crate::decode::types::{
    ipv4_at, ipv6_at, mac_at, EtherType, IpProtocol, Ipv4Address, Ipv6Address, MacAddress,
};

verus! {

/// Length of an IPv4 header without options.
pub const IPV4_MIN_HEADER_LEN: u8 = 20;

/// Length of the fixed IPv6 header.
pub const IPV6_HEADER_LEN: usize = 40;

/// How many IPv6 extension headers to follow before giving up.
///
/// A real packet has one or two. The bound is required because the chain is
/// attacker-controlled.
pub const MAX_EXTENSION_HEADERS: usize = 8;

/// Length of a complete Ethernet/IPv4 ARP packet.
pub const ARP_ETHERNET_IPV4_LEN: usize = 28;

/// What a network-layer decoder produced.
pub struct NetworkResult<'a> {
    /// The decoded header.
    pub layer: NetworkLayer,
    /// The protocol of the payload, or `None` when there is nothing above
    /// this layer to decode.
    pub payload_protocol: Option<IpProtocol>,
    /// The bytes after the header.
    pub payload: &'a [u8],
    /// Why there is no transport layer to decode, when that is the case.
    pub stopped: Option<DecodeStop>,
}

/// What a network-layer header decodes to: the header, the payload's
/// protocol, where the payload starts and why decoding cannot go further.
pub type NetworkSpec = Result<(NetworkLayerView, Option<IpProtocol>, int, Option<DecodeStop>), DecodeStop>;

/// A truncation result for this layer.
pub open spec fn net_truncated(protocol: &'static str) -> DecodeStop {
    DecodeStop::Truncated { layer: Layer::Network, protocol }
}

/// A malformed-header result for this layer.
pub open spec fn net_malformed(protocol: &'static str, reason: &'static str) -> DecodeStop {
    DecodeStop::Malformed { layer: Layer::Network, protocol, reason }
}

/// Whether a network decoder's result is the one its specification describes.
pub open spec fn network_result_is(
    result: Result<NetworkResult, DecodeStop>,
    data: Seq<u8>,
    expected: NetworkSpec,
) -> bool {
    match expected {
        Ok((layer, payload_protocol, start, stopped)) => {
            &&& result matches Ok(network)
            &&& network.layer@ == layer
            &&& network.payload_protocol == payload_protocol
            &&& network.payload@ == data.subrange(start, data.len() as int)
            &&& network.stopped == stopped
        },
        Err(stop) => result == Err::<NetworkResult, DecodeStop>(stop),
    }
}

/// The IPv4 header stored at the start of `data`, whose options run to `header_len`.
pub open spec fn ipv4_header_of(data: Seq<u8>, header_len: int) -> Ipv4Header {
    let flags_fragment = be16(data, 6);
    Ipv4Header {
        source: ipv4_at(data, 12),
        destination: ipv4_at(data, 16),
        protocol: IpProtocol::spec_from_u8(data[9]),
        ttl: data[8],
        header_len: header_len as u8,
        total_len: be16(data, 2) as u16,
        identification: be16(data, 4) as u16,
        dscp: data[1] / 4,
        ecn: data[1] % 4,
        dont_fragment: (flags_fragment / 0x4000) % 2 == 1,
        more_fragments: (flags_fragment / 0x2000) % 2 == 1,
        fragment_offset: (flags_fragment % 0x2000) as u16,
        checksum: be16(data, 10) as u16,
        options_len: (header_len - IPV4_MIN_HEADER_LEN) as u8,
    }
}

/// What an IPv4 header decodes to.
pub open spec fn spec_decode_ipv4(data: Seq<u8>) -> NetworkSpec {
    if data.len() < 1 {
        Err(net_truncated("IPv4"))
    } else if data[0] / 16 != 4 {
        Err(net_malformed("IPv4", "version field is not 4"))
    } else if (data[0] % 16) * 4 < IPV4_MIN_HEADER_LEN {
        Err(net_malformed("IPv4", "header length is below the 20-byte minimum"))
    } else if data.len() < IPV4_MIN_HEADER_LEN {
        Err(net_truncated("IPv4"))
    } else if data.len() < (data[0] % 16) * 4 {
        Err(net_truncated("IPv4 options"))
    } else if be16(data, 2) != 0 && be16(data, 2) < (data[0] % 16) * 4 {
        Err(net_malformed("IPv4", "total length is shorter than the header"))
    } else {
        let header_len = (data[0] % 16) * 4;
        let header = ipv4_header_of(data, header_len);
        let later = header.fragment_offset > 0;
        Ok(
            (
                NetworkLayerView::Ipv4(header),
                if later {
                    None
                } else {
                    Some(header.protocol)
                },
                header_len,
                if later {
                    Some(DecodeStop::NonInitialFragment)
                } else {
                    None
                },
            ),
        )
    }
}

/// Builds a truncation result for this layer.
fn truncated(protocol: &'static str) -> (stop: DecodeStop)
    ensures
        stop == net_truncated(protocol),
{
    DecodeStop::Truncated { layer: Layer::Network, protocol }
}

/// Builds a malformed-header result for this layer.
fn malformed(protocol: &'static str, reason: &'static str) -> (stop: DecodeStop)
    ensures
        stop == net_malformed(protocol, reason),
{
    DecodeStop::Malformed { layer: Layer::Network, protocol, reason }
}

/// Builds a truncation result for ARP.
fn arp_truncated() -> (stop: DecodeStop)
    ensures
        stop == net_truncated("ARP"),
{
    truncated("ARP")
}

/// Decodes an IPv4 header, honouring its variable header length.
///
/// A fragment other than the first carries no transport header, so its
/// payload protocol is withheld and the result says why.
pub fn decode_ipv4(bytes: &[u8]) -> (result: Result<NetworkResult<'_>, DecodeStop>)
    ensures
        network_result_is(result, bytes@, spec_decode_ipv4(bytes@)),
{
    let mut reader = ByteReader::new(bytes);

    let version_ihl = match reader.u8() {
        Some(value) => value,
        None => return Err(truncated("IPv4")),
    };
    let version = version_ihl / 16;
    let ihl = version_ihl % 16;

    if version != 4 {
        return Err(malformed("IPv4", "version field is not 4"));
    }
    // The header length is given in 32-bit words and must cover the fixed part.
    let header_len = ihl * 4;
    if header_len < IPV4_MIN_HEADER_LEN {
        return Err(malformed("IPv4", "header length is below the 20-byte minimum"));
    }

    let dscp_ecn = match reader.u8() {
        Some(value) => value,
        None => return Err(truncated("IPv4")),
    };
    let total_len = match reader.u16() {
        Some(value) => value,
        None => return Err(truncated("IPv4")),
    };
    let identification = match reader.u16() {
        Some(value) => value,
        None => return Err(truncated("IPv4")),
    };
    let flags_fragment = match reader.u16() {
        Some(value) => value,
        None => return Err(truncated("IPv4")),
    };
    let ttl = match reader.u8() {
        Some(value) => value,
        None => return Err(truncated("IPv4")),
    };
    let protocol = match reader.u8() {
        Some(value) => IpProtocol::from_u8(value),
        None => return Err(truncated("IPv4")),
    };
    let checksum = match reader.u16() {
        Some(value) => value,
        None => return Err(truncated("IPv4")),
    };
    let source = match reader.array::<4>() {
        Some(octets) => Ipv4Address(octets),
        None => return Err(truncated("IPv4")),
    };
    let destination = match reader.array::<4>() {
        Some(octets) => Ipv4Address(octets),
        None => return Err(truncated("IPv4")),
    };
    proof {
        assert(source.0 =~= ipv4_at(bytes@, 12).0);
        assert(destination.0 =~= ipv4_at(bytes@, 16).0);
    }

    // Options sit between the fixed header and the payload. Skipping exactly
    // this many bytes is what keeps the transport header at the right offset.
    let options_len = header_len - IPV4_MIN_HEADER_LEN;
    if reader.skip(options_len as usize).is_none() {
        return Err(truncated("IPv4 options"));
    }

    let header = Ipv4Header {
        source,
        destination,
        protocol,
        ttl,
        header_len,
        total_len,
        identification,
        dscp: dscp_ecn / 4,
        ecn: dscp_ecn % 4,
        // Bit 15 is reserved, 14 is "don't fragment", 13 is "more fragments".
        dont_fragment: (flags_fragment / 0x4000) % 2 == 1,
        more_fragments: (flags_fragment / 0x2000) % 2 == 1,
        fragment_offset: flags_fragment % 0x2000,
        checksum,
        options_len,
    };

    if total_len != 0 && total_len < header_len as u16 {
        return Err(malformed("IPv4", "total length is shorter than the header"));
    }

    // A fragment other than the first carries no transport header: it is a
    // slice out of the middle of one.
    let non_initial = header.is_non_initial_fragment();
    proof {
        assert(header == ipv4_header_of(bytes@, header_len as int));
    }

    Ok(NetworkResult {
        payload_protocol: if non_initial {
            None
        } else {
            Some(protocol)
        },
        stopped: if non_initial {
            Some(DecodeStop::NonInitialFragment)
        } else {
            None
        },
        layer: NetworkLayer::Ipv4(header),
        payload: reader.rest(),
    })
}

/// The outcome of following an IPv6 extension header chain.
pub ghost struct ExtensionChainView {
    /// Extension headers walked, in order.
    pub walked: Seq<IpProtocol>,
    /// The protocol the chain ended on.
    pub final_protocol: IpProtocol,
    /// Why the walk stopped short, if it did.
    pub stopped: Option<DecodeStop>,
    /// Whether a fragment header said this is not the first fragment.
    pub non_initial_fragment: bool,
    /// Where the bytes after the walked headers start.
    pub end: int,
}

/// How long the extension header of kind `protocol` at `at` is: `None` when
/// `protocol` is not an extension header that can be stepped over, the name of
/// what was cut short when its length byte is missing, or the length.
///
/// The kinds do not share one length encoding: Hop-by-Hop, Routing,
/// Destination Options and Mobility count 8-octet units beyond the first 8, a
/// Fragment header is always 8 bytes, and an Authentication Header counts
/// 4-octet units minus 2.
pub open spec fn extension_length(data: Seq<u8>, at: int, protocol: IpProtocol) -> Option<
    Result<int, &'static str>,
> {
    match protocol {
        IpProtocol::HopByHop | IpProtocol::Ipv6Route | IpProtocol::Ipv6DestOpts
        | IpProtocol::Mobility => if at + 2 > data.len() {
            Some(Err("IPv6 extension header"))
        } else {
            Some(Ok((data[at + 1] + 1) * 8))
        },
        IpProtocol::Ipv6Fragment => Some(Ok(8)),
        IpProtocol::AuthHeader => if at + 2 > data.len() {
            Some(Err("IPv6 authentication header"))
        } else {
            Some(Ok((data[at + 1] + 2) * 4))
        },
        _ => None,
    }
}

/// The chain of extension headers starting at `at` with kind `protocol`, after
/// `count` headers (`walked`) have already been stepped over.
pub open spec fn extension_walk(
    data: Seq<u8>,
    at: int,
    protocol: IpProtocol,
    count: nat,
    walked: Seq<IpProtocol>,
) -> ExtensionChainView
    decreases MAX_EXTENSION_HEADERS - count,
{
    let stop_here = |stopped: Option<DecodeStop>|
        ExtensionChainView {
            walked,
            final_protocol: protocol,
            stopped,
            non_initial_fragment: false,
            end: at,
        };
    if count >= MAX_EXTENSION_HEADERS {
        stop_here(Some(DecodeStop::UnsupportedExtensionHeader(protocol)))
    } else {
        match extension_length(data, at, protocol) {
            None => stop_here(None),
            Some(Err(what)) => stop_here(Some(net_truncated(what))),
            Some(Ok(length)) => if at + length > data.len() {
                stop_here(Some(net_truncated("IPv6 extension header")))
            } else {
                let later = protocol == IpProtocol::Ipv6Fragment && be16(data, at + 2) >= 8;
                let next = IpProtocol::spec_from_u8(data[at]);
                if later {
                    ExtensionChainView {
                        walked: walked.push(protocol),
                        final_protocol: next,
                        stopped: Some(DecodeStop::NonInitialFragment),
                        non_initial_fragment: true,
                        end: at + length,
                    }
                } else {
                    extension_walk(data, at + length, next, count + 1, walked.push(protocol))
                }
            },
        }
    }
}

/// What an IPv6 header decodes to, extension header chain included.
pub open spec fn spec_decode_ipv6(data: Seq<u8>) -> NetworkSpec {
    if data.len() < 4 {
        Err(net_truncated("IPv6"))
    } else if be32(data, 0) / 0x1000_0000 != 6 {
        Err(net_malformed("IPv6", "version field is not 6"))
    } else if data.len() < IPV6_HEADER_LEN {
        Err(net_truncated("IPv6"))
    } else {
        let first_word = be32(data, 0);
        let chain = extension_walk(
            data,
            IPV6_HEADER_LEN as int,
            IpProtocol::spec_from_u8(data[6]),
            0,
            seq![],
        );
        let header = Ipv6HeaderView {
            source: ipv6_at(data, 8),
            destination: ipv6_at(data, 24),
            next_header: chain.final_protocol,
            hop_limit: data[7],
            payload_len: be16(data, 4) as u16,
            traffic_class: ((first_word / 0x10_0000) % 256) as u8,
            flow_label: (first_word % 0x10_0000) as u32,
            extension_headers: chain.walked,
            non_initial_fragment: chain.non_initial_fragment,
        };
        Ok(
            (
                NetworkLayerView::Ipv6(header),
                if chain.stopped is None {
                    Some(chain.final_protocol)
                } else {
                    None
                },
                chain.end,
                chain.stopped,
            ),
        )
    }
}

/// The outcome of following an IPv6 extension header chain.
struct ExtensionChain {
    /// Extension headers successfully walked, in order.
    walked: Vec<IpProtocol>,
    /// The protocol the chain ended on.
    final_protocol: IpProtocol,
    /// Why the walk stopped short, if it did.
    stopped: Option<DecodeStop>,
    /// Whether a fragment header said this is not the first fragment.
    non_initial_fragment: bool,
}

/// Reads an extension header's length byte without consuming the header.
fn peek_ext_len(reader: &ByteReader<'_>) -> (length: Option<u8>)
    ensures
        reader.can_read(2) ==> length == Some(reader.bytes()[reader.pos() + 1]),
        !reader.can_read(2) ==> length is None,
{
    let mut probe = *reader;
    if probe.u8().is_none() {
        // The next-header byte.
        return None;
    }
    probe.u8()
}

/// Follows the IPv6 extension header chain to the transport header.
///
/// Anything that is not a header this knows how to step over ends the walk:
/// ESP's encrypted payload is never read as a transport header, and an
/// unknown number is never given a guessed length.
fn walk_extension_headers(reader: &mut ByteReader<'_>, first: IpProtocol) -> (chain: ExtensionChain)
    requires
        old(reader).pos() <= old(reader).bytes().len(),
    ensures
        final(reader).bytes() == old(reader).bytes(),
        final(reader).pos() <= final(reader).bytes().len(),
        ({
            let expected = extension_walk(old(reader).bytes(), old(reader).pos(), first, 0, seq![]);
            &&& chain.walked@ == expected.walked
            &&& chain.final_protocol == expected.final_protocol
            &&& chain.stopped == expected.stopped
            &&& chain.non_initial_fragment == expected.non_initial_fragment
            &&& final(reader).pos() == expected.end
        }),
{
    let ghost data = reader.bytes();
    let ghost whole = extension_walk(data, reader.pos(), first, 0, seq![]);
    let mut walked: Vec<IpProtocol> = Vec::new();
    let mut protocol = first;
    let mut count: usize = 0;

    while count < MAX_EXTENSION_HEADERS
        invariant
            reader.bytes() == data,
            data == old(reader).bytes(),
            whole == extension_walk(old(reader).bytes(), old(reader).pos(), first, 0, seq![]),
            reader.pos() <= data.len(),
            count <= MAX_EXTENSION_HEADERS,
            walked@.len() == count,
            whole == extension_walk(data, reader.pos(), protocol, count as nat, walked@),
        decreases MAX_EXTENSION_HEADERS - count,
    {
        let ghost at = reader.pos();
        let length_in_bytes: usize = match protocol {
            IpProtocol::HopByHop | IpProtocol::Ipv6Route | IpProtocol::Ipv6DestOpts
            | IpProtocol::Mobility => {
                match peek_ext_len(reader) {
                    Some(extra_units) => (extra_units as usize + 1) * 8,
                    None => {
                        return ExtensionChain {
                            walked,
                            final_protocol: protocol,
                            stopped: Some(truncated("IPv6 extension header")),
                            non_initial_fragment: false,
                        };
                    },
                }
            },
            IpProtocol::Ipv6Fragment => 8,
            IpProtocol::AuthHeader => {
                match peek_ext_len(reader) {
                    Some(units) => (units as usize + 2) * 4,
                    None => {
                        return ExtensionChain {
                            walked,
                            final_protocol: protocol,
                            stopped: Some(truncated("IPv6 authentication header")),
                            non_initial_fragment: false,
                        };
                    },
                }
            },
            // Not an extension header: the chain ends here, normally.
            _ => {
                return ExtensionChain {
                    walked,
                    final_protocol: protocol,
                    stopped: None,
                    non_initial_fragment: false,
                };
            },
        };
        proof {
            assert(extension_length(data, at, protocol) == Some(Ok::<int, &'static str>(length_in_bytes as int)));
        }
        assert(length_in_bytes >= 8);

        let block = match reader.take(length_in_bytes) {
            Some(block) => block,
            None => {
                return ExtensionChain {
                    walked,
                    final_protocol: protocol,
                    stopped: Some(truncated("IPv6 extension header")),
                    non_initial_fragment: false,
                };
            },
        };

        // A fragment header's offset lives in bytes 2-3 of the block; any
        // offset other than zero means this is not the first fragment.
        let later = match protocol {
            IpProtocol::Ipv6Fragment => (block[2] as u16 * 256 + block[3] as u16) >= 8,
            _ => false,
        };

        proof {
            assert(block@[0] == data[at]);
            assert(protocol == IpProtocol::Ipv6Fragment ==> block@[2] == data[at + 2] && block@[3] == data[at + 3]);
            assert(later == (protocol == IpProtocol::Ipv6Fragment && be16(data, at + 2) >= 8));
        }
        let ghost before = walked@;
        walked.push(protocol);
        let next = IpProtocol::from_u8(block[0]);
        proof {
            assert(walked@ == before.push(protocol));
        }
        protocol = next;
        count = count + 1;

        if later {
            return ExtensionChain {
                walked,
                final_protocol: protocol,
                stopped: Some(DecodeStop::NonInitialFragment),
                non_initial_fragment: true,
            };
        }
    }

    ExtensionChain {
        walked,
        final_protocol: protocol,
        stopped: Some(DecodeStop::UnsupportedExtensionHeader(protocol)),
        non_initial_fragment: false,
    }
}

/// Decodes an IPv6 header and walks its extension header chain, stepping over
/// at most [`MAX_EXTENSION_HEADERS`] headers.
pub fn decode_ipv6(bytes: &[u8]) -> (result: Result<NetworkResult<'_>, DecodeStop>)
    ensures
        network_result_is(result, bytes@, spec_decode_ipv6(bytes@)),
{
    let mut reader = ByteReader::new(bytes);

    // The first word packs version (4 bits), traffic class (8) and flow label
    // (20) together.
    let first_word = match reader.u32() {
        Some(value) => value,
        None => return Err(truncated("IPv6")),
    };
    if first_word / 0x1000_0000 != 6 {
        return Err(malformed("IPv6", "version field is not 6"));
    }

    let payload_len = match reader.u16() {
        Some(value) => value,
        None => return Err(truncated("IPv6")),
    };
    let first_next_header = match reader.u8() {
        Some(value) => IpProtocol::from_u8(value),
        None => return Err(truncated("IPv6")),
    };
    let hop_limit = match reader.u8() {
        Some(value) => value,
        None => return Err(truncated("IPv6")),
    };
    let source = match reader.array::<16>() {
        Some(octets) => Ipv6Address(octets),
        None => return Err(truncated("IPv6")),
    };
    let destination = match reader.array::<16>() {
        Some(octets) => Ipv6Address(octets),
        None => return Err(truncated("IPv6")),
    };
    proof {
        assert(source.0 =~= ipv6_at(bytes@, 8).0);
        assert(destination.0 =~= ipv6_at(bytes@, 24).0);
    }

    let chain = walk_extension_headers(&mut reader, first_next_header);

    let header = Ipv6Header {
        source,
        destination,
        next_header: chain.final_protocol,
        hop_limit,
        payload_len,
        traffic_class: ((first_word / 0x10_0000) % 256) as u8,
        flow_label: first_word % 0x10_0000,
        extension_headers: chain.walked,
        non_initial_fragment: chain.non_initial_fragment,
    };

    Ok(NetworkResult {
        payload_protocol: if chain.stopped.is_none() {
            Some(chain.final_protocol)
        } else {
            None
        },
        stopped: chain.stopped,
        layer: NetworkLayer::Ipv6(header),
        payload: reader.rest(),
    })
}

/// Whether an ARP header describes the Ethernet/IPv4 form.
pub open spec fn arp_is_ethernet_ipv4(data: Seq<u8>) -> bool {
    &&& be16(data, 0) == 1
    &&& EtherType::spec_from_u16(be16(data, 2) as u16) == EtherType::Ipv4
    &&& data[4] == 6
    &&& data[5] == 4
}

/// What an ARP packet decodes to.
pub open spec fn spec_decode_arp(data: Seq<u8>) -> NetworkSpec {
    if data.len() < 8 {
        Err(net_truncated("ARP"))
    } else if arp_is_ethernet_ipv4(data) && data.len() < ARP_ETHERNET_IPV4_LEN {
        Err(net_truncated("ARP"))
    } else {
        let packet = ArpPacket {
            operation: ArpOperation::spec_from_u16(be16(data, 6) as u16),
            hardware_type: be16(data, 0) as u16,
            protocol_type: EtherType::spec_from_u16(be16(data, 2) as u16),
            addresses: if arp_is_ethernet_ipv4(data) {
                Some(
                    ArpAddresses {
                        sender_mac: mac_at(data, 8),
                        sender_ip: ipv4_at(data, 14),
                        target_mac: mac_at(data, 18),
                        target_ip: ipv4_at(data, 24),
                    },
                )
            } else {
                None
            },
        };
        // ARP is the whole packet; nothing rides on top of it.
        Ok((NetworkLayerView::Arp(packet), None, data.len() as int, None))
    }
}

/// Decodes an ARP packet.
///
/// Only the Ethernet/IPv4 combination carries addresses NetSentry understands;
/// any other hardware or protocol type is reported by its numbers.
pub fn decode_arp(bytes: &[u8]) -> (result: Result<NetworkResult<'_>, DecodeStop>)
    ensures
        network_result_is(result, bytes@, spec_decode_arp(bytes@)),
{
    let mut reader = ByteReader::new(bytes);

    let hardware_type = match reader.u16() {
        Some(value) => value,
        None => return Err(arp_truncated()),
    };
    let protocol_type = match reader.u16() {
        Some(value) => EtherType::from_u16(value),
        None => return Err(arp_truncated()),
    };
    let hardware_len = match reader.u8() {
        Some(value) => value,
        None => return Err(arp_truncated()),
    };
    let protocol_len = match reader.u8() {
        Some(value) => value,
        None => return Err(arp_truncated()),
    };
    let operation = match reader.u16() {
        Some(value) => ArpOperation::from_u16(value),
        None => return Err(arp_truncated()),
    };

    let is_ethernet_ipv4 = hardware_type == 1 && protocol_type == EtherType::Ipv4
        && hardware_len == 6 && protocol_len == 4;

    let addresses = if is_ethernet_ipv4 {
        let sender_mac = match reader.array::<6>() {
            Some(octets) => MacAddress(octets),
            None => return Err(arp_truncated()),
        };
        let sender_ip = match reader.array::<4>() {
            Some(octets) => Ipv4Address(octets),
            None => return Err(arp_truncated()),
        };
        let target_mac = match reader.array::<6>() {
            Some(octets) => MacAddress(octets),
            None => return Err(arp_truncated()),
        };
        let target_ip = match reader.array::<4>() {
            Some(octets) => Ipv4Address(octets),
            None => return Err(arp_truncated()),
        };
        proof {
            assert(sender_mac.0 =~= mac_at(bytes@, 8).0);
            assert(sender_ip.0 =~= ipv4_at(bytes@, 14).0);
            assert(target_mac.0 =~= mac_at(bytes@, 18).0);
            assert(target_ip.0 =~= ipv4_at(bytes@, 24).0);
        }
        Some(ArpAddresses { sender_mac, sender_ip, target_mac, target_ip })
    } else {
        None
    };

    let len = bytes.len();
    Ok(NetworkResult {
        layer: NetworkLayer::Arp(ArpPacket { operation, hardware_type, protocol_type, addresses }),
        payload_protocol: None,
        payload: slice_subrange(bytes, len, len),
        stopped: None,
    })
}

} // verus!
