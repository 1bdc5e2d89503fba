//! Link-layer decoding: Ethernet II, 802.1Q VLAN tags and Linux cooked capture.

use vstd::prelude::*;

use crate::decode::bytes::{be16, ByteReader};
use crate::decode::model::{
    DecodeStop, EthernetFrame, EthernetFrameView, Layer, LinkFrame, LinkFrameView, LinuxSllFrame,
    LinuxSllFrameView, SllPacketType, SllVersion, VlanTag,
};
use crate::decode::types::{mac_at, EtherType, MacAddress};

verus! {

/// Length of the fixed Ethernet II header in bytes.
pub const ETHERNET_HEADER_LEN: usize = 14;

/// How many stacked VLAN tags to follow.
///
/// Two covers 802.1ad QinQ. The bound is required: without one, a frame
/// claiming to be VLAN-tagged all the way down would keep the decoder looping
/// over attacker-chosen data.
pub const MAX_VLAN_TAGS: usize = 2;

/// Length of a Linux SLL header.
pub const SLL_HEADER_LEN: usize = 16;

/// Length of a Linux SLL2 header.
pub const SLL2_HEADER_LEN: usize = 20;

/// What a link-layer decoder produced.
pub struct LinkResult<'a> {
    /// The decoded frame.
    pub frame: LinkFrame,
    /// The protocol of the payload.
    pub payload_type: EtherType,
    /// The bytes after the link header.
    pub payload: &'a [u8],
}

/// A truncation result for this layer.
pub open spec fn link_truncated(protocol: &'static str) -> DecodeStop {
    DecodeStop::Truncated { layer: Layer::Link, protocol }
}

/// The VLAN tag whose control field is stored at `at`.
pub open spec fn vlan_tag_at(data: Seq<u8>, at: int, tag_protocol: EtherType) -> VlanTag {
    let control = be16(data, at);
    VlanTag {
        tag_protocol,
        priority: (control / 8192) as u8,
        drop_eligible: (control / 4096) % 2 == 1,
        id: (control % 4096) as u16,
    }
}

/// The stack of VLAN tags starting at `at`, given the type field that
/// introduced it and how many tags have already been read: the tags, the
/// innermost EtherType and where the payload starts.
pub open spec fn vlan_chain(data: Seq<u8>, at: int, ether_type: EtherType, count: nat) -> Result<
    (Seq<VlanTag>, EtherType, int),
    DecodeStop,
>
    decreases MAX_VLAN_TAGS - count,
{
    if ether_type.spec_is_vlan() && count < MAX_VLAN_TAGS {
        if at + 4 > data.len() {
            Err(link_truncated("802.1Q tag"))
        } else {
            let tag = vlan_tag_at(data, at, ether_type);
            let inner = EtherType::spec_from_u16(be16(data, at + 2) as u16);
            match vlan_chain(data, at + 4, inner, count + 1) {
                Ok((tags, innermost, end)) => Ok((seq![tag] + tags, innermost, end)),
                Err(stop) => Err(stop),
            }
        }
    } else {
        Ok((seq![], ether_type, at))
    }
}

/// What an Ethernet frame decodes to: the frame, the payload's protocol and
/// where the payload starts.
pub open spec fn spec_decode_ethernet(data: Seq<u8>) -> Result<
    (LinkFrameView, EtherType, int),
    DecodeStop,
> {
    if data.len() < ETHERNET_HEADER_LEN {
        Err(link_truncated("Ethernet"))
    } else {
        let outer = EtherType::spec_from_u16(be16(data, 12) as u16);
        match vlan_chain(data, ETHERNET_HEADER_LEN as int, outer, 0) {
            Ok((tags, ether_type, start)) => Ok(
                (
                    LinkFrameView::Ethernet(
                        EthernetFrameView {
                            source: mac_at(data, 6),
                            destination: mac_at(data, 0),
                            ether_type,
                            vlan_tags: tags,
                        },
                    ),
                    ether_type,
                    start,
                ),
            ),
            Err(stop) => Err(stop),
        }
    }
}

/// The meaningful part of an SLL address field: the declared length, clamped
/// to the 8 bytes the field has.
pub open spec fn trimmed_address(field: Seq<u8>, declared_len: int) -> Seq<u8> {
    if declared_len < field.len() {
        field.subrange(0, declared_len)
    } else {
        field
    }
}

/// What a Linux SLL (version 1) header decodes to.
pub open spec fn spec_decode_linux_sll(data: Seq<u8>) -> Result<
    (LinkFrameView, EtherType, int),
    DecodeStop,
> {
    if data.len() < SLL_HEADER_LEN {
        Err(link_truncated("Linux SLL"))
    } else {
        let protocol = EtherType::spec_from_u16(be16(data, 14) as u16);
        Ok(
            (
                LinkFrameView::LinuxSll(
                    LinuxSllFrameView {
                        version: SllVersion::V1,
                        packet_type: SllPacketType::spec_from_u16(be16(data, 0) as u16),
                        arphrd_type: be16(data, 2) as u16,
                        source_address: trimmed_address(data.subrange(6, 14), be16(data, 4)),
                        protocol,
                    },
                ),
                protocol,
                SLL_HEADER_LEN as int,
            ),
        )
    }
}

/// What a Linux SLL2 header decodes to.
pub open spec fn spec_decode_linux_sll2(data: Seq<u8>) -> Result<
    (LinkFrameView, EtherType, int),
    DecodeStop,
> {
    if data.len() < SLL2_HEADER_LEN {
        Err(link_truncated("Linux SLL2"))
    } else {
        let protocol = EtherType::spec_from_u16(be16(data, 0) as u16);
        Ok(
            (
                LinkFrameView::LinuxSll(
                    LinuxSllFrameView {
                        version: SllVersion::V2,
                        packet_type: SllPacketType::spec_from_u16(data[10] as u16),
                        arphrd_type: be16(data, 8) as u16,
                        source_address: trimmed_address(data.subrange(12, 20), data[11] as int),
                        protocol,
                    },
                ),
                protocol,
                SLL2_HEADER_LEN as int,
            ),
        )
    }
}

/// Whether a link decoder's result is the one its specification describes.
pub open spec fn link_result_is(
    result: Result<LinkResult, DecodeStop>,
    data: Seq<u8>,
    expected: Result<(LinkFrameView, EtherType, int), DecodeStop>,
) -> bool {
    match expected {
        Ok((frame, payload_type, start)) => {
            &&& result matches Ok(link)
            &&& link.frame@ == frame
            &&& link.payload_type == payload_type
            &&& link.payload@ == data.subrange(start, data.len() as int)
        },
        Err(stop) => result == Err::<LinkResult, DecodeStop>(stop),
    }
}

/// Builds a truncation result for this layer.
fn truncated(protocol: &'static str) -> (stop: DecodeStop)
    ensures
        stop == link_truncated(protocol),
{
    DecodeStop::Truncated { layer: Layer::Link, protocol }
}

/// Decodes an Ethernet II frame, following at most [`MAX_VLAN_TAGS`] VLAN tags.
pub fn decode_ethernet(bytes: &[u8]) -> (result: Result<LinkResult<'_>, DecodeStop>)
    ensures
        link_result_is(result, bytes@, spec_decode_ethernet(bytes@)),
{
    let mut reader = ByteReader::new(bytes);

    let destination = match reader.array::<6>() {
        Some(octets) => MacAddress(octets),
        None => return Err(truncated("Ethernet")),
    };
    let source = match reader.array::<6>() {
        Some(octets) => MacAddress(octets),
        None => return Err(truncated("Ethernet")),
    };
    let first_type = match reader.u16() {
        Some(value) => EtherType::from_u16(value),
        None => return Err(truncated("Ethernet")),
    };
    proof {
        assert(destination.0 =~= mac_at(bytes@, 0).0);
        assert(source.0 =~= mac_at(bytes@, 6).0);
        assert(first_type == EtherType::spec_from_u16(be16(bytes@, 12) as u16));
    }

    let mut ether_type = first_type;
    let mut vlan_tags: Vec<VlanTag> = Vec::new();
    let ghost whole = vlan_chain(bytes@, ETHERNET_HEADER_LEN as int, first_type, 0);
    proof {
        assert(vlan_tags@ + seq![] =~= seq![]);
    }
    while ether_type.is_vlan() && vlan_tags.len() < MAX_VLAN_TAGS
        invariant
            reader.bytes() == bytes@,
            reader.pos() == ETHERNET_HEADER_LEN + 4 * vlan_tags.len(),
            reader.pos() <= bytes@.len(),
            vlan_tags.len() <= MAX_VLAN_TAGS,
            bytes@.len() >= ETHERNET_HEADER_LEN,
            first_type == EtherType::spec_from_u16(be16(bytes@, 12) as u16),
            destination == mac_at(bytes@, 0),
            source == mac_at(bytes@, 6),
            whole == vlan_chain(bytes@, ETHERNET_HEADER_LEN as int, first_type, 0),
            whole == match vlan_chain(bytes@, reader.pos(), ether_type, vlan_tags.len() as nat) {
                Ok((tags, innermost, end)) => Ok((vlan_tags@ + tags, innermost, end)),
                Err(stop) => Err(stop),
            },
        decreases MAX_VLAN_TAGS - vlan_tags.len(),
    {
        let ghost at = reader.pos();
        let ghost before = vlan_tags@;
        if !reader.has(4) {
            proof {
                assert(vlan_chain(bytes@, at, ether_type, vlan_tags.len() as nat) == Err::<
                    (Seq<VlanTag>, EtherType, int),
                    DecodeStop,
                >(link_truncated("802.1Q tag")));
            }
            proof {
                assert(whole == Err::<(Seq<VlanTag>, EtherType, int), DecodeStop>(
                    link_truncated("802.1Q tag"),
                ));
                assert(spec_decode_ethernet(bytes@) == Err::<
                    (LinkFrameView, EtherType, int),
                    DecodeStop,
                >(link_truncated("802.1Q tag")));
            }
            return Err(truncated("802.1Q tag"));
        }
        let control = match reader.u16() {
            Some(value) => value,
            None => return Err(truncated("802.1Q tag")),
        };
        let inner = match reader.u16() {
            Some(value) => EtherType::from_u16(value),
            None => return Err(truncated("802.1Q tag")),
        };
        let tag = VlanTag {
            tag_protocol: ether_type,
            priority: (control / 8192) as u8,
            drop_eligible: (control / 4096) % 2 == 1,
            id: control % 4096,
        };
        proof {
            assert(tag == vlan_tag_at(bytes@, at, ether_type));
        }
        vlan_tags.push(tag);
        ether_type = inner;
        proof {
            let rest = vlan_chain(bytes@, reader.pos(), ether_type, vlan_tags.len() as nat);
            if let Ok((tags, innermost, end)) = rest {
                assert(before + (seq![tag] + tags) =~= vlan_tags@ + tags);
            }
        }
    }
    proof {
        assert(vlan_tags@ + seq![] =~= vlan_tags@);
        assert(vlan_chain(bytes@, reader.pos(), ether_type, vlan_tags.len() as nat) == Ok::<
            (Seq<VlanTag>, EtherType, int),
            DecodeStop,
        >((seq![], ether_type, reader.pos())));
    }

    let frame = EthernetFrame { source, destination, ether_type, vlan_tags };
    let ghost end = reader.pos();
    let payload = reader.rest();
    proof {
        assert(whole == Ok::<(Seq<VlanTag>, EtherType, int), DecodeStop>((frame.vlan_tags@, ether_type, end)));
        assert(spec_decode_ethernet(bytes@) == Ok::<(LinkFrameView, EtherType, int), DecodeStop>((LinkFrame::Ethernet(frame)@, ether_type, end)));
    }
    Ok(LinkResult { frame: LinkFrame::Ethernet(frame), payload_type: ether_type, payload })
}

/// Keeps only the meaningful part of an SLL address field.
///
/// A length larger than the field is clamped rather than trusted.
fn trim_address(field: &[u8; 8], declared_len: u16) -> (address: Vec<u8>)
    ensures
        address@ == trimmed_address(field@, declared_len as int),
{
    let len: usize = if (declared_len as usize) < 8 {
        declared_len as usize
    } else {
        8
    };
    let mut address: Vec<u8> = Vec::new();
    let mut i: usize = 0;
    while i < len
        invariant
            len <= 8,
            i <= len,
            address@ =~= field@.subrange(0, i as int),
        decreases len - i,
    {
        address.push(field[i]);
        i = i + 1;
    }
    proof {
        assert(field@.subrange(0, 8) =~= field@);
    }
    address
}

/// Decodes a Linux SLL (version 1) cooked-capture header.
pub fn decode_linux_sll(bytes: &[u8]) -> (result: Result<LinkResult<'_>, DecodeStop>)
    ensures
        link_result_is(result, bytes@, spec_decode_linux_sll(bytes@)),
{
    let mut reader = ByteReader::new(bytes);

    let packet_type = match reader.u16() {
        Some(value) => SllPacketType::from_u16(value),
        None => return Err(truncated("Linux SLL")),
    };
    let arphrd_type = match reader.u16() {
        Some(value) => value,
        None => return Err(truncated("Linux SLL")),
    };
    let address_len = match reader.u16() {
        Some(value) => value,
        None => return Err(truncated("Linux SLL")),
    };
    let address_field = match reader.array::<8>() {
        Some(field) => field,
        None => return Err(truncated("Linux SLL")),
    };
    let protocol = match reader.u16() {
        Some(value) => EtherType::from_u16(value),
        None => return Err(truncated("Linux SLL")),
    };

    let frame = LinuxSllFrame {
        version: SllVersion::V1,
        packet_type,
        arphrd_type,
        source_address: trim_address(&address_field, address_len),
        protocol,
    };
    Ok(LinkResult { frame: LinkFrame::LinuxSll(frame), payload_type: protocol, payload: reader.rest() })
}

/// Decodes a Linux SLL2 cooked-capture header.
///
/// SLL2 is 20 bytes and orders its fields differently from SLL: the protocol
/// comes first and the interface index is included.
pub fn decode_linux_sll2(bytes: &[u8]) -> (result: Result<LinkResult<'_>, DecodeStop>)
    ensures
        link_result_is(result, bytes@, spec_decode_linux_sll2(bytes@)),
{
    let mut reader = ByteReader::new(bytes);

    let protocol = match reader.u16() {
        Some(value) => EtherType::from_u16(value),
        None => return Err(truncated("Linux SLL2")),
    };
    if reader.skip(2).is_none() {
        // The reserved field, which must be zero.
        return Err(truncated("Linux SLL2"));
    }
    if reader.skip(4).is_none() {
        // The interface index.
        return Err(truncated("Linux SLL2"));
    }
    let arphrd_type = match reader.u16() {
        Some(value) => value,
        None => return Err(truncated("Linux SLL2")),
    };
    let packet_type = match reader.u8() {
        Some(value) => SllPacketType::from_u16(value as u16),
        None => return Err(truncated("Linux SLL2")),
    };
    let address_len = match reader.u8() {
        Some(value) => value as u16,
        None => return Err(truncated("Linux SLL2")),
    };
    let address_field = match reader.array::<8>() {
        Some(field) => field,
        None => return Err(truncated("Linux SLL2")),
    };

    let frame = LinuxSllFrame {
        version: SllVersion::V2,
        packet_type,
        arphrd_type,
        source_address: trim_address(&address_field, address_len),
        protocol,
    };
    Ok(LinkResult { frame: LinkFrame::LinuxSll(frame), payload_type: protocol, payload: reader.rest() })
}

} // verus!
