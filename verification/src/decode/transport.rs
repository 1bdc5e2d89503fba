//! Transport-layer decoding: TCP, UDP and ICMP.

use vstd::prelude::*;

use crate::decode::bytes::{be16, be16_field, be32, ByteReader};
use crate::decode::model::{
    DecodeStop, IcmpFamily, IcmpMessage, Layer, TcpHeader, TransportLayer, UdpHeader,
    UDP_HEADER_LEN,
};
use crate::decode::types::TcpFlags;

verus! {

/// Length of a TCP header without options.
pub const TCP_MIN_HEADER_LEN: u8 = 20;

/// Length of the fixed head every ICMP and ICMPv6 message starts with.
pub const ICMP_HEADER_LEN: usize = 4;

/// A truncation result for this layer.
pub open spec fn transport_truncated(protocol: &'static str) -> DecodeStop {
    DecodeStop::Truncated { layer: Layer::Transport, protocol }
}

/// A malformed-header result for this layer.
pub open spec fn transport_malformed(protocol: &'static str, reason: &'static str) -> DecodeStop {
    DecodeStop::Malformed { layer: Layer::Transport, protocol, reason }
}

/// What a TCP header decodes to.
pub open spec fn spec_decode_tcp(data: Seq<u8>) -> Result<TransportLayer, DecodeStop> {
    if data.len() < TCP_MIN_HEADER_LEN {
        Err(transport_truncated("TCP"))
    } else if (be16(data, 12) / 4096) * 4 < TCP_MIN_HEADER_LEN {
        Err(transport_malformed("TCP", "data offset is below the 20-byte minimum"))
    } else if data.len() < (be16(data, 12) / 4096) * 4 {
        Err(transport_truncated("TCP options"))
    } else {
        let header_len = (be16(data, 12) / 4096) * 4;
        Ok(
            TransportLayer::Tcp(
                TcpHeader {
                    source_port: be16(data, 0) as u16,
                    destination_port: be16(data, 2) as u16,
                    sequence: be32(data, 4) as u32,
                    acknowledgment: be32(data, 8) as u32,
                    header_len: header_len as u8,
                    flags: TcpFlags((be16(data, 12) % 512) as u16),
                    window: be16(data, 14) as u16,
                    checksum: be16(data, 16) as u16,
                    urgent_pointer: be16(data, 18) as u16,
                    options_len: (header_len - TCP_MIN_HEADER_LEN) as u8,
                },
            ),
        )
    }
}

/// What a UDP header decodes to.
pub open spec fn spec_decode_udp(data: Seq<u8>) -> Result<TransportLayer, DecodeStop> {
    if data.len() < UDP_HEADER_LEN {
        Err(transport_truncated("UDP"))
    } else if be16(data, 4) < UDP_HEADER_LEN {
        Err(transport_malformed("UDP", "length field is shorter than the header"))
    } else {
        let captured = data.len() - UDP_HEADER_LEN;
        Ok(
            TransportLayer::Udp(
                UdpHeader {
                    source_port: be16(data, 0) as u16,
                    destination_port: be16(data, 2) as u16,
                    length: be16(data, 4) as u16,
                    checksum: be16(data, 6) as u16,
                    captured_payload_len: if captured <= u16::MAX {
                        captured as u16
                    } else {
                        u16::MAX
                    },
                },
            ),
        )
    }
}

/// What the head of an ICMP or ICMPv6 message decodes to.
pub open spec fn spec_decode_icmp(data: Seq<u8>, family: IcmpFamily) -> Result<
    TransportLayer,
    DecodeStop,
> {
    if data.len() < ICMP_HEADER_LEN {
        Err(transport_truncated(family.spec_label()))
    } else {
        Ok(
            TransportLayer::Icmp(
                IcmpMessage {
                    family,
                    message_type: data[0],
                    code: data[1],
                    checksum: be16_field(data, 2),
                },
            ),
        )
    }
}

/// Builds a truncation result for this layer.
fn truncated(protocol: &'static str) -> (stop: DecodeStop)
    ensures
        stop == transport_truncated(protocol),
{
    DecodeStop::Truncated { layer: Layer::Transport, protocol }
}

/// Builds a malformed-header result for this layer.
fn malformed(protocol: &'static str, reason: &'static str) -> (stop: DecodeStop)
    ensures
        stop == transport_malformed(protocol, reason),
{
    DecodeStop::Malformed { layer: Layer::Transport, protocol, reason }
}

/// Decodes a TCP header, honouring its variable data offset.
///
/// TCP options are not parsed, but their *length* is, because the data
/// offset is what says where the payload begins.
pub fn decode_tcp(bytes: &[u8]) -> (result: Result<TransportLayer, DecodeStop>)
    ensures
        result == spec_decode_tcp(bytes@),
{
    let mut reader = ByteReader::new(bytes);

    let source_port = match reader.u16() {
        Some(value) => value,
        None => return Err(truncated("TCP")),
    };
    let destination_port = match reader.u16() {
        Some(value) => value,
        None => return Err(truncated("TCP")),
    };
    let sequence = match reader.u32() {
        Some(value) => value,
        None => return Err(truncated("TCP")),
    };
    let acknowledgment = match reader.u32() {
        Some(value) => value,
        None => return Err(truncated("TCP")),
    };

    // The data offset (4 bits) and the control bits share these two octets.
    // The lowest bit of the first octet is the NS flag, so the flag field is
    // nine bits, not eight.
    let offset_and_flags = match reader.u16() {
        Some(value) => value,
        None => return Err(truncated("TCP")),
    };
    let data_offset = (offset_and_flags / 4096) as u8;
    let flags = TcpFlags(offset_and_flags % 512);

    let window = match reader.u16() {
        Some(value) => value,
        None => return Err(truncated("TCP")),
    };
    let checksum = match reader.u16() {
        Some(value) => value,
        None => return Err(truncated("TCP")),
    };
    let urgent_pointer = match reader.u16() {
        Some(value) => value,
        None => return Err(truncated("TCP")),
    };

    let header_len = data_offset * 4;
    if header_len < TCP_MIN_HEADER_LEN {
        return Err(malformed("TCP", "data offset is below the 20-byte minimum"));
    }

    let options_len = header_len - TCP_MIN_HEADER_LEN;
    if reader.skip(options_len as usize).is_none() {
        return Err(truncated("TCP options"));
    }

    Ok(
        TransportLayer::Tcp(
            TcpHeader {
                source_port,
                destination_port,
                sequence,
                acknowledgment,
                header_len,
                flags,
                window,
                checksum,
                urgent_pointer,
                options_len,
            },
        ),
    )
}

/// Decodes a UDP header.
///
/// The declared length and the bytes actually present are both recorded
/// rather than reconciled: they legitimately disagree when a snapshot length
/// truncated the packet.
pub fn decode_udp(bytes: &[u8]) -> (result: Result<TransportLayer, DecodeStop>)
    ensures
        result == spec_decode_udp(bytes@),
{
    let mut reader = ByteReader::new(bytes);

    let source_port = match reader.u16() {
        Some(value) => value,
        None => return Err(truncated("UDP")),
    };
    let destination_port = match reader.u16() {
        Some(value) => value,
        None => return Err(truncated("UDP")),
    };
    let length = match reader.u16() {
        Some(value) => value,
        None => return Err(truncated("UDP")),
    };
    let checksum = match reader.u16() {
        Some(value) => value,
        None => return Err(truncated("UDP")),
    };

    if length < UDP_HEADER_LEN {
        return Err(malformed("UDP", "length field is shorter than the header"));
    }

    let remaining = reader.remaining();
    let captured_payload_len: u16 = if remaining <= u16::MAX as usize {
        remaining as u16
    } else {
        u16::MAX
    };

    Ok(
        TransportLayer::Udp(
            UdpHeader { source_port, destination_port, length, checksum, captured_payload_len },
        ),
    )
}

/// Decodes the common four bytes at the head of every ICMP and ICMPv6
/// message. Per-type bodies are deliberately not decoded.
pub fn decode_icmp(bytes: &[u8], family: IcmpFamily) -> (result: Result<TransportLayer, DecodeStop>)
    ensures
        result == spec_decode_icmp(bytes@, family),
{
    let mut reader = ByteReader::new(bytes);
    let label = family.label();

    let message_type = match reader.u8() {
        Some(value) => value,
        None => return Err(truncated(label)),
    };
    let code = match reader.u8() {
        Some(value) => value,
        None => return Err(truncated(label)),
    };
    let checksum = match reader.u16() {
        Some(value) => value,
        None => return Err(truncated(label)),
    };

    Ok(TransportLayer::Icmp(IcmpMessage { family, message_type, code, checksum }))
}

} // verus!
