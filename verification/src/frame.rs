//! The optional 4-byte packet-info header.
//!
//! When a device is created with packet info enabled, every packet
//! exchanged with the kernel is prefixed with four bytes: two bytes of
//! flags (always zero on send) followed by two bytes naming the payload's
//! protocol, both big-endian.

use vstd::prelude::*;

verus! {

/// Protocol identifier for an IPv4 payload.
pub const PROTO_IPV4: u16 = 0x0800;

/// Protocol identifier for an IPv6 payload.
pub const PROTO_IPV6: u16 = 0x86DD;

/// Length of the packet-info header.
pub const INFO_HEADER_LEN: usize = 4;

/// The value a big-endian pair of bytes stands for.
pub open spec fn be16(hi: u8, lo: u8) -> int {
    hi * 256 + lo
}

/// The big-endian byte pair of a 16-bit value.
pub open spec fn be16_bytes(v: u16) -> Seq<u8> {
    seq![(v / 256) as u8, (v % 256) as u8]
}

/// The packet-info header for the given flags and protocol.
pub open spec fn info_header(flags: u16, proto: u16) -> Seq<u8> {
    be16_bytes(flags) + be16_bytes(proto)
}

/// A payload as it crosses the device with packet info enabled: the
/// header, with zero flags, followed by the payload bytes.
pub open spec fn with_info(proto: u16, payload: Seq<u8>) -> Seq<u8> {
    info_header(0, proto) + payload
}

/// What parsing the packet-info header of a received packet yields:
/// flags, protocol and the remaining payload, or nothing when the packet
/// is too short to carry the header.
pub open spec fn parsed_info(packet: Seq<u8>) -> Option<(int, int, Seq<u8>)> {
    if packet.len() < 4 {
        None
    } else {
        Some((be16(packet[0], packet[1]), be16(packet[2], packet[3]), packet.skip(4)))
    }
}

/// The bytes one payload occupies on the device: prefixed with the
/// packet-info header when the device was created with packet info,
/// and bare otherwise.
pub open spec fn wire_bytes(packet_info: bool, proto: u16, payload: Seq<u8>) -> Seq<u8> {
    if packet_info {
        with_info(proto, payload)
    } else {
        payload
    }
}

/// A big-endian byte pair stands for the value it was made from.
pub proof fn lemma_be16_round_trip(v: u16)
    ensures
        be16(be16_bytes(v)[0], be16_bytes(v)[1]) == v,
{
    assert(v / 256 < 256);
    vstd::arithmetic::div_mod::lemma_fundamental_div_mod(v as int, 256);
}

/// Prefixing a payload with the packet-info header and parsing the result
/// gives back zero flags, the protocol and the payload unchanged.
pub proof fn lemma_info_round_trip(proto: u16, payload: Seq<u8>)
    ensures
        parsed_info(with_info(proto, payload)) == Some((0int, proto as int, payload)),
{
    let w = with_info(proto, payload);
    lemma_be16_round_trip(0);
    lemma_be16_round_trip(proto);
    assert(w[0] == be16_bytes(0u16)[0]);
    assert(w[1] == be16_bytes(0u16)[1]);
    assert(w[2] == be16_bytes(proto)[0]);
    assert(w[3] == be16_bytes(proto)[1]);
    assert(w.skip(4) =~= payload);
}

/// Round trip across the wire: a payload encoded for a device with
/// packet info and carried whole parses back to zero flags, its protocol
/// and the very same payload bytes; for a device without packet info the
/// wire carries the payload bytes themselves.
pub proof fn lemma_wire_round_trip(packet_info: bool, proto: u16, payload: Seq<u8>)
    ensures
        packet_info ==> parsed_info(wire_bytes(true, proto, payload)) == Some(
            (0int, proto as int, payload),
        ),
        !packet_info ==> wire_bytes(false, proto, payload) == payload,
{
    if packet_info {
        lemma_info_round_trip(proto, payload);
    }
}

/// Builds the bytes sent across the device for one payload when packet
/// info is enabled: the 4-byte header, with zero flags, then the payload.
pub fn frame_packet(proto: u16, payload: &Vec<u8>) -> (r: Vec<u8>)
    ensures
        r@ == with_info(proto, payload@),
{
    let mut r: Vec<u8> = Vec::new();
    r.push(0);
    r.push(0);
    r.push((proto / 256) as u8);
    r.push((proto % 256) as u8);
    assert(r@ =~= info_header(0, proto) + payload@.take(0));
    let mut j: usize = 0;
    while j < payload.len()
        invariant
            j <= payload@.len(),
            r@ == info_header(0, proto) + payload@.take(j as int),
        decreases payload@.len() - j,
    {
        r.push(payload[j]);
        proof {
            assert(info_header(0, proto) + payload@.take(j as int + 1) =~= (info_header(0, proto)
                + payload@.take(j as int)).push(payload@[j as int]));
        }
        j += 1;
    }
    proof {
        assert(payload@.take(payload@.len() as int) =~= payload@);
    }
    r
}

/// Splits a received packet into the packet-info header's flags and
/// protocol and the payload behind them.  A packet shorter than the
/// header yields `None`.
pub fn parse_info_header(packet: &Vec<u8>) -> (r: Option<(u16, u16, Vec<u8>)>)
    ensures
        match r {
            None => packet@.len() < 4,
            Some(t) => packet@.len() >= 4 && t.0 == be16(packet@[0], packet@[1]) && t.1 == be16(
                packet@[2],
                packet@[3],
            ) && t.2@ == packet@.skip(4),
        },
{
    if packet.len() < 4 {
        return None;
    }
    let flags: u16 = (packet[0] as u16) * 256 + (packet[1] as u16);
    let proto: u16 = (packet[2] as u16) * 256 + (packet[3] as u16);
    let mut payload: Vec<u8> = Vec::new();
    let mut j: usize = 4;
    while j < packet.len()
        invariant
            4 <= j <= packet@.len(),
            payload@ == packet@.subrange(4, j as int),
        decreases packet@.len() - j,
    {
        payload.push(packet[j]);
        proof {
            assert(packet@.subrange(4, j as int + 1) =~= packet@.subrange(4, j as int).push(
                packet@[j as int],
            ));
        }
        j += 1;
    }
    proof {
        assert(packet@.subrange(4, packet@.len() as int) =~= packet@.skip(4));
    }
    Some((flags, proto, payload))
}

} // verus!
