//! Packet diagnostics: decode the Ethernet, IPv4, ARP, TCP and UDP
//! headers of a queued frame, purely for logging. The decode never
//! mutates a frame and has no effect on queue behaviour; a frame too
//! short for a layer simply yields less information, never a fault.
//!
//! Every decoded field is pinned to its byte range: the contracts state
//! each header field as the exact subrange or big-endian integer it is
//! read from.

use vstd::prelude::*;
use vstd::slice::{slice_index_get, slice_subrange, slice_to_vec};

verus! {

/// The big-endian 16-bit integer at offset `i`.
pub open spec fn be16(s: Seq<u8>, i: int) -> int
    recommends
        0 <= i,
        i + 2 <= s.len(),
{
    (s[i] as int) * 256 + (s[i + 1] as int)
}

/// Transport-layer summary of an IPv4 packet.
#[derive(Debug, PartialEq, Eq)]
pub enum L4Info {
    Tcp { src_port: u16, dst_port: u16 },
    Udp { src_port: u16, dst_port: u16 },
    Other,
}

/// Network-layer summary of an Ethernet frame.
#[derive(Debug, PartialEq, Eq)]
pub enum L3Info {
    Ipv4 { src: Vec<u8>, dst: Vec<u8>, protocol: u8, l4: L4Info },
    Arp { source_hw: Vec<u8>, target_hw: Vec<u8>, source_proto: Vec<u8> },
    Ipv6,
    Other,
}

/// Everything the diagnostics path reports of one frame.
#[derive(Debug, PartialEq, Eq)]
pub struct PacketInfo {
    pub eth_dst: Vec<u8>,
    pub eth_src: Vec<u8>,
    pub ethertype: u16,
    pub l3: L3Info,
}

/// The IPv4 payload: the bytes after the header, whose length the low
/// nibble of the first byte gives in 32-bit words. A header length that
/// is malformed (under 20) or runs past the packet leaves no payload.
pub open spec fn ipv4_payload(p: Seq<u8>) -> Seq<u8> {
    let h = (p[0] as int % 16) * 4;
    if 20 <= h <= p.len() {
        p.skip(h)
    } else {
        Seq::<u8>::empty()
    }
}

/// The transport summary a protocol and payload decode to: ports are the
/// two big-endian integers at the front of a TCP or UDP payload; anything
/// else, or a payload too short for them, carries no port information.
pub open spec fn l4_matches(l4: L4Info, protocol: u8, p: Seq<u8>) -> bool {
    match l4 {
        L4Info::Tcp { src_port, dst_port } => {
            &&& protocol == 6
            &&& p.len() >= 4
            &&& src_port == be16(p, 0)
            &&& dst_port == be16(p, 2)
        },
        L4Info::Udp { src_port, dst_port } => {
            &&& protocol == 17
            &&& p.len() >= 4
            &&& src_port == be16(p, 0)
            &&& dst_port == be16(p, 2)
        },
        L4Info::Other => !((protocol == 6 || protocol == 17) && p.len() >= 4),
    }
}

/// The network summary an ethertype and payload decode to. IPv4 and ARP
/// need their fixed headers to be present in full; anything shorter, and
/// any other ethertype, is reported as such and nothing more is read.
pub open spec fn l3_matches(l3: L3Info, ethertype: int, p: Seq<u8>) -> bool {
    match l3 {
        L3Info::Ipv4 { src, dst, protocol, l4 } => {
            &&& ethertype == 0x0800
            &&& p.len() >= 20
            &&& src@ == p.subrange(12, 16)
            &&& dst@ == p.subrange(16, 20)
            &&& protocol == p[9]
            &&& l4_matches(l4, protocol, ipv4_payload(p))
        },
        L3Info::Arp { source_hw, target_hw, source_proto } => {
            &&& ethertype == 0x0806
            &&& p.len() >= 28
            &&& source_hw@ == p.subrange(8, 14)
            &&& source_proto@ == p.subrange(14, 18)
            &&& target_hw@ == p.subrange(18, 24)
        },
        L3Info::Ipv6 => ethertype == 0x86DD,
        L3Info::Other => {
            &&& !(ethertype == 0x0800 && p.len() >= 20)
            &&& !(ethertype == 0x0806 && p.len() >= 28)
            &&& ethertype != 0x86DD
        },
    }
}

/// What a decoded summary says of the frame it came from: the Ethernet
/// addresses and ethertype at their fixed offsets, and the network
/// summary decoded from the ethertype and the frame's payload.
pub open spec fn packet_matches(info: PacketInfo, b: Seq<u8>) -> bool {
    &&& b.len() >= 14
    &&& info.eth_dst@ == b.subrange(0, 6)
    &&& info.eth_src@ == b.subrange(6, 12)
    &&& info.ethertype == be16(b, 12)
    &&& l3_matches(info.l3, info.ethertype as int, b.skip(14))
}

/// Copy of the byte range `i..j`.
fn copy_range(b: &[u8], i: usize, j: usize) -> (r: Vec<u8>)
    requires
        i <= j <= b@.len(),
    ensures
        r@ == b@.subrange(i as int, j as int),
{
    slice_to_vec(slice_subrange(b, i, j))
}

/// Read the big-endian 16-bit integer at offset `i`.
fn read_be16(b: &[u8], i: usize) -> (r: u16)
    requires
        i + 2 <= b@.len(),
    ensures
        r == be16(b@, i as int),
{
    let n = b.len();
    let hi = *slice_index_get(b, i);
    let lo = *slice_index_get(b, i + 1);
    (hi as u16) * 256 + (lo as u16)
}

/// Decode the transport header of an IPv4 payload.
fn parse_l4(protocol: u8, p: &[u8]) -> (r: L4Info)
    ensures
        l4_matches(r, protocol, p@),
{
    if (protocol == 6 || protocol == 17) && p.len() >= 4 {
        let src_port = read_be16(p, 0);
        let dst_port = read_be16(p, 2);
        if protocol == 6 {
            L4Info::Tcp { src_port, dst_port }
        } else {
            L4Info::Udp { src_port, dst_port }
        }
    } else {
        L4Info::Other
    }
}

/// Decode the IPv4 header of an Ethernet payload.
fn parse_ipv4(p: &[u8]) -> (r: L3Info)
    ensures
        p@.len() >= 20 ==> l3_matches(r, 0x0800, p@),
        p@.len() < 20 ==> r is Other,
{
    if p.len() < 20 {
        return L3Info::Other;
    }
    let src = copy_range(p, 12, 16);
    let dst = copy_range(p, 16, 20);
    let protocol = *slice_index_get(p, 9);
    let h: usize = ((*slice_index_get(p, 0) as usize) % 16) * 4;
    let l4_bytes: &[u8] = if 20 <= h && h <= p.len() {
        slice_subrange(p, h, p.len())
    } else {
        slice_subrange(p, 0, 0)
    };
    let l4 = parse_l4(protocol, l4_bytes);
    L3Info::Ipv4 { src, dst, protocol, l4 }
}

/// Decode the ARP header of an Ethernet payload.
fn parse_arp(p: &[u8]) -> (r: L3Info)
    ensures
        p@.len() >= 28 ==> l3_matches(r, 0x0806, p@),
        p@.len() < 28 ==> r is Other,
{
    if p.len() < 28 {
        return L3Info::Other;
    }
    let source_hw = copy_range(p, 8, 14);
    let source_proto = copy_range(p, 14, 18);
    let target_hw = copy_range(p, 18, 24);
    L3Info::Arp { source_hw, target_hw, source_proto }
}

/// Decode one frame's headers for logging. Yields a summary exactly when
/// the frame holds a whole Ethernet header; the deeper layers are decoded
/// as far as the frame reaches.
pub fn packet_info(buffer: &[u8]) -> (r: Option<PacketInfo>)
    ensures
        (r is Some) == (buffer@.len() >= 14),
        r matches Some(info) ==> packet_matches(info, buffer@),
{
    if buffer.len() < 14 {
        return None;
    }
    let eth_dst = copy_range(buffer, 0, 6);
    let eth_src = copy_range(buffer, 6, 12);
    let ethertype = read_be16(buffer, 12);
    let payload = slice_subrange(buffer, 14, buffer.len());
    let l3 = if ethertype == 0x0800 {
        parse_ipv4(payload)
    } else if ethertype == 0x0806 {
        parse_arp(payload)
    } else if ethertype == 0x86DD {
        L3Info::Ipv6
    } else {
        L3Info::Other
    };
    Some(PacketInfo { eth_dst, eth_src, ethertype, l3 })
}

} // verus!
