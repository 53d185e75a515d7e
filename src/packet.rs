//! Byte layout of the Ethernet and IPv4 headers, and bounded reads from a frame.
use vstd::prelude::*;

verus! {

/// Length of an Ethernet header.
pub const ETH_HDR_LEN: usize = 14;

/// Offset of the EtherType field in an Ethernet header.
pub const ETHER_TYPE_OFFSET: usize = 12;

/// EtherType of IPv4, as it reads in network byte order.
pub const ETHER_TYPE_IPV4: u16 = 0x0800;

/// Length of an IPv4 header without options.
pub const IPV4_HDR_LEN: usize = 20;

/// Offset in the IPv4 header of the group that holds the source and destination addresses.
pub const IPV4_ADDRS_OFFSET: usize = 12;

/// Offset of the destination address within that group.
pub const ADDRS_DADDR_OFFSET: usize = 4;

/// Offset of the destination address in the IPv4 header.
pub const IPV4_DADDR_OFFSET: usize = IPV4_ADDRS_OFFSET + ADDRS_DADDR_OFFSET;

/// The big-endian 16-bit value at `off` in `s`.
pub open spec fn be_u16_at(s: Seq<u8>, off: int) -> u16 {
    (s[off] as nat * 256 + s[off + 1] as nat) as u16
}

/// The big-endian 32-bit value at `off` in `s`, in host order.
pub open spec fn be_u32_at(s: Seq<u8>, off: int) -> u32 {
    (s[off] as nat * 16777216 + s[off + 1] as nat * 65536 + s[off + 2] as nat * 256
        + s[off + 3] as nat) as u32
}

/// Reads a big-endian `u16` at `offset`; `None` when it does not lie inside `data`.
pub fn load_be_u16(data: &[u8], offset: usize) -> (r: Option<u16>)
    ensures
        r == (if offset + 2 <= data@.len() {
            Some(be_u16_at(data@, offset as int))
        } else {
            None
        }),
{
    if offset > data.len() || data.len() - offset < 2 {
        return None;
    }
    Some(data[offset] as u16 * 256 + data[offset + 1] as u16)
}

/// Reads a big-endian `u32` at `offset`, converted to host order; `None` when it does
/// not lie inside `data`.
pub fn load_be_u32(data: &[u8], offset: usize) -> (r: Option<u32>)
    ensures
        r == (if offset + 4 <= data@.len() {
            Some(be_u32_at(data@, offset as int))
        } else {
            None
        }),
{
    if offset > data.len() || data.len() - offset < 4 {
        return None;
    }
    Some(
        data[offset] as u32 * 16777216 + data[offset + 1] as u32 * 65536 + data[offset + 2] as u32
            * 256 + data[offset + 3] as u32,
    )
}

/// What an Ethernet frame is, as far as the egress and ingress hooks look.
#[derive(Debug, Clone, Copy, PartialEq, Eq, Structural)]
pub enum FrameClass {
    /// A header that the hook reads does not fit in the frame.
    Truncated,
    /// The frame does not carry IPv4.
    OtherProtocol,
    /// An IPv4 packet to `destination` (host order).
    Ipv4 { destination: u32 },
}

/// The class of `s`: the Ethernet header is read at offset 0, then, for IPv4, the
/// IPv4 header right after it.
pub open spec fn frame_class(s: Seq<u8>) -> FrameClass {
    if s.len() < ETH_HDR_LEN {
        FrameClass::Truncated
    } else if be_u16_at(s, ETHER_TYPE_OFFSET as int) != ETHER_TYPE_IPV4 {
        FrameClass::OtherProtocol
    } else if s.len() < ETH_HDR_LEN + IPV4_HDR_LEN {
        FrameClass::Truncated
    } else {
        FrameClass::Ipv4 { destination: be_u32_at(s, ETH_HDR_LEN + IPV4_DADDR_OFFSET) }
    }
}

/// Classifies an Ethernet frame.
pub fn classify_frame(frame: &[u8]) -> (r: FrameClass)
    ensures
        r == frame_class(frame@),
{
    if frame.len() < ETH_HDR_LEN {
        return FrameClass::Truncated;
    }
    match load_be_u16(frame, ETHER_TYPE_OFFSET) {
        Some(t) if t == ETHER_TYPE_IPV4 => {},
        _ => return FrameClass::OtherProtocol,
    }
    if frame.len() < ETH_HDR_LEN + IPV4_HDR_LEN {
        return FrameClass::Truncated;
    }
    match load_be_u32(frame, ETH_HDR_LEN + IPV4_DADDR_OFFSET) {
        Some(d) => FrameClass::Ipv4 { destination: d },
        None => FrameClass::Truncated,
    }
}

} // verus!
