//! The packet hooks: ingress filter, device egress classifier and cgroup egress
//! classifier. Each reads its headers, looks the destination up in a blocklist,
//! and maps the verdict onto the return code its attachment point expects.
use crate::packet::{
    be_u16_at, be_u32_at, classify_frame, frame_class, load_be_u32, FrameClass, ETHER_TYPE_IPV4,
    ETHER_TYPE_OFFSET, ETH_HDR_LEN, IPV4_DADDR_OFFSET, IPV4_HDR_LEN,
};
use crate::policy::PolicyStore;
use crate::record::{policy_verdict, FailurePolicy, PacketLog, Verdict};
use vstd::prelude::*;

verus! {

/// Ingress return code that drops the packet.
pub const XDP_DROP: u32 = 1;

/// Ingress return code that hands the packet on to the network stack.
pub const XDP_PASS: u32 = 2;

/// Traffic-control return code that drops the packet.
pub const TC_ACT_SHOT: i32 = 2;

/// Traffic-control return code that lets the packet go on.
pub const TC_ACT_PIPE: i32 = 3;

/// Cgroup socket-buffer return code that denies the packet.
pub const CGROUP_SKB_DENY: i32 = 0;

/// Cgroup socket-buffer return code that permits the packet.
pub const CGROUP_SKB_PERMIT: i32 = 1;

/// The socket buffer's protocol field for IPv4. The field holds the EtherType in
/// network byte order; read as a little-endian integer, 0x0800 is 8.
pub const SKB_PROTOCOL_IPV4: u32 = 8;

/// A verdict with its return code, and the telemetry record the hook reports, if any.
#[derive(Debug, Clone, Copy, PartialEq, Eq, Structural)]
pub struct Decision {
    pub verdict: Verdict,
    pub code: i32,
    pub record: Option<PacketLog>,
}

pub open spec fn xdp_code(v: Verdict) -> u32 {
    if v == Verdict::Deny { XDP_DROP } else { XDP_PASS }
}

pub open spec fn tc_code(v: Verdict) -> i32 {
    if v == Verdict::Deny { TC_ACT_SHOT } else { TC_ACT_PIPE }
}

pub open spec fn cgroup_code(v: Verdict) -> i32 {
    if v == Verdict::Deny { CGROUP_SKB_DENY } else { CGROUP_SKB_PERMIT }
}

/// What the ingress filter returns for `frame`.
pub open spec fn ingress_result(blocklist: Map<u32, u32>, frame: Seq<u8>) -> u32 {
    match frame_class(frame) {
        FrameClass::Ipv4 { destination } => xdp_code(policy_verdict(blocklist, destination)),
        _ => XDP_PASS,
    }
}

/// What the device egress classifier decides for `frame`.
pub open spec fn device_egress_result(
    blocklist: Map<u32, u32>,
    frame: Seq<u8>,
    on_error: FailurePolicy,
) -> Decision {
    match frame_class(frame) {
        FrameClass::Truncated => Decision {
            verdict: on_error.spec_verdict(),
            code: tc_code(on_error.spec_verdict()),
            record: None,
        },
        FrameClass::OtherProtocol => Decision {
            verdict: Verdict::Permit,
            code: TC_ACT_PIPE,
            record: None,
        },
        FrameClass::Ipv4 { destination } => {
            let v = policy_verdict(blocklist, destination);
            Decision {
                verdict: v,
                code: tc_code(v),
                record: Some(PacketLog { ipv4_address: destination, action: v }),
            }
        },
    }
}

/// What the cgroup egress classifier decides for a packet whose IP header starts
/// `packet`, on a socket buffer with the given protocol field.
pub open spec fn cgroup_egress_result(
    blocklist: Map<u32, u32>,
    protocol: u32,
    packet: Seq<u8>,
    on_error: FailurePolicy,
) -> Decision {
    if protocol != SKB_PROTOCOL_IPV4 {
        Decision { verdict: Verdict::Permit, code: CGROUP_SKB_PERMIT, record: None }
    } else if packet.len() < IPV4_DADDR_OFFSET + 4 {
        Decision {
            verdict: on_error.spec_verdict(),
            code: cgroup_code(on_error.spec_verdict()),
            record: None,
        }
    } else {
        let d = be_u32_at(packet, IPV4_DADDR_OFFSET as int);
        let v = policy_verdict(blocklist, d);
        Decision {
            verdict: v,
            code: cgroup_code(v),
            record: Some(PacketLog { ipv4_address: d, action: v }),
        }
    }
}

/// The ingress filter on a received Ethernet frame: drops IPv4 packets to a blocked
/// destination and passes everything else, frames too short to read included.
pub fn xdp_firewall(blocklist: &PolicyStore, frame: &[u8]) -> (r: u32)
    ensures
        r == ingress_result(blocklist@, frame@),
{
    match classify_frame(frame) {
        FrameClass::Ipv4 { destination } => {
            if blocklist.lookup(destination) {
                XDP_DROP
            } else {
                XDP_PASS
            }
        },
        _ => XDP_PASS,
    }
}

/// The device egress classifier with an explicit policy for unreadable headers.
pub fn classify_device_egress(
    blocklist: &PolicyStore,
    frame: &[u8],
    on_error: FailurePolicy,
) -> (r: Decision)
    ensures
        r == device_egress_result(blocklist@, frame@, on_error),
{
    match classify_frame(frame) {
        FrameClass::Truncated => {
            let v = on_error.verdict();
            let code = match v {
                Verdict::Deny => TC_ACT_SHOT,
                Verdict::Permit => TC_ACT_PIPE,
            };
            Decision { verdict: v, code, record: None }
        },
        FrameClass::OtherProtocol => Decision {
            verdict: Verdict::Permit,
            code: TC_ACT_PIPE,
            record: None,
        },
        FrameClass::Ipv4 { destination } => {
            let (v, code) = if blocklist.lookup(destination) {
                (Verdict::Deny, TC_ACT_SHOT)
            } else {
                (Verdict::Permit, TC_ACT_PIPE)
            };
            Decision {
                verdict: v,
                code,
                record: Some(PacketLog { ipv4_address: destination, action: v }),
            }
        },
    }
}

/// The device egress classifier on an outgoing Ethernet frame. A frame whose
/// headers cannot be read is let through.
pub fn tc_egress(blocklist: &PolicyStore, frame: &[u8]) -> (r: Decision)
    ensures
        r == device_egress_result(blocklist@, frame@, FailurePolicy::FailOpen),
{
    classify_device_egress(blocklist, frame, FailurePolicy::FailOpen)
}

/// The cgroup egress classifier with an explicit policy for unreadable headers.
pub fn classify_cgroup_egress(
    blocklist: &PolicyStore,
    protocol: u32,
    packet: &[u8],
    on_error: FailurePolicy,
) -> (r: Decision)
    ensures
        r == cgroup_egress_result(blocklist@, protocol, packet@, on_error),
{
    if protocol != SKB_PROTOCOL_IPV4 {
        return Decision { verdict: Verdict::Permit, code: CGROUP_SKB_PERMIT, record: None };
    }
    match load_be_u32(packet, IPV4_DADDR_OFFSET) {
        None => {
            let v = on_error.verdict();
            let code = match v {
                Verdict::Deny => CGROUP_SKB_DENY,
                Verdict::Permit => CGROUP_SKB_PERMIT,
            };
            Decision { verdict: v, code, record: None }
        },
        Some(d) => {
            let (v, code) = if blocklist.lookup(d) {
                (Verdict::Deny, CGROUP_SKB_DENY)
            } else {
                (Verdict::Permit, CGROUP_SKB_PERMIT)
            };
            Decision { verdict: v, code, record: Some(PacketLog { ipv4_address: d, action: v }) }
        },
    }
}

/// The cgroup egress classifier on an outgoing packet. A packet whose destination
/// cannot be read is denied.
pub fn cgroup_skb_egress(blocklist: &PolicyStore, protocol: u32, packet: &[u8]) -> (r: Decision)
    ensures
        r == cgroup_egress_result(blocklist@, protocol, packet@, FailurePolicy::FailClosed),
{
    classify_cgroup_egress(blocklist, protocol, packet, FailurePolicy::FailClosed)
}

/// On a well-formed Ethernet and IPv4 frame to `d`, the device egress classifier
/// denies exactly when `d` is blocked, and reports the record `(d, verdict)`.
pub proof fn lemma_device_egress_determinism(
    blocklist: Map<u32, u32>,
    frame: Seq<u8>,
    on_error: FailurePolicy,
    d: u32,
)
    requires
        frame_class(frame) == (FrameClass::Ipv4 { destination: d }),
    ensures
        ({
            let r = device_egress_result(blocklist, frame, on_error);
            let v = if blocklist.contains_key(d) { Verdict::Deny } else { Verdict::Permit };
            &&& r.verdict == v
            &&& r.code == (if blocklist.contains_key(d) { TC_ACT_SHOT } else { TC_ACT_PIPE })
            &&& r.record == Some(PacketLog { ipv4_address: d, action: v })
        }),
{
}

/// On an IPv4 packet to `d` that is long enough to read, the cgroup egress classifier
/// denies exactly when `d` is blocked, and reports the record `(d, verdict)`.
pub proof fn lemma_cgroup_egress_determinism(
    blocklist: Map<u32, u32>,
    packet: Seq<u8>,
    on_error: FailurePolicy,
)
    requires
        packet.len() >= IPV4_DADDR_OFFSET + 4,
    ensures
        ({
            let d = be_u32_at(packet, IPV4_DADDR_OFFSET as int);
            let r = cgroup_egress_result(blocklist, SKB_PROTOCOL_IPV4, packet, on_error);
            let v = if blocklist.contains_key(d) { Verdict::Deny } else { Verdict::Permit };
            &&& r.verdict == v
            &&& r.code == (if blocklist.contains_key(d) { CGROUP_SKB_DENY } else { CGROUP_SKB_PERMIT })
            &&& r.record == Some(PacketLog { ipv4_address: d, action: v })
        }),
{
}

/// A frame that does not carry IPv4 is permitted by every packet hook, with no
/// record, whatever the blocklist holds: the result is the same for any two
/// blocklists.
pub proof fn lemma_non_ipv4_short_circuit(
    a: Map<u32, u32>,
    b: Map<u32, u32>,
    frame: Seq<u8>,
    protocol: u32,
    packet: Seq<u8>,
    on_error: FailurePolicy,
)
    ensures
        frame_class(frame) == FrameClass::OtherProtocol ==> {
            &&& device_egress_result(a, frame, on_error) == device_egress_result(b, frame, on_error)
            &&& device_egress_result(a, frame, on_error) == (Decision {
                verdict: Verdict::Permit,
                code: TC_ACT_PIPE,
                record: None,
            })
            &&& ingress_result(a, frame) == ingress_result(b, frame)
            &&& ingress_result(a, frame) == XDP_PASS
        },
        protocol != SKB_PROTOCOL_IPV4 ==> {
            &&& cgroup_egress_result(a, protocol, packet, on_error) == cgroup_egress_result(
                b,
                protocol,
                packet,
                on_error,
            )
            &&& cgroup_egress_result(a, protocol, packet, on_error) == (Decision {
                verdict: Verdict::Permit,
                code: CGROUP_SKB_PERMIT,
                record: None,
            })
        },
{
}

/// A frame too short for the headers the device egress classifier reads (an Ethernet
/// header, and for IPv4 an IPv4 header after it) gets the pass-through code, with no
/// record, whatever the blocklist holds.
pub proof fn lemma_device_egress_truncated(blocklist: Map<u32, u32>, frame: Seq<u8>)
    requires
        frame.len() < ETH_HDR_LEN || (frame.len() < ETH_HDR_LEN + IPV4_HDR_LEN && be_u16_at(
            frame,
            ETHER_TYPE_OFFSET as int,
        ) == ETHER_TYPE_IPV4),
    ensures
        device_egress_result(blocklist, frame, FailurePolicy::FailOpen) == (Decision {
            verdict: Verdict::Permit,
            code: TC_ACT_PIPE,
            record: None,
        }),
{
}

} // verus!
