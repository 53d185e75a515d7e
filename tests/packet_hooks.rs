use simple_program::addr::{format_ipv4, ipv4};
use simple_program::hooks::{
    cgroup_skb_egress, classify_cgroup_egress, classify_device_egress, tc_egress, xdp_firewall,
    CGROUP_SKB_DENY, CGROUP_SKB_PERMIT, SKB_PROTOCOL_IPV4, TC_ACT_PIPE, TC_ACT_SHOT, XDP_DROP,
    XDP_PASS,
};
use simple_program::packet::{classify_frame, load_be_u16, load_be_u32, FrameClass};
use simple_program::policy::PolicyStore;
use simple_program::record::{FailurePolicy, PacketLog, Verdict};

fn store_with(addrs: &[u32]) -> PolicyStore {
    PolicyStore::from_addresses(addrs).unwrap()
}

fn ipv4_header(dst: [u8; 4]) -> Vec<u8> {
    let mut h = vec![0x45, 0, 0, 20, 0, 0, 0, 0, 64, 6, 0, 0, 10, 0, 0, 5];
    h.extend_from_slice(&dst);
    h
}

fn frame(ether_type: u16, dst: [u8; 4]) -> Vec<u8> {
    let mut f = vec![0u8; 12];
    f.push((ether_type >> 8) as u8);
    f.push((ether_type & 0xff) as u8);
    f.extend(ipv4_header(dst));
    f
}

#[test]
fn scenario_blocked_destination_is_denied() {
    let store = store_with(&[ipv4(1, 1, 1, 1)]);
    let d = tc_egress(&store, &frame(0x0800, [1, 1, 1, 1]));
    assert_eq!(d.verdict, Verdict::Deny);
    assert_eq!(d.code, TC_ACT_SHOT);
    let rec = d.record.unwrap();
    assert_eq!(rec, PacketLog { ipv4_address: ipv4(1, 1, 1, 1), action: Verdict::Deny });
    assert_eq!(rec.device_log_line(), "DEST 1.1.1.1, ACTION 0");
}

#[test]
fn scenario_allowed_destination_is_permitted() {
    let store = store_with(&[ipv4(1, 1, 1, 1)]);
    let d = tc_egress(&store, &frame(0x0800, [8, 8, 8, 8]));
    assert_eq!(d.verdict, Verdict::Permit);
    assert_eq!(d.code, TC_ACT_PIPE);
    let rec = d.record.unwrap();
    assert_eq!(rec.ipv4_address, ipv4(8, 8, 8, 8));
    assert_eq!(rec.device_log_line(), "DEST 8.8.8.8, ACTION 1");
}

#[test]
fn non_ipv4_frame_passes_whatever_the_blocklist() {
    let f = frame(0x86DD, [1, 1, 1, 1]);
    let empty = PolicyStore::new(4);
    let full = store_with(&[ipv4(1, 1, 1, 1)]);
    for store in [&empty, &full] {
        let d = tc_egress(store, &f);
        assert_eq!(d.verdict, Verdict::Permit);
        assert_eq!(d.code, TC_ACT_PIPE);
        assert_eq!(d.record, None);
        assert_eq!(xdp_firewall(store, &f), XDP_PASS);
    }
    let arp = frame(0x0806, [1, 1, 1, 1]);
    assert_eq!(tc_egress(&full, &arp).code, TC_ACT_PIPE);
}

#[test]
fn truncated_frames_pass_through_device_egress() {
    let store = store_with(&[ipv4(1, 1, 1, 1)]);
    let full = frame(0x0800, [1, 1, 1, 1]);
    for len in [0usize, 5, 13, 14, 20, 33] {
        let d = tc_egress(&store, &full[..len]);
        assert_eq!(d.verdict, Verdict::Permit, "length {}", len);
        assert_eq!(d.code, TC_ACT_PIPE);
        assert_eq!(d.record, None);
    }
    assert_eq!(tc_egress(&store, &full[..34]).code, TC_ACT_SHOT);
}

#[test]
fn device_egress_fail_closed_drops_truncated() {
    let store = PolicyStore::new(4);
    let d = classify_device_egress(&store, &[0u8; 10], FailurePolicy::FailClosed);
    assert_eq!(d.verdict, Verdict::Deny);
    assert_eq!(d.code, TC_ACT_SHOT);
    assert_eq!(d.record, None);
}

#[test]
fn ingress_drops_blocked_and_fails_open() {
    let store = store_with(&[ipv4(1, 1, 1, 1)]);
    assert_eq!(xdp_firewall(&store, &frame(0x0800, [1, 1, 1, 1])), XDP_DROP);
    assert_eq!(xdp_firewall(&store, &frame(0x0800, [8, 8, 8, 8])), XDP_PASS);
    assert_eq!(xdp_firewall(&store, &[0u8; 3]), XDP_PASS);
}

#[test]
fn cgroup_egress_verdicts_and_records() {
    let store = store_with(&[ipv4(1, 1, 1, 1)]);
    let blocked = cgroup_skb_egress(&store, SKB_PROTOCOL_IPV4, &ipv4_header([1, 1, 1, 1]));
    assert_eq!(blocked.code, CGROUP_SKB_DENY);
    assert_eq!(blocked.record, Some(PacketLog { ipv4_address: 0x0101_0101, action: Verdict::Deny }));
    let allowed = cgroup_skb_egress(&store, SKB_PROTOCOL_IPV4, &ipv4_header([93, 184, 216, 34]));
    assert_eq!(allowed.code, CGROUP_SKB_PERMIT);
    assert_eq!(
        allowed.record,
        Some(PacketLog { ipv4_address: ipv4(93, 184, 216, 34), action: Verdict::Permit })
    );
}

#[test]
fn cgroup_egress_non_ipv4_permits_without_record() {
    let store = store_with(&[ipv4(1, 1, 1, 1)]);
    let d = cgroup_skb_egress(&store, 0xDD86, &ipv4_header([1, 1, 1, 1]));
    assert_eq!(d.code, CGROUP_SKB_PERMIT);
    assert_eq!(d.record, None);
}

#[test]
fn cgroup_egress_fails_closed_on_short_packet() {
    let store = PolicyStore::new(4);
    let d = cgroup_skb_egress(&store, SKB_PROTOCOL_IPV4, &[0x45, 0, 0, 20]);
    assert_eq!(d.verdict, Verdict::Deny);
    assert_eq!(d.code, CGROUP_SKB_DENY);
    assert_eq!(d.record, None);
    let open = classify_cgroup_egress(&store, SKB_PROTOCOL_IPV4, &[0u8; 19], FailurePolicy::FailOpen);
    assert_eq!(open.code, CGROUP_SKB_PERMIT);
}

#[test]
fn frame_classes_and_loads() {
    assert_eq!(classify_frame(&frame(0x0800, [93, 184, 216, 34])), FrameClass::Ipv4 { destination: 0x5DB8_D822 });
    assert_eq!(classify_frame(&frame(0x0806, [0, 0, 0, 0])), FrameClass::OtherProtocol);
    assert_eq!(classify_frame(&[0u8; 13]), FrameClass::Truncated);
    assert_eq!(load_be_u16(&[0x12, 0x34], 0), Some(0x1234));
    assert_eq!(load_be_u16(&[0x12, 0x34], 1), None);
    assert_eq!(load_be_u32(&[0, 0x12, 0x34, 0x56, 0x78], 1), Some(0x1234_5678));
    assert_eq!(load_be_u32(&[0x12, 0x34, 0x56], 0), None);
    assert_eq!(load_be_u32(&[0x12, 0x34, 0x56], usize::MAX), None);
}

#[test]
fn dotted_quad_text() {
    assert_eq!(format_ipv4(ipv4(1, 1, 1, 1)), "1.1.1.1");
    assert_eq!(format_ipv4(ipv4(93, 184, 216, 34)), "93.184.216.34");
    assert_eq!(format_ipv4(0), "0.0.0.0");
    assert_eq!(format_ipv4(u32::MAX), "255.255.255.255");
    assert_eq!(format_ipv4(ipv4(10, 0, 100, 9)), "10.0.100.9");
}
