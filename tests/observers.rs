use simple_program::addr::ipv4;
use simple_program::hooks::{CGROUP_SKB_DENY, TC_ACT_PIPE, XDP_PASS};
use simple_program::plan::{attach_order, attachment, initial_blocklist, Attachment, HookKind};
use simple_program::probe::{
    task_alloc, tcp_connect, ConnectEvent, SockCommon, AF_INET, AF_INET6, PROBE_CONTINUE,
    TASK_ALLOW,
};
use simple_program::record::FailurePolicy;

fn sock(family: u16) -> SockCommon {
    let mut v6_src = [0u8; 16];
    v6_src[0] = 0x20;
    v6_src[1] = 0x01;
    v6_src[2] = 0x0d;
    v6_src[3] = 0xb8;
    v6_src[15] = 1;
    let mut v6_dst = [0u8; 16];
    v6_dst[0] = 0xfe;
    v6_dst[1] = 0x80;
    v6_dst[14] = 0xab;
    v6_dst[15] = 0xcd;
    SockCommon {
        family,
        rcv_saddr: [10, 0, 0, 5],
        daddr: [93, 184, 216, 34],
        v6_rcv_saddr: v6_src,
        v6_daddr: v6_dst,
    }
}

#[test]
fn scenario_ipv4_connection_is_logged() {
    let s = sock(AF_INET);
    let out = tcp_connect(Some(&s));
    assert_eq!(out.code, PROBE_CONTINUE);
    assert_eq!(out.event, ConnectEvent::Ipv4 { src: ipv4(10, 0, 0, 5), dst: ipv4(93, 184, 216, 34) });
    let line = out.event.log_line().unwrap();
    assert_eq!(line, "AF_INET src address: 10.0.0.5, dest address: 93.184.216.34");
    assert!(line.contains("10.0.0.5") && line.contains("93.184.216.34"));
}

#[test]
fn ipv6_connection_is_logged() {
    let s = sock(AF_INET6);
    let out = tcp_connect(Some(&s));
    assert_eq!(out.code, PROBE_CONTINUE);
    assert_eq!(
        out.event.log_line().unwrap(),
        "AF_INET6 src addr: 2001:db8:0:0:0:0:0:1, dest addr: fe80:0:0:0:0:0:0:abcd"
    );
}

#[test]
fn other_family_and_failed_read_are_ignored() {
    let out = tcp_connect(Some(&sock(1)));
    assert_eq!(out.code, PROBE_CONTINUE);
    assert_eq!(out.event, ConnectEvent::Ignored);
    assert_eq!(out.event.log_line(), None);
    let none = tcp_connect(None);
    assert_eq!(none.code, PROBE_CONTINUE);
    assert_eq!(none.event, ConnectEvent::Ignored);
}

#[test]
fn task_guard_allows_everything() {
    assert_eq!(task_alloc(0), TASK_ALLOW);
    assert_eq!(task_alloc(u64::MAX), TASK_ALLOW);
}

#[test]
fn hook_descriptions() {
    let order = attach_order();
    assert_eq!(order.len(), 5);
    assert_eq!(order[0], HookKind::Ingress);
    assert_eq!(order[4], HookKind::CgroupEgress);
    assert_eq!(HookKind::DeviceEgress.program_name(), "tc_egress");
    assert_eq!(HookKind::CgroupEgress.blocklist_map(), Some("CGROUPBLOCKLIST"));
    assert_eq!(HookKind::ConnectProbe.blocklist_map(), None);
    assert_eq!(HookKind::CgroupEgress.failure_policy(), Some(FailurePolicy::FailClosed));
    assert_eq!(HookKind::Ingress.failure_policy(), Some(FailurePolicy::FailOpen));
    assert_eq!(HookKind::TaskGuard.failure_policy(), None);
    assert!(HookKind::CgroupEgress.emits_records());
    assert!(!HookKind::DeviceEgress.emits_records());
    assert_eq!(initial_blocklist(), vec![ipv4(1, 1, 1, 1)]);
}

#[test]
fn fallback_codes() {
    assert_eq!(simple_program::plan::panic(HookKind::Ingress), XDP_PASS as i64);
    assert_eq!(simple_program::plan::panic(HookKind::DeviceEgress), TC_ACT_PIPE as i64);
    assert_eq!(simple_program::plan::panic(HookKind::CgroupEgress), CGROUP_SKB_DENY as i64);
    assert_eq!(simple_program::plan::panic(HookKind::ConnectProbe), 0);
}

#[test]
fn attachments_follow_options() {
    assert_eq!(
        attachment(HookKind::Ingress, "eth1", "/cg"),
        Attachment::InterfaceIngress { iface: "eth1".to_string() }
    );
    assert_eq!(
        attachment(HookKind::DeviceEgress, "eth1", "/cg"),
        Attachment::InterfaceEgress { iface: "eth1".to_string() }
    );
    assert_eq!(
        attachment(HookKind::CgroupEgress, "eth1", "/cg"),
        Attachment::CgroupEgress { path: "/cg".to_string() }
    );
    assert_eq!(
        attachment(HookKind::ConnectProbe, "eth1", "/cg"),
        Attachment::KernelFunction { symbol: "tcp_connect".to_string() }
    );
    assert_eq!(
        attachment(HookKind::TaskGuard, "eth1", "/cg"),
        Attachment::SecurityHook { hook: "task_alloc".to_string() }
    );
}
