//! The interception points as one family: what each is called, which blocklist it
//! reads, what it does on unreadable input, and the order the control plane attaches
//! them in.
use crate::addr::{ipv4, ipv4_of};
use crate::hooks::{CGROUP_SKB_DENY, TC_ACT_PIPE, XDP_PASS};
use crate::probe::{PROBE_CONTINUE, TASK_ALLOW};
use crate::record::FailurePolicy;
use vstd::prelude::*;

verus! {

/// An interception point.
#[derive(Debug, Clone, Copy, PartialEq, Eq, Structural)]
pub enum HookKind {
    /// Earliest receive-path filter of an interface.
    Ingress,
    /// Egress classifier of an interface.
    DeviceEgress,
    /// Egress classifier of the sockets of a control group.
    CgroupEgress,
    /// Probe on outbound TCP connection establishment.
    ConnectProbe,
    /// Guard on task allocation.
    TaskGuard,
}

/// The program name of a hook.
pub open spec fn program_name_text(k: HookKind) -> Seq<char> {
    match k {
        HookKind::Ingress => "xdp_firewall"@,
        HookKind::DeviceEgress => "tc_egress"@,
        HookKind::CgroupEgress => "cgroup_skb_egress"@,
        HookKind::ConnectProbe => "tcp_connect"@,
        HookKind::TaskGuard => "task_alloc"@,
    }
}

/// The blocklist table a hook reads, if it reads one.
pub open spec fn blocklist_text(k: HookKind) -> Option<Seq<char>> {
    match k {
        HookKind::Ingress => Some("XDPBLOCKLIST"@),
        HookKind::DeviceEgress => Some("TC_BLOCK_LIST"@),
        HookKind::CgroupEgress => Some("CGROUPBLOCKLIST"@),
        _ => None,
    }
}

/// What a hook decides when its input cannot be read; the observers decide nothing.
pub open spec fn failure_policy_of(k: HookKind) -> Option<FailurePolicy> {
    match k {
        HookKind::Ingress => Some(FailurePolicy::FailOpen),
        HookKind::DeviceEgress => Some(FailurePolicy::FailOpen),
        HookKind::CgroupEgress => Some(FailurePolicy::FailClosed),
        _ => None,
    }
}

impl HookKind {
    /// The name of the hook's program.
    pub fn program_name(&self) -> (r: &'static str)
        ensures
            r@ == program_name_text(*self),
    {
        match self {
            HookKind::Ingress => "xdp_firewall",
            HookKind::DeviceEgress => "tc_egress",
            HookKind::CgroupEgress => "cgroup_skb_egress",
            HookKind::ConnectProbe => "tcp_connect",
            HookKind::TaskGuard => "task_alloc",
        }
    }

    /// The name of the blocklist table the hook reads, if any.
    pub fn blocklist_map(&self) -> (r: Option<&'static str>)
        ensures
            match r {
                Some(s) => blocklist_text(*self) == Some(s@),
                None => blocklist_text(*self) is None,
            },
    {
        match self {
            HookKind::Ingress => Some("XDPBLOCKLIST"),
            HookKind::DeviceEgress => Some("TC_BLOCK_LIST"),
            HookKind::CgroupEgress => Some("CGROUPBLOCKLIST"),
            _ => None,
        }
    }

    /// The hook's policy on unreadable input, if it decides anything.
    pub fn failure_policy(&self) -> (r: Option<FailurePolicy>)
        ensures
            r == failure_policy_of(*self),
    {
        match self {
            HookKind::Ingress => Some(FailurePolicy::FailOpen),
            HookKind::DeviceEgress => Some(FailurePolicy::FailOpen),
            HookKind::CgroupEgress => Some(FailurePolicy::FailClosed),
            _ => None,
        }
    }

    /// Whether the hook reports telemetry records on the event channel.
    pub fn emits_records(&self) -> (r: bool)
        ensures
            r == (*self == HookKind::CgroupEgress),
    {
        match self {
            HookKind::CgroupEgress => true,
            _ => false,
        }
    }
}

/// The code a hook hands back when it cannot finish its work: the code of its
/// failure policy for the packet hooks, and the permissive code of the observers.
pub open spec fn fallback_code(k: HookKind) -> i64 {
    match k {
        HookKind::Ingress => XDP_PASS as i64,
        HookKind::DeviceEgress => TC_ACT_PIPE as i64,
        HookKind::CgroupEgress => CGROUP_SKB_DENY as i64,
        HookKind::ConnectProbe => PROBE_CONTINUE as i64,
        HookKind::TaskGuard => TASK_ALLOW as i64,
    }
}

/// What a hook returns on a fault it cannot recover from. Hooks never crash: a fault
/// ends in this code, as if the input had been unreadable.
pub fn panic(kind: HookKind) -> (r: i64)
    ensures
        r == fallback_code(kind),
{
    match kind {
        HookKind::Ingress => XDP_PASS as i64,
        HookKind::DeviceEgress => TC_ACT_PIPE as i64,
        HookKind::CgroupEgress => CGROUP_SKB_DENY as i64,
        HookKind::ConnectProbe => PROBE_CONTINUE as i64,
        HookKind::TaskGuard => TASK_ALLOW as i64,
    }
}

/// Where a hook is bound in the kernel.
#[derive(Debug, Clone, PartialEq, Eq)]
pub enum Attachment {
    /// Generic receive path of a network interface.
    InterfaceIngress { iface: String },
    /// Queueing-discipline egress of a network interface.
    InterfaceEgress { iface: String },
    /// Egress of the sockets of the control group mounted at `path`, one program at a time.
    CgroupEgress { path: String },
    /// Entry of a kernel function.
    KernelFunction { symbol: String },
    /// A security-module hook.
    SecurityHook { hook: String },
}

/// The attachment of `kind`, given the interface and the control-group path.
pub fn attachment(kind: HookKind, iface: &str, cgroup_path: &str) -> (r: Attachment)
    ensures
        match (kind, r) {
            (HookKind::Ingress, Attachment::InterfaceIngress { iface: i }) => i@ == iface@,
            (HookKind::DeviceEgress, Attachment::InterfaceEgress { iface: i }) => i@ == iface@,
            (HookKind::CgroupEgress, Attachment::CgroupEgress { path }) => path@ == cgroup_path@,
            (HookKind::ConnectProbe, Attachment::KernelFunction { symbol }) => symbol@
                == program_name_text(kind),
            (HookKind::TaskGuard, Attachment::SecurityHook { hook }) => hook@ == program_name_text(
                kind,
            ),
            _ => false,
        },
{
    match kind {
        HookKind::Ingress => Attachment::InterfaceIngress { iface: String::from_str(iface) },
        HookKind::DeviceEgress => Attachment::InterfaceEgress { iface: String::from_str(iface) },
        HookKind::CgroupEgress => Attachment::CgroupEgress { path: String::from_str(cgroup_path) },
        HookKind::ConnectProbe => Attachment::KernelFunction {
            symbol: String::from_str(kind.program_name()),
        },
        HookKind::TaskGuard => Attachment::SecurityHook {
            hook: String::from_str(kind.program_name()),
        },
    }
}

/// The order in which the control plane attaches the hooks.
pub open spec fn attach_order_spec() -> Seq<HookKind> {
    seq![
        HookKind::Ingress,
        HookKind::DeviceEgress,
        HookKind::ConnectProbe,
        HookKind::TaskGuard,
        HookKind::CgroupEgress,
    ]
}

/// The hooks, in the order the control plane attaches them.
pub fn attach_order() -> (r: Vec<HookKind>)
    ensures
        r@ == attach_order_spec(),
{
    let r = vec![
        HookKind::Ingress,
        HookKind::DeviceEgress,
        HookKind::ConnectProbe,
        HookKind::TaskGuard,
        HookKind::CgroupEgress,
    ];
    assert(r@ =~= attach_order_spec());
    r
}

/// The addresses every blocklist is seeded with: 1.1.1.1.
pub fn initial_blocklist() -> (r: Vec<u32>)
    ensures
        r@ == seq![ipv4_of(1, 1, 1, 1)],
{
    let r = vec![ipv4(1, 1, 1, 1)];
    assert(r@ =~= seq![ipv4_of(1, 1, 1, 1)]);
    r
}

} // verus!
