//! Verdicts and the telemetry record that hooks report.
use crate::addr::{dotted_quad, push_ipv4};
use vstd::prelude::*;

verus! {

/// The decision a hook takes on a packet.
#[derive(Debug, Clone, Copy, PartialEq, Eq, Structural)]
pub enum Verdict {
    Permit,
    Deny,
}

/// What a hook decides when it cannot read the headers it needs.
#[derive(Debug, Clone, Copy, PartialEq, Eq, Structural)]
pub enum FailurePolicy {
    /// Let the packet through.
    FailOpen,
    /// Stop the packet.
    FailClosed,
}

impl FailurePolicy {
    pub open spec fn spec_verdict(self) -> Verdict {
        match self {
            FailurePolicy::FailOpen => Verdict::Permit,
            FailurePolicy::FailClosed => Verdict::Deny,
        }
    }

    /// The verdict taken on a header that cannot be read.
    #[verifier::when_used_as_spec(spec_verdict)]
    pub fn verdict(self) -> (r: Verdict)
        ensures
            r == self.spec_verdict(),
    {
        match self {
            FailurePolicy::FailOpen => Verdict::Permit,
            FailurePolicy::FailClosed => Verdict::Deny,
        }
    }
}

/// The verdict for a destination, given the blocklist.
pub open spec fn policy_verdict(blocklist: Map<u32, u32>, destination: u32) -> Verdict {
    if blocklist.contains_key(destination) {
        Verdict::Deny
    } else {
        Verdict::Permit
    }
}

/// Numeric action of a record: 0 for deny, 1 for permit.
pub open spec fn action_code(v: Verdict) -> u32 {
    match v {
        Verdict::Deny => 0,
        Verdict::Permit => 1,
    }
}

/// A telemetry record: the destination of an inspected packet and the verdict on it.
#[derive(Debug, Clone, Copy, PartialEq, Eq, Structural)]
pub struct PacketLog {
    /// Destination address, host order.
    pub ipv4_address: u32,
    pub action: Verdict,
}

/// Text of a device-egress log line: `DEST <address>, ACTION <0|1>`.
pub open spec fn device_log_text(r: PacketLog) -> Seq<char> {
    "DEST "@ + dotted_quad(r.ipv4_address) + ", ACTION "@ + (if r.action == Verdict::Deny {
        "0"@
    } else {
        "1"@
    })
}

/// Text of a dispatcher log line: `LOG: DST <address>, ACTION <permit|deny>`.
pub open spec fn dispatch_log_text(r: PacketLog) -> Seq<char> {
    "LOG: DST "@ + dotted_quad(r.ipv4_address) + ", ACTION "@ + (if r.action == Verdict::Deny {
        "deny"@
    } else {
        "permit"@
    })
}

impl PacketLog {
    /// The numeric action: 0 for deny, 1 for permit.
    pub fn action_code(&self) -> (r: u32)
        ensures
            r == action_code(self.action),
    {
        match self.action {
            Verdict::Deny => 0,
            Verdict::Permit => 1,
        }
    }

    /// The line that the device egress classifier logs for this record.
    pub fn device_log_line(&self) -> (r: String)
        ensures
            r@ == device_log_text(*self),
    {
        let mut out = String::from_str("DEST ");
        push_ipv4(&mut out, self.ipv4_address);
        out.append(", ACTION ");
        match self.action {
            Verdict::Deny => out.append("0"),
            Verdict::Permit => out.append("1"),
        }
        out
    }

    /// The line that the dispatcher writes for this record.
    pub fn dispatch_line(&self) -> (r: String)
        ensures
            r@ == dispatch_log_text(*self),
    {
        let mut out = String::from_str("LOG: DST ");
        push_ipv4(&mut out, self.ipv4_address);
        out.append(", ACTION ");
        match self.action {
            Verdict::Deny => out.append("deny"),
            Verdict::Permit => out.append("permit"),
        }
        out
    }
}

} // verus!
