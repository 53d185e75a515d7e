//! Network policy hooks: a shared IPv4 blocklist, packet classifiers at ingress, device
//! egress and cgroup egress, a connection probe, a task guard, and the event channel
//! that carries telemetry records to the control plane.
pub mod addr;
pub mod channel;
pub mod hooks;
pub mod packet;
pub mod plan;
pub mod policy;
pub mod probe;
pub mod record;
