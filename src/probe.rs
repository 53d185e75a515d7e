//! The connection probe, which observes outbound TCP connection attempts, and the
//! process-lifecycle guard. Neither gates what it observes.
use crate::addr::{dotted_quad, push_ipv4};
use crate::packet::be_u32_at;
use vstd::prelude::*;

verus! {

/// Address family of IPv4 sockets.
pub const AF_INET: u16 = 2;

/// Address family of IPv6 sockets.
pub const AF_INET6: u16 = 10;

/// What the probe hands back to the kernel: carry on with the connection.
pub const PROBE_CONTINUE: u32 = 0;

/// What the process guard hands back to the kernel: allow the new task.
pub const TASK_ALLOW: i32 = 0;

/// The common fields of a socket, as a guarded read copies them. Addresses are in
/// network byte order.
#[derive(Debug, Clone, Copy)]
pub struct SockCommon {
    pub family: u16,
    pub rcv_saddr: [u8; 4],
    pub daddr: [u8; 4],
    pub v6_rcv_saddr: [u8; 16],
    pub v6_daddr: [u8; 16],
}

/// What the probe observed of one connection attempt.
#[derive(Debug, Clone, Copy, PartialEq, Eq)]
pub enum ConnectEvent {
    /// An IPv4 connection; addresses in host order.
    Ipv4 { src: u32, dst: u32 },
    /// An IPv6 connection; addresses in network byte order.
    Ipv6 { src_bytes: [u8; 16], dst_bytes: [u8; 16] },
    /// The socket could not be read, or its family is neither IPv4 nor IPv6.
    Ignored,
}

/// The probe's outcome: the code for the kernel and the observed event.
#[derive(Debug, Clone, Copy)]
pub struct ProbeOutcome {
    pub code: u32,
    pub event: ConnectEvent,
}

/// The event observed on a socket, `None` standing for a read that failed.
pub open spec fn connect_event(sock: Option<SockCommon>) -> ConnectEvent {
    match sock {
        None => ConnectEvent::Ignored,
        Some(s) => if s.family == AF_INET {
            ConnectEvent::Ipv4 {
                src: be_u32_at(s.rcv_saddr@, 0),
                dst: be_u32_at(s.daddr@, 0),
            }
        } else if s.family == AF_INET6 {
            ConnectEvent::Ipv6 { src_bytes: s.v6_rcv_saddr, dst_bytes: s.v6_daddr }
        } else {
            ConnectEvent::Ignored
        },
    }
}

fn be_u32_of(b: &[u8; 4]) -> (r: u32)
    ensures
        r == be_u32_at(b@, 0),
{
    b[0] as u32 * 16777216 + b[1] as u32 * 65536 + b[2] as u32 * 256 + b[3] as u32
}

/// The connection probe on the socket of an outbound TCP connection attempt. `None`
/// stands for a guarded read of the socket that failed. The connection always goes on.
pub fn tcp_connect(sock: Option<&SockCommon>) -> (r: ProbeOutcome)
    ensures
        r.code == PROBE_CONTINUE,
        r.event == connect_event(
            match sock {
                Some(s) => Some(*s),
                None => None,
            },
        ),
{
    let event = match sock {
        None => ConnectEvent::Ignored,
        Some(s) => if s.family == AF_INET {
            ConnectEvent::Ipv4 { src: be_u32_of(&s.rcv_saddr), dst: be_u32_of(&s.daddr) }
        } else if s.family == AF_INET6 {
            ConnectEvent::Ipv6 { src_bytes: s.v6_rcv_saddr, dst_bytes: s.v6_daddr }
        } else {
            ConnectEvent::Ignored
        },
    };
    ProbeOutcome { code: PROBE_CONTINUE, event }
}

/// The process-lifecycle guard on a new task: every task is allowed.
pub fn task_alloc(clone_flags: u64) -> (r: i32)
    ensures
        r == TASK_ALLOW,
{
    TASK_ALLOW
}

/// The lowercase hexadecimal digit for `d`, which is below sixteen.
pub open spec fn hex_char(d: nat) -> char {
    if d < 10 {
        crate::addr::digit_char(d)
    } else if d == 10 {
        'a'
    } else if d == 11 {
        'b'
    } else if d == 12 {
        'c'
    } else if d == 13 {
        'd'
    } else if d == 14 {
        'e'
    } else {
        'f'
    }
}

/// Lowercase hexadecimal text of `n`, without leading zeros.
pub open spec fn hex(n: nat) -> Seq<char>
    decreases n,
{
    if n < 16 {
        seq![hex_char(n)]
    } else {
        hex(n / 16).push(hex_char(n % 16))
    }
}

/// The `i`-th 16-bit group of an IPv6 address given as 16 bytes.
pub open spec fn group(b: Seq<u8>, i: nat) -> nat {
    b[2 * i as int] as nat * 256 + b[2 * i as int + 1] as nat
}

/// The first `n` groups of an IPv6 address, in hexadecimal, joined by `:`.
pub open spec fn ipv6_groups(b: Seq<u8>, n: nat) -> Seq<char>
    decreases n,
{
    if n <= 1 {
        hex(group(b, 0))
    } else {
        ipv6_groups(b, (n - 1) as nat) + seq![':'] + hex(group(b, (n - 1) as nat))
    }
}

/// Text of an IPv6 address: its eight groups in hexadecimal, joined by `:`.
pub open spec fn ipv6_text(b: Seq<u8>) -> Seq<char> {
    ipv6_groups(b, 8)
}

fn hex_str(d: u16) -> (r: &'static str)
    requires
        d < 16,
    ensures
        r@ == seq![hex_char(d as nat)],
{
    if d == 0 {
        proof { reveal_strlit("0"); }
        "0"
    } else if d == 1 {
        proof { reveal_strlit("1"); }
        "1"
    } else if d == 2 {
        proof { reveal_strlit("2"); }
        "2"
    } else if d == 3 {
        proof { reveal_strlit("3"); }
        "3"
    } else if d == 4 {
        proof { reveal_strlit("4"); }
        "4"
    } else if d == 5 {
        proof { reveal_strlit("5"); }
        "5"
    } else if d == 6 {
        proof { reveal_strlit("6"); }
        "6"
    } else if d == 7 {
        proof { reveal_strlit("7"); }
        "7"
    } else if d == 8 {
        proof { reveal_strlit("8"); }
        "8"
    } else if d == 9 {
        proof { reveal_strlit("9"); }
        "9"
    } else if d == 10 {
        proof { reveal_strlit("a"); }
        "a"
    } else if d == 11 {
        proof { reveal_strlit("b"); }
        "b"
    } else if d == 12 {
        proof { reveal_strlit("c"); }
        "c"
    } else if d == 13 {
        proof { reveal_strlit("d"); }
        "d"
    } else if d == 14 {
        proof { reveal_strlit("e"); }
        "e"
    } else {
        proof { reveal_strlit("f"); }
        "f"
    }
}

fn push_hex_u16(out: &mut String, n: u16)
    ensures
        final(out)@ == old(out)@ + hex(n as nat),
{
    let ghost m = n as nat;
    if n < 16 {
        out.append(hex_str(n));
    } else if n < 256 {
        out.append(hex_str(n / 16));
        out.append(hex_str(n % 16));
        assert(hex(m / 16) == seq![hex_char(m / 16)]);
    } else if n < 4096 {
        out.append(hex_str(n / 256));
        out.append(hex_str((n / 16) % 16));
        out.append(hex_str(n % 16));
        assert(m / 16 / 16 == m / 256);
        assert(hex(m / 16 / 16) == seq![hex_char(m / 256)]);
        assert(hex(m / 16) == hex(m / 16 / 16).push(hex_char((m / 16) % 16)));
    } else {
        out.append(hex_str(n / 4096));
        out.append(hex_str((n / 256) % 16));
        out.append(hex_str((n / 16) % 16));
        out.append(hex_str(n % 16));
        assert(m / 16 / 16 == m / 256);
        assert(m / 256 / 16 == m / 4096);
        assert(hex(m / 256 / 16) == seq![hex_char(m / 4096)]);
        assert(hex(m / 256) == hex(m / 256 / 16).push(hex_char((m / 256) % 16)));
        assert(hex(m / 16) == hex(m / 16 / 16).push(hex_char((m / 16) % 16)));
    }
    assert(final(out)@ =~= old(out)@ + hex(m));
}

/// Appends the text of an IPv6 address to `out`.
pub fn push_ipv6(out: &mut String, b: &[u8; 16])
    ensures
        final(out)@ == old(out)@ + ipv6_text(b@),
{
    let ghost start = out@;
    push_hex_u16(out, b[0] as u16 * 256 + b[1] as u16);
    assert(out@ =~= start + ipv6_groups(b@, 1));
    let mut i: usize = 1;
    while i < 8
        invariant
            1 <= i <= 8,
            b@.len() == 16,
            out@ == start + ipv6_groups(b@, i as nat),
        decreases 8 - i,
    {
        proof { reveal_strlit(":"); }
        out.append(":");
        let g = b[2 * i] as u16 * 256 + b[2 * i + 1] as u16;
        assert(g as nat == group(b@, i as nat));
        push_hex_u16(out, g);
        assert(ipv6_groups(b@, (i + 1) as nat) == ipv6_groups(b@, i as nat) + seq![':'] + hex(
            group(b@, i as nat),
        ));
        assert(out@ =~= start + ipv6_groups(b@, (i + 1) as nat));
        i = i + 1;
    }
}

/// Text that the probe logs for an event.
pub open spec fn connect_log_text(e: ConnectEvent) -> Option<Seq<char>> {
    match e {
        ConnectEvent::Ipv4 { src, dst } => Some(
            "AF_INET src address: "@ + dotted_quad(src) + ", dest address: "@ + dotted_quad(dst),
        ),
        ConnectEvent::Ipv6 { src_bytes, dst_bytes } => Some(
            "AF_INET6 src addr: "@ + ipv6_text(src_bytes@) + ", dest addr: "@ + ipv6_text(dst_bytes@),
        ),
        ConnectEvent::Ignored => None,
    }
}

impl ConnectEvent {
    /// The line the probe logs for this event; none for an ignored one.
    pub fn log_line(&self) -> (r: Option<String>)
        ensures
            match r {
                Some(s) => connect_log_text(*self) == Some(s@),
                None => connect_log_text(*self) is None,
            },
    {
        match self {
            ConnectEvent::Ipv4 { src, dst } => {
                let mut out = String::from_str("AF_INET src address: ");
                push_ipv4(&mut out, *src);
                out.append(", dest address: ");
                push_ipv4(&mut out, *dst);
                Some(out)
            },
            ConnectEvent::Ipv6 { src_bytes, dst_bytes } => {
                let mut out = String::from_str("AF_INET6 src addr: ");
                push_ipv6(&mut out, src_bytes);
                out.append(", dest addr: ");
                push_ipv6(&mut out, dst_bytes);
                Some(out)
            },
            ConnectEvent::Ignored => None,
        }
    }
}

} // verus!
