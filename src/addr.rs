//! IPv4 addresses as integers, and their dotted-quad text.
use vstd::prelude::*;

verus! {

/// The ASCII digit for `d`, which is below ten.
pub open spec fn digit_char(d: nat) -> char {
    if d == 0 { '0' }
    else if d == 1 { '1' }
    else if d == 2 { '2' }
    else if d == 3 { '3' }
    else if d == 4 { '4' }
    else if d == 5 { '5' }
    else if d == 6 { '6' }
    else if d == 7 { '7' }
    else if d == 8 { '8' }
    else { '9' }
}

/// Decimal text of `n`, without leading zeros.
pub open spec fn decimal(n: nat) -> Seq<char>
    decreases n,
{
    if n < 10 {
        seq![digit_char(n)]
    } else {
        decimal(n / 10).push(digit_char(n % 10))
    }
}

/// The `i`-th octet of `a`, counting from the most significant one.
pub open spec fn octet(a: u32, i: nat) -> nat {
    if i == 0 {
        (a as nat / 16777216) % 256
    } else if i == 1 {
        (a as nat / 65536) % 256
    } else if i == 2 {
        (a as nat / 256) % 256
    } else {
        a as nat % 256
    }
}

/// Dotted-quad text of an address held in host order (`1.1.1.1` is `0x01010101`).
pub open spec fn dotted_quad(a: u32) -> Seq<char> {
    decimal(octet(a, 0)) + seq!['.'] + decimal(octet(a, 1)) + seq!['.'] + decimal(octet(a, 2))
        + seq!['.'] + decimal(octet(a, 3))
}

/// The address whose octets, most significant first, are `a`, `b`, `c`, `d`.
pub open spec fn ipv4_of(a: u8, b: u8, c: u8, d: u8) -> u32 {
    (a as nat * 16777216 + b as nat * 65536 + c as nat * 256 + d as nat) as u32
}

/// Builds the host-order address `a.b.c.d`.
pub fn ipv4(a: u8, b: u8, c: u8, d: u8) -> (r: u32)
    ensures
        r == ipv4_of(a, b, c, d),
        r as nat == a as nat * 16777216 + b as nat * 65536 + c as nat * 256 + d as nat,
{
    a as u32 * 16777216 + b as u32 * 65536 + c as u32 * 256 + d as u32
}

fn digit_str(d: u8) -> (r: &'static str)
    requires
        d < 10,
    ensures
        r@ == seq![digit_char(d as nat)],
{
    if d == 0 {
        proof { reveal_strlit("0"); }
        "0"
    } else if d == 1 {
        proof { reveal_strlit("1"); }
        "1"
    } else if d == 2 {
        proof { reveal_strlit("2"); }
        "2"
    } else if d == 3 {
        proof { reveal_strlit("3"); }
        "3"
    } else if d == 4 {
        proof { reveal_strlit("4"); }
        "4"
    } else if d == 5 {
        proof { reveal_strlit("5"); }
        "5"
    } else if d == 6 {
        proof { reveal_strlit("6"); }
        "6"
    } else if d == 7 {
        proof { reveal_strlit("7"); }
        "7"
    } else if d == 8 {
        proof { reveal_strlit("8"); }
        "8"
    } else {
        proof { reveal_strlit("9"); }
        "9"
    }
}

/// Appends the decimal text of `n` to `out`.
pub fn push_decimal_u8(out: &mut String, n: u8)
    ensures
        final(out)@ == old(out)@ + decimal(n as nat),
{
    if n < 10 {
        out.append(digit_str(n));
    } else if n < 100 {
        out.append(digit_str(n / 10));
        out.append(digit_str(n % 10));
        assert(decimal((n / 10) as nat) == seq![digit_char((n / 10) as nat)]);
    } else {
        out.append(digit_str(n / 100));
        out.append(digit_str((n / 10) % 10));
        out.append(digit_str(n % 10));
        let ghost q = (n / 10) as nat;
        assert(q / 10 == (n / 100) as nat);
        assert(q % 10 == ((n / 10) % 10) as nat);
        assert(decimal(q / 10) == seq![digit_char((n / 100) as nat)]);
        assert(decimal(q) == decimal(q / 10).push(digit_char(q % 10)));
    }
    assert(final(out)@ =~= old(out)@ + decimal(n as nat));
}

/// Appends the dotted-quad text of `a` to `out`.
pub fn push_ipv4(out: &mut String, a: u32)
    ensures
        final(out)@ == old(out)@ + dotted_quad(a),
{
    let o0 = (a / 16777216) as u8;
    let o1 = ((a / 65536) % 256) as u8;
    let o2 = ((a / 256) % 256) as u8;
    let o3 = (a % 256) as u8;
    let ghost start = out@;
    push_decimal_u8(out, o0);
    proof { reveal_strlit("."); }
    out.append(".");
    push_decimal_u8(out, o1);
    out.append(".");
    push_decimal_u8(out, o2);
    out.append(".");
    push_decimal_u8(out, o3);
    assert(o0 as nat == octet(a, 0));
    assert(final(out)@ =~= start + dotted_quad(a));
}

/// The dotted-quad text of `a` (`0x01010101` gives `1.1.1.1`).
pub fn format_ipv4(a: u32) -> (r: String)
    ensures
        r@ == dotted_quad(a),
{
    let mut out = String::new();
    push_ipv4(&mut out, a);
    assert(out@ =~= dotted_quad(a));
    out
}

} // verus!
