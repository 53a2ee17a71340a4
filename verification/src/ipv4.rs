//! An IPv4 address as four plain octets, with verified rendering to the usual
//! dotted-decimal string. The address is acquired at network bring-up outside
//! the library and handed in as plain bytes.

use vstd::prelude::*;

verus! {

/// An IPv4 address: the four octets of `a.b.c.d`.
#[derive(Clone, Copy, Debug, PartialEq, Eq, Structural)]
pub struct Ipv4 {
    pub a: u8,
    pub b: u8,
    pub c: u8,
    pub d: u8,
}

/// The character for one decimal digit.
pub open spec fn dec_digit(d: int) -> char {
    if d == 0 {
        '0'
    } else if d == 1 {
        '1'
    } else if d == 2 {
        '2'
    } else if d == 3 {
        '3'
    } else if d == 4 {
        '4'
    } else if d == 5 {
        '5'
    } else if d == 6 {
        '6'
    } else if d == 7 {
        '7'
    } else if d == 8 {
        '8'
    } else {
        '9'
    }
}

/// The decimal digits of an octet, without leading zeros.
pub open spec fn dec_u8(n: int) -> Seq<char> {
    if n >= 100 {
        seq![dec_digit(n / 100), dec_digit(n / 10 % 10), dec_digit(n % 10)]
    } else if n >= 10 {
        seq![dec_digit(n / 10), dec_digit(n % 10)]
    } else {
        seq![dec_digit(n)]
    }
}

/// The dotted-decimal form of an address.
pub open spec fn ipv4_chars(ip: Ipv4) -> Seq<char> {
    dec_u8(ip.a as int) + seq!['.'] + dec_u8(ip.b as int) + seq!['.'] + dec_u8(ip.c as int)
        + seq!['.'] + dec_u8(ip.d as int)
}

fn digit_str(d: u8) -> (r: &'static str)
    requires
        d < 10,
    ensures
        r@ == seq![dec_digit(d as int)],
{
    proof {
        reveal_strlit("0");
        reveal_strlit("1");
        reveal_strlit("2");
        reveal_strlit("3");
        reveal_strlit("4");
        reveal_strlit("5");
        reveal_strlit("6");
        reveal_strlit("7");
        reveal_strlit("8");
        reveal_strlit("9");
    }
    let r = match d {
        0 => "0",
        1 => "1",
        2 => "2",
        3 => "3",
        4 => "4",
        5 => "5",
        6 => "6",
        7 => "7",
        8 => "8",
        _ => "9",
    };
    proof {
        assert(r@ =~= seq![dec_digit(d as int)]);
    }
    r
}

/// Append the decimal digits of an octet.
pub fn append_dec_u8(s: &mut String, n: u8)
    ensures
        final(s)@ == old(s)@ + dec_u8(n as int),
{
    if n >= 100 {
        s.append(digit_str(n / 100));
        s.append(digit_str(n / 10 % 10));
        s.append(digit_str(n % 10));
    } else if n >= 10 {
        s.append(digit_str(n / 10));
        s.append(digit_str(n % 10));
    } else {
        s.append(digit_str(n));
    }
    proof {
        assert(s@ =~= old(s)@ + dec_u8(n as int));
    }
}

/// Render an address in dotted-decimal form.
pub fn ipv4_to_string(ip: &Ipv4) -> (r: String)
    ensures
        r@ == ipv4_chars(*ip),
{
    proof {
        reveal_strlit(".");
    }
    let mut s = String::new();
    append_dec_u8(&mut s, ip.a);
    s.append(".");
    append_dec_u8(&mut s, ip.b);
    s.append(".");
    append_dec_u8(&mut s, ip.c);
    s.append(".");
    append_dec_u8(&mut s, ip.d);
    proof {
        assert(s@ =~= ipv4_chars(*ip));
    }
    s
}

} // verus!
