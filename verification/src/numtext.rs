//! Decimal and hexadecimal text of unsigned integers.

use vstd::prelude::*;

verus! {

/// The ASCII character of a digit value below 16 (lower-case for 10..15).
pub open spec fn digit_char(d: nat) -> char {
    if d < 10 {
        ((d + 48) as u8) as char
    } else {
        ((d + 87) as u8) as char
    }
}

/// The digits of `n` written in `base`, most significant first, without
/// leading zeros (`0` is written as a single digit).
pub open spec fn radix_text(n: nat, base: nat) -> Seq<char>
    recommends
        2 <= base <= 16,
    decreases n,
{
    if n < base || base < 2 {
        seq![digit_char(n % base)]
    } else {
        proof {
            assert(n / base < n) by (nonlinear_arith)
                requires
                    base >= 2,
                    n >= base,
            ;
        }
        radix_text(n / base, base).push(digit_char(n % base))
    }
}

/// The decimal text of `n`.
pub open spec fn decimal(n: nat) -> Seq<char> {
    radix_text(n, 10)
}

/// The lower-case hexadecimal text of `n`.
pub open spec fn lower_hex(n: nat) -> Seq<char> {
    radix_text(n, 16)
}

/// The one-character text of a digit value below 16.
fn digit_text(d: u64) -> (r: &'static str)
    requires
        d < 16,
    ensures
        r@ == seq![digit_char(d as nat)],
{
    proof {
        reveal_strlit("0");
        reveal_strlit("1");
        reveal_strlit("2");
        reveal_strlit("3");
        reveal_strlit("4");
        reveal_strlit("5");
        reveal_strlit("6");
        reveal_strlit("7");
        reveal_strlit("8");
        reveal_strlit("9");
        reveal_strlit("a");
        reveal_strlit("b");
        reveal_strlit("c");
        reveal_strlit("d");
        reveal_strlit("e");
        reveal_strlit("f");
    }
    match d {
        0 => "0",
        1 => "1",
        2 => "2",
        3 => "3",
        4 => "4",
        5 => "5",
        6 => "6",
        7 => "7",
        8 => "8",
        9 => "9",
        10 => "a",
        11 => "b",
        12 => "c",
        13 => "d",
        14 => "e",
        15 => "f",
        _ => "f",
    }
}

/// The digits of `n` in `base`, most significant first.
fn radix_string(n: u64, base: u64) -> (r: String)
    requires
        2 <= base <= 16,
    ensures
        r@ == radix_text(n as nat, base as nat),
    decreases n,
{
    if n < base {
        assert((n as nat) % (base as nat) == n as nat) by (nonlinear_arith)
            requires
                n < base,
        ;
        String::from_str(digit_text(n))
    } else {
        assert(n / base < n) by (nonlinear_arith)
            requires
                n >= base,
                base >= 2,
        ;
        let mut s = radix_string(n / base, base);
        s.append(digit_text(n % base));
        s
    }
}

/// Decimal text of a `u32`, as `ToString` writes it.
pub(crate) fn u32_decimal(n: u32) -> (r: String)
    ensures
        r@ == decimal(n as nat),
{
    radix_string(n as u64, 10)
}

/// Lower-case hexadecimal text of a `u64`, as `format!("{:x}")` writes it.
pub(crate) fn u64_lower_hex(n: u64) -> (r: String)
    ensures
        r@ == lower_hex(n as nat),
{
    radix_string(n, 16)
}

} // verus!
