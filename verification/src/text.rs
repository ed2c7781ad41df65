//! Numbers as text.

use vstd::prelude::*;

verus! {

/// The digit of a number below sixteen.
pub open spec fn digit_text(d: nat) -> Seq<char> {
    if d == 0 {
        "0"@
    } else if d == 1 {
        "1"@
    } else if d == 2 {
        "2"@
    } else if d == 3 {
        "3"@
    } else if d == 4 {
        "4"@
    } else if d == 5 {
        "5"@
    } else if d == 6 {
        "6"@
    } else if d == 7 {
        "7"@
    } else if d == 8 {
        "8"@
    } else if d == 9 {
        "9"@
    } else if d == 10 {
        "a"@
    } else if d == 11 {
        "b"@
    } else if d == 12 {
        "c"@
    } else if d == 13 {
        "d"@
    } else if d == 14 {
        "e"@
    } else {
        "f"@
    }
}

/// A number written in a base from two to sixteen, without leading zeros.
pub open spec fn number_text(n: nat, base: nat) -> Seq<char>
    decreases n,
{
    if n < base || base < 2 {
        digit_text(n)
    } else {
        proof {
            assert(n / base < n) by (nonlinear_arith)
                requires
                    n >= base,
                    base >= 2,
            ;
        }
        number_text(n / base, base) + digit_text(n % base)
    }
}

/// A number written in decimal, with a minus sign in front where it is negative.
pub open spec fn signed_text(n: int) -> Seq<char> {
    if n < 0 {
        "-"@ + number_text((-n) as nat, 10)
    } else {
        number_text(n as nat, 10)
    }
}

fn digit(d: u32) -> (s: &'static str)
    requires
        d < 16,
    ensures
        s@ == digit_text(d as nat),
{
    match d {
        0 => "0",
        1 => "1",
        2 => "2",
        3 => "3",
        4 => "4",
        5 => "5",
        6 => "6",
        7 => "7",
        8 => "8",
        9 => "9",
        10 => "a",
        11 => "b",
        12 => "c",
        13 => "d",
        14 => "e",
        _ => "f",
    }
}

/// Appends a number, written in the given base.
pub fn push_number(out: &mut String, n: u32, base: u32)
    requires
        2 <= base <= 16,
    ensures
        final(out)@ == old(out)@ + number_text(n as nat, base as nat),
    decreases n,
{
    if n < base {
        out.append(digit(n));
    } else {
        assert(n / base < n) by (nonlinear_arith)
            requires
                n >= base,
                base >= 2,
        ;
        push_number(out, n / base, base);
        out.append(digit(n % base));
        assert(old(out)@ + number_text((n / base) as nat, base as nat) + digit_text(
            (n % base) as nat,
        ) =~= old(out)@ + number_text(n as nat, base as nat));
    }
}

/// Appends a number in decimal, with its sign where it is negative.
pub fn push_signed(out: &mut String, n: i32)
    ensures
        final(out)@ == old(out)@ + signed_text(n as int),
{
    if n < 0 {
        out.append("-");
        let size: u32 = (-(n as i64)) as u32;
        push_number(out, size, 10);
        assert(old(out)@ + "-"@ + number_text(size as nat, 10) =~= old(out)@ + signed_text(
            n as int,
        ));
    } else {
        push_number(out, n as u32, 10);
    }
}

} // verus!
