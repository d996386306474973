//! Numbers written out as text, for human-readable messages.

use vstd::prelude::*;

verus! {

/// The upper-case hexadecimal digit of a number below 16.
pub open spec fn digit_text(d: nat) -> Seq<char> {
    if d == 0 { "0"@ }
    else if d == 1 { "1"@ }
    else if d == 2 { "2"@ }
    else if d == 3 { "3"@ }
    else if d == 4 { "4"@ }
    else if d == 5 { "5"@ }
    else if d == 6 { "6"@ }
    else if d == 7 { "7"@ }
    else if d == 8 { "8"@ }
    else if d == 9 { "9"@ }
    else if d == 10 { "A"@ }
    else if d == 11 { "B"@ }
    else if d == 12 { "C"@ }
    else if d == 13 { "D"@ }
    else if d == 14 { "E"@ }
    else { "F"@ }
}

/// `n` in upper-case hexadecimal, without leading zeros.
pub open spec fn hex_text(n: nat) -> Seq<char>
    decreases n,
{
    if n < 16 {
        digit_text(n)
    } else {
        hex_text(n / 16) + digit_text(n % 16)
    }
}

/// `n` in decimal, without leading zeros.
pub open spec fn decimal_text(n: nat) -> Seq<char>
    decreases n,
{
    if n < 10 {
        digit_text(n)
    } else {
        decimal_text(n / 10) + digit_text(n % 10)
    }
}

/// The upper-case hexadecimal digit of `d`.
pub fn digit_str(d: u32) -> (r: &'static str)
    requires
        d < 16,
    ensures
        r@ == digit_text(d as nat),
{
    match d {
        0 => "0",
        1 => "1",
        2 => "2",
        3 => "3",
        4 => "4",
        5 => "5",
        6 => "6",
        7 => "7",
        8 => "8",
        9 => "9",
        10 => "A",
        11 => "B",
        12 => "C",
        13 => "D",
        14 => "E",
        _ => "F",
    }
}

/// Appends `n` in upper-case hexadecimal.
pub fn append_hex(s: &mut String, n: u32)
    ensures
        final(s)@ == old(s)@ + hex_text(n as nat),
    decreases n,
{
    if n >= 16 {
        append_hex(s, n / 16);
    }
    s.append(digit_str(n % 16));
    proof {
        if n >= 16 {
            assert(old(s)@ + hex_text((n / 16) as nat) + digit_text((n % 16) as nat) =~= old(s)@
                + hex_text(n as nat));
        } else {
            assert(old(s)@ + digit_text((n % 16) as nat) =~= old(s)@ + hex_text(n as nat));
        }
    }
}

/// Appends `n` in decimal.
pub fn append_decimal(s: &mut String, n: u32)
    ensures
        final(s)@ == old(s)@ + decimal_text(n as nat),
    decreases n,
{
    if n >= 10 {
        append_decimal(s, n / 10);
    }
    s.append(digit_str(n % 10));
    proof {
        if n >= 10 {
            assert(old(s)@ + decimal_text((n / 10) as nat) + digit_text((n % 10) as nat) =~= old(s)@
                + decimal_text(n as nat));
        } else {
            assert(old(s)@ + digit_text((n % 10) as nat) =~= old(s)@ + decimal_text(n as nat));
        }
    }
}

} // verus!
