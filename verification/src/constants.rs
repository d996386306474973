//! Bytes whose value is fixed by a type parameter, and the error of reading
//! another byte in their place.

use vstd::prelude::*;

use crate::bytes::{from_le16, hi, lo, u16_from_le, u16_to_le};
use vstd::slice::slice_subrange;

use crate::parse::{Parse, Parsed};
use crate::text::{digit_str, digit_text};

verus! {

/// A byte that was expected and the byte that came instead.
#[derive(Debug, PartialEq, Eq, Clone, Copy)]
pub struct WrongByte {
    expected: u8,
    actual: u8,
}

impl WrongByte {
    /// The value expected.
    pub closed spec fn spec_expected(&self) -> u8 {
        self.expected
    }

    /// The value that came.
    pub closed spec fn spec_actual(&self) -> u8 {
        self.actual
    }

    /// The byte that was expected.
    pub fn expected(&self) -> (r: u8)
        ensures
            r == self.spec_expected(),
    {
        self.expected
    }

    /// The byte that came.
    pub fn actual(&self) -> (r: u8)
        ensures
            r == self.spec_actual(),
    {
        self.actual
    }

    /// A human-readable account of the two bytes, in two-digit upper-case
    /// hexadecimal.
    pub fn message(&self) -> (r: String)
        ensures
            r@ == wrong_byte_text(self.spec_expected(), self.spec_actual()),
    {
        let mut s = String::new();
        s.append("Expected `");
        s.append(digit_str((self.expected / 16) as u32));
        s.append(digit_str((self.expected % 16) as u32));
        s.append("` but received `");
        s.append(digit_str((self.actual / 16) as u32));
        s.append(digit_str((self.actual % 16) as u32));
        s.append("`");
        s
    }
}

/// A byte as two upper-case hexadecimal digits.
pub open spec fn hex_byte_text(b: u8) -> Seq<char> {
    digit_text((b / 16) as nat) + digit_text((b % 16) as nat)
}

/// The account of a wrong byte.
pub open spec fn wrong_byte_text(expected: u8, actual: u8) -> Seq<char> {
    "Expected `"@ + hex_byte_text(expected) + "` but received `"@ + hex_byte_text(actual) + "`"@
}

/// The wrong byte `actual` in place of `expected`.
pub closed spec fn wrong_byte(expected: u8, actual: u8) -> WrongByte {
    WrongByte { expected, actual }
}

/// A wrong byte holds the bytes it was made with.
pub proof fn lemma_wrong_byte(expected: u8, actual: u8)
    ensures
        wrong_byte(expected, actual).spec_expected() == expected,
        wrong_byte(expected, actual).spec_actual() == actual,
{
}

/// What reading the byte `expected` from the front of `input` gives.
pub open spec fn expect_byte(expected: u8, input: Seq<u8>) -> Parsed<(), WrongByte> {
    if input.len() == 0 {
        Parsed::NeedMore
    } else if input[0] == expected {
        Parsed::Done((), 1)
    } else {
        Parsed::Failed(wrong_byte(expected, input[0]), 1)
    }
}

/// Reads the byte `expected` from the front of `input`.
pub fn parse_byte(expected: u8, input: &[u8]) -> (r: Parsed<(), WrongByte>)
    ensures
        r == expect_byte(expected, input@),
{
    if input.len() == 0 {
        Parsed::NeedMore
    } else if input[0] == expected {
        Parsed::Done((), 1)
    } else {
        Parsed::Failed(WrongByte { expected, actual: input[0] }, 1)
    }
}

/// A byte that always holds `N`.
pub struct C8<const N: u8>(u8);

impl<const N: u8> C8<N> {
    #[verifier::type_invariant]
    spec fn holds_n(self) -> bool {
        self.0 == N
    }

    /// The byte `N`.
    pub fn new() -> (r: Self)
        ensures
            r.spec_value() == N,
    {
        C8(N)
    }

    /// The value held.
    pub closed spec fn spec_value(&self) -> u8 {
        self.0
    }

    /// The byte held, which is `N`.
    pub fn value(&self) -> (r: u8)
        ensures
            r == self.spec_value(),
            r == N,
    {
        proof {
            use_type_invariant(self);
        }
        self.0
    }
}

impl<const N: u8> Default for C8<N> {
    fn default() -> (r: Self)
        ensures
            r.spec_value() == N,
    {
        Self::new()
    }
}

impl<const N: u8> Parse<u8> for C8<N> {
    type Output = ();
    type Error = WrongByte;

    open spec fn spec_parse(input: Seq<u8>) -> Parsed<(), WrongByte> {
        expect_byte(N, input)
    }

    proof fn lemma_parse_within(input: Seq<u8>) {
    }

    fn parse(input: &[u8]) -> (r: Parsed<(), WrongByte>) {
        parse_byte(N, input)
    }
}

/// The two little-endian bytes of the 16-bit value `N`.
pub struct C16<const N: u16> {
    little_endian: [u8; 2],
}

impl<const N: u16> C16<N> {
    /// The little-endian bytes of `N`.
    pub fn new() -> (r: Self)
        ensures
            r.spec_bytes() == seq![lo(N), hi(N)],
    {
        C16 { little_endian: u16_to_le(N) }
    }

    /// The bytes held.
    pub closed spec fn spec_bytes(&self) -> Seq<u8> {
        self.little_endian@
    }

    /// The value whose little-endian bytes are held.
    pub fn value(&self) -> (r: u16)
        ensures
            r == from_le16(self.spec_bytes()[0], self.spec_bytes()[1]),
    {
        u16_from_le(self.little_endian[0], self.little_endian[1])
    }
}

impl<const N: u16> Default for C16<N> {
    fn default() -> (r: Self)
        ensures
            r.spec_bytes() == seq![lo(N), hi(N)],
    {
        Self::new()
    }
}

/// What reading the little-endian bytes of `expected` from the front of `input` gives.
pub open spec fn expect_u16(expected: u16, input: Seq<u8>) -> Parsed<(), WrongByte> {
    match expect_byte(lo(expected), input) {
        Parsed::Done(_, _) => match expect_byte(hi(expected), input.drop_first()) {
            Parsed::Done(_, _) => Parsed::Done((), 2),
            Parsed::Failed(e, _) => Parsed::Failed(e, 2),
            Parsed::NeedMore => Parsed::NeedMore,
        },
        other => other,
    }
}

/// Reads the little-endian bytes of `expected` from the front of `input`.
pub fn parse_le16(expected: u16, input: &[u8]) -> (r: Parsed<(), WrongByte>)
    ensures
        r == expect_u16(expected, input@),
{
    let lo_byte = (expected % 256) as u8;
    let hi_byte = (expected / 256) as u8;
    match parse_byte(lo_byte, input) {
        Parsed::Done(_, _) => {
            let rest = slice_subrange(input, 1, input.len());
            assert(rest@ =~= input@.drop_first());
            match parse_byte(hi_byte, rest) {
                Parsed::Done(_, _) => Parsed::Done((), 2),
                Parsed::Failed(e, _) => Parsed::Failed(e, 2),
                Parsed::NeedMore => Parsed::NeedMore,
            }
        },
        other => other,
    }
}

/// What reading one expected byte gives: more input is needed, the byte is
/// read, or the byte that came is reported against the one expected.
pub proof fn lemma_expect_byte(expected: u8, input: Seq<u8>)
    ensures
        input.len() == 0 ==> expect_byte(expected, input) is NeedMore,
        input.len() > 0 && input[0] == expected ==> expect_byte(expected, input)
            == Parsed::<(), WrongByte>::Done((), 1),
        input.len() > 0 && input[0] != expected ==> (expect_byte(expected, input) matches Parsed::Failed(
            e,
            n,
        ) && n == 1 && e.spec_expected() == expected && e.spec_actual() == input[0]),
{
}

/// What reading the two little-endian bytes of `expected` gives: the first
/// wrong byte is reported, and otherwise both are read.
pub proof fn lemma_expect_u16(expected: u16, input: Seq<u8>)
    ensures
        input.len() >= 2 && input[0] == lo(expected) && input[1] == hi(expected) ==> expect_u16(
            expected,
            input,
        ) == Parsed::<(), WrongByte>::Done((), 2),
        input.len() >= 1 && input[0] != lo(expected) ==> (expect_u16(expected, input) matches Parsed::Failed(
            e,
            n,
        ) && n == 1 && e.spec_expected() == lo(expected) && e.spec_actual() == input[0]),
        input.len() >= 2 && input[0] == lo(expected) && input[1] != hi(expected) ==> (expect_u16(
            expected,
            input,
        ) matches Parsed::Failed(e, n) && n == 2 && e.spec_expected() == hi(expected)
            && e.spec_actual() == input[1]),
        (input.len() == 0 || (input.len() == 1 && input[0] == lo(expected))) ==> expect_u16(
            expected,
            input,
        ) is NeedMore,
        match expect_u16(expected, input) {
            Parsed::Done(_, n) => n == 2,
            Parsed::Failed(_, n) => 1 <= n <= 2 && n <= input.len(),
            Parsed::NeedMore => input.len() < 2,
        },
{
}

impl<const N: u16> Parse<u8> for C16<N> {
    type Output = ();
    type Error = WrongByte;

    open spec fn spec_parse(input: Seq<u8>) -> Parsed<(), WrongByte> {
        expect_u16(N, input)
    }

    proof fn lemma_parse_within(input: Seq<u8>) {
    }

    fn parse(input: &[u8]) -> (r: Parsed<(), WrongByte>) {
        parse_le16(N, input)
    }
}

} // verus!
