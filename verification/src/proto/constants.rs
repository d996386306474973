//! Bytes whose value is fixed by a type parameter.

use vstd::prelude::*;

use crate::bytes::{from_le16, hi, lo, u16_from_le, u16_to_le};

verus! {

/// A byte that always holds `N`.
pub struct C8<const N: u8>(u8);

impl<const N: u8> C8<N> {
    /// The byte `N`.
    pub fn new() -> (r: Self)
        ensures
            r.spec_value() == N,
    {
        C8(N)
    }

    /// The value held.
    pub closed spec fn spec_value(&self) -> u8 {
        self.0
    }

    /// The byte held.
    pub fn value(&self) -> (r: u8)
        ensures
            r == self.spec_value(),
    {
        self.0
    }
}

/// The two little-endian bytes of the 16-bit value `N`.
pub struct C16<const N: u16> {
    little_endian: [u8; 2],
}

impl<const N: u16> C16<N> {
    /// The little-endian bytes of `N`.
    pub fn new() -> (r: Self)
        ensures
            r.spec_bytes() == seq![lo(N), hi(N)],
    {
        C16 { little_endian: u16_to_le(N) }
    }

    /// The bytes held.
    pub closed spec fn spec_bytes(&self) -> Seq<u8> {
        self.little_endian@
    }

    /// The value whose little-endian bytes are held.
    pub fn value(&self) -> (r: u16)
        ensures
            r == from_le16(self.spec_bytes()[0], self.spec_bytes()[1]),
    {
        u16_from_le(self.little_endian[0], self.little_endian[1])
    }
}

/// The bytes of `C16::<N>::new()` are those of `N`.
pub proof fn law_c16_roundtrip<const N: u16>(c: C16<N>)
    requires
        c.spec_bytes() == seq![lo(N), hi(N)],
    ensures
        from_le16(c.spec_bytes()[0], c.spec_bytes()[1]) == N,
{
}

} // verus!
