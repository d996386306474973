//! Little-endian encoding of the integers that travel on the wire.

use vstd::prelude::*;

verus! {

/// The low byte of a 16-bit value.
pub open spec fn lo(x: u16) -> u8 {
    (x % 256) as u8
}

/// The high byte of a 16-bit value.
pub open spec fn hi(x: u16) -> u8 {
    (x / 256) as u8
}

/// The two little-endian bytes of a 16-bit value.
pub open spec fn le16(x: u16) -> Seq<u8> {
    seq![lo(x), hi(x)]
}

/// The 16-bit value whose little-endian bytes are `l`, `h`.
pub open spec fn from_le16(l: u8, h: u8) -> u16 {
    (l as int + 256 * (h as int)) as u16
}

/// Decoding the encoding of a 16-bit value gives the value back.
pub proof fn lemma_le16_roundtrip(x: u16)
    ensures
        from_le16(lo(x), hi(x)) == x,
{
}

/// Splits a 16-bit value into its little-endian bytes.
pub fn u16_to_le(x: u16) -> (r: [u8; 2])
    ensures
        r@ == le16(x),
{
    let r = [(x % 256) as u8, (x / 256) as u8];
    assert(r@ =~= le16(x));
    r
}

/// Joins two little-endian bytes into a 16-bit value.
pub fn u16_from_le(l: u8, h: u8) -> (r: u16)
    ensures
        r == from_le16(l, h),
{
    l as u16 + 256 * (h as u16)
}

/// The array whose elements are those of `p` (meaningful when `p` has `N` elements).
pub open spec fn array_of<const N: usize>(p: Seq<u8>) -> [u8; N] {
    choose|a: [u8; N]| a@ == p
}

/// An array is the array of its own elements.
pub proof fn lemma_array_of<const N: usize>(a: [u8; N], p: Seq<u8>)
    requires
        a@ =~= p,
    ensures
        array_of::<N>(p) == a,
{
    assert(exists|b: [u8; N]| b@ == p);
    let c = array_of::<N>(p);
    assert(c@ == a@);
}

/// The array of `N` bytes whose first `k` are those of `p`, the rest zero.
spec fn array_prefix<const N: usize>(p: Seq<u8>, k: nat) -> [u8; N]
    decreases k,
{
    if k == 0 {
        vstd::array::spec_array_fill_for_copy_type::<u8, N>(0)
    } else {
        vstd::array::spec_array_update(array_prefix::<N>(p, (k - 1) as nat), k - 1, p[k - 1])
    }
}

proof fn lemma_array_prefix<const N: usize>(p: Seq<u8>, k: nat)
    requires
        k <= N,
    ensures
        array_prefix::<N>(p, k)@.len() == N,
        forall|i: int| 0 <= i < k ==> #[trigger] array_prefix::<N>(p, k)@[i] == p[i],
    decreases k,
{
    broadcast use vstd::array::array_len_matches_n;
    broadcast use vstd::array::axiom_spec_array_update;

    if k > 0 {
        lemma_array_prefix::<N>(p, (k - 1) as nat);
    }
}

/// Every sequence of `N` bytes is the sequence of an array, which
/// `array_of` picks.
pub proof fn lemma_array_exists<const N: usize>(p: Seq<u8>)
    requires
        p.len() == N,
    ensures
        array_of::<N>(p)@ == p,
{
    lemma_array_prefix::<N>(p, N as nat);
    assert(array_prefix::<N>(p, N as nat)@ =~= p);
}

/// Copies a slice of `N` bytes into an array.
pub fn array_from_slice<const N: usize>(p: &[u8]) -> (r: [u8; N])
    requires
        p@.len() == N,
    ensures
        r@ == p@,
        r == array_of::<N>(p@),
{
    let mut r = [0u8; N];
    let mut i: usize = 0;
    while i < N
        invariant
            p@.len() == N,
            i <= N,
            forall|j: int| 0 <= j < i ==> r@[j] == p@[j],
        decreases N - i,
    {
        r[i] = p[i];
        i = i + 1;
    }
    assert(r@ =~= p@);
    proof {
        lemma_array_of(r, p@);
    }
    r
}

} // verus!
