//! CRC-16 of Dynamixel Protocol 2.0 (polynomial 0x8005, initial value 0,
//! most significant bit first, no reflection, no final XOR).

use vstd::prelude::*;

verus! {

/// One shift of the CRC register.
pub open spec fn shift(c: u16) -> u16 {
    if c & 0x8000 == 0 {
        c << 1
    } else {
        (c << 1) ^ 0x8005
    }
}

/// `k` shifts of the CRC register.
pub open spec fn shifts(c: u16, k: nat) -> u16
    decreases k,
{
    if k == 0 {
        c
    } else {
        shifts(shift(c), (k - 1) as nat)
    }
}

/// The register after one byte has been fed in.
#[verifier::opaque]
pub open spec fn crc_byte(c: u16, b: u8) -> u16 {
    shifts(c ^ ((b as u16) << 8), 8)
}

/// The register after the bytes of `s` have been fed in, in order, starting from `init`.
pub open spec fn crc_from(init: u16, s: Seq<u8>) -> u16
    decreases s.len(),
{
    if s.len() == 0 {
        init
    } else {
        crc_byte(crc_from(init, s.drop_last()), s.last())
    }
}

/// The CRC of a byte sequence.
pub open spec fn crc16(s: Seq<u8>) -> u16 {
    crc_from(0, s)
}

/// Feeding two sequences one after the other is feeding their concatenation.
pub proof fn lemma_crc_concat(init: u16, a: Seq<u8>, b: Seq<u8>)
    ensures
        crc_from(init, a + b) == crc_from(crc_from(init, a), b),
    decreases b.len(),
{
    if b.len() == 0 {
        assert(a + b =~= a);
    } else {
        lemma_crc_concat(init, a, b.drop_last());
        assert((a + b).drop_last() =~= a + b.drop_last());
        assert((a + b).last() == b.last());
    }
}

/// Feeding one more byte.
pub proof fn lemma_crc_push(init: u16, a: Seq<u8>, x: u8)
    ensures
        crc_from(init, a.push(x)) == crc_byte(crc_from(init, a), x),
{
    assert(a.push(x).drop_last() =~= a);
}

/// Feeding four bytes.
pub proof fn lemma_crc_four(init: u16, a: u8, b: u8, c: u8, d: u8)
    ensures
        crc_from(init, seq![a, b, c, d]) == crc_byte(crc_byte(crc_byte(crc_byte(init, a), b), c), d),
{
    let s = seq![a, b, c, d];
    lemma_crc_push(init, seq![a, b, c], d);
    lemma_crc_push(init, seq![a, b], c);
    lemma_crc_push(init, seq![a], b);
    lemma_crc_push(init, Seq::empty(), a);
    assert(Seq::<u8>::empty().push(a) =~= seq![a]);
    assert(seq![a].push(b) =~= seq![a, b]);
    assert(seq![a, b].push(c) =~= seq![a, b, c]);
    assert(seq![a, b, c].push(d) =~= s);
}

/// A running CRC computation.
pub struct Crc {
    state: u16,
}

impl Crc {
    /// The value of the register.
    pub closed spec fn state(&self) -> u16 {
        self.state
    }

    /// A register that has seen no byte.
    pub fn new() -> (r: Self)
        ensures
            r.state() == 0,
    {
        Crc { state: 0 }
    }

    /// Feeds one byte.
    pub fn push(&mut self, byte: u8)
        ensures
            final(self).state() == crc_byte(old(self).state(), byte),
    {
        let mut c: u16 = self.state ^ ((byte as u16) << 8);
        let ghost c0 = c;
        let mut i: u32 = 0;
        while i < 8
            invariant
                i <= 8,
                shifts(c0, 8) == shifts(c, (8 - i) as nat),
            decreases 8 - i,
        {
            c = if c & 0x8000 == 0 {
                c << 1
            } else {
                (c << 1) ^ 0x8005
            };
            i = i + 1;
        }
        self.state = c;
        proof {
            reveal(crc_byte);
        }
    }

    /// Feeds every byte of a slice, in order.
    pub fn recurse_over_bytes(&mut self, bytes: &[u8])
        ensures
            final(self).state() == crc_from(old(self).state(), bytes@),
    {
        let ghost init = self.state();
        let mut i: usize = 0;
        while i < bytes.len()
            invariant
                i <= bytes@.len(),
                self.state() == crc_from(init, bytes@.take(i as int)),
            decreases bytes@.len() - i,
        {
            proof {
                lemma_crc_push(init, bytes@.take(i as int), bytes@[i as int]);
                assert(bytes@.take(i as int).push(bytes@[i as int]) =~= bytes@.take(i + 1));
            }
            self.push(bytes[i]);
            i = i + 1;
        }
        assert(bytes@.take(i as int) =~= bytes@);
    }

    /// The CRC of everything fed so far.
    pub fn collapse(&self) -> (r: u16)
        ensures
            r == self.state(),
    {
        self.state
    }
}

/// Feeds every byte of a slice into `crc`, in order.
pub fn recurse_over_bytes(crc: &mut Crc, bytes: &[u8])
    ensures
        final(crc).state() == crc_from(old(crc).state(), bytes@),
{
    crc.recurse_over_bytes(bytes);
}

/// The CRC of a whole slice.
pub fn crc_of(bytes: &[u8]) -> (r: u16)
    ensures
        r == crc16(bytes@),
{
    let mut c = Crc::new();
    c.recurse_over_bytes(bytes);
    c.collapse()
}

} // verus!
