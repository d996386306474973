//! The parameters each instruction sends.

use core::marker::PhantomData;

use vstd::prelude::*;

use crate::bytes::{le16, u16_to_le};
use crate::control_table::Item;

verus! {

/// The parameter bytes of an instruction.
pub trait Parameters {
    /// The bytes, in the order they are sent.
    spec fn spec_bytes(&self) -> Seq<u8>;

    /// Writes out the bytes.
    fn bytes(&self) -> (r: Vec<u8>)
        ensures
            r@ == self.spec_bytes(),
    ;
}

/// Appends the bytes of `extra` to `v`.
pub(crate) fn extend(v: &mut Vec<u8>, extra: &[u8])
    ensures
        final(v)@ == old(v)@ + extra@,
{
    let mut i: usize = 0;
    while i < extra.len()
        invariant
            i <= extra@.len(),
            v@ == old(v)@ + extra@.take(i as int),
        decreases extra@.len() - i,
    {
        assert(extra@.take(i as int).push(extra@[i as int]) =~= extra@.take(i + 1));
        v.push(extra[i]);
        i = i + 1;
    }
    assert(extra@.take(i as int) =~= extra@);
}

/// A ping sends no parameters.
pub struct Ping;

impl Parameters for Ping {
    open spec fn spec_bytes(&self) -> Seq<u8> {
        Seq::empty()
    }

    fn bytes(&self) -> (r: Vec<u8>) {
        Vec::new()
    }
}

/// A read sends the address of the item.
pub struct Read<Address: Item> {
    address: [u8; 2],
    _phantom: PhantomData<Address>,
}

impl<Address: Item> Read<Address> {
    /// A read of the item.
    pub fn new() -> (r: Self)
        ensures
            r.spec_bytes() == le16(Address::ADDRESS as u16),
    {
        Read { address: u16_to_le(Address::ADDRESS as u16), _phantom: PhantomData }
    }
}

impl<Address: Item> Parameters for Read<Address> {
    closed spec fn spec_bytes(&self) -> Seq<u8> {
        self.address@
    }

    fn bytes(&self) -> (r: Vec<u8>) {
        let mut v = Vec::new();
        extend(&mut v, &self.address);
        v
    }
}

/// A write sends the address of the item and the bytes to write.
pub struct Write<Address: Item, const BYTES: usize> {
    address: [u8; 2],
    value: [u8; BYTES],
    _phantom: PhantomData<Address>,
}

impl<Address: Item, const BYTES: usize> Write<Address, BYTES> {
    /// A write of `value` to the item.
    pub fn new(value: [u8; BYTES]) -> (r: Self)
        requires
            BYTES == Address::BYTES,
        ensures
            r.spec_bytes() == le16(Address::ADDRESS as u16) + value@,
    {
        Write { address: u16_to_le(Address::ADDRESS as u16), value, _phantom: PhantomData }
    }
}

impl<Address: Item, const BYTES: usize> Parameters for Write<Address, BYTES> {
    closed spec fn spec_bytes(&self) -> Seq<u8> {
        self.address@ + self.value@
    }

    fn bytes(&self) -> (r: Vec<u8>) {
        let mut v = Vec::new();
        extend(&mut v, &self.address);
        extend(&mut v, &self.value);
        v
    }
}

/// A registered write sends the address of the item and the bytes to write.
pub struct RegWrite<Address: Item, const BYTES: usize> {
    address: [u8; 2],
    value: [u8; BYTES],
    _phantom: PhantomData<Address>,
}

impl<Address: Item, const BYTES: usize> RegWrite<Address, BYTES> {
    /// A registered write of `value` to the item.
    pub fn new(value: [u8; BYTES]) -> (r: Self)
        requires
            BYTES == Address::BYTES,
        ensures
            r.spec_bytes() == le16(Address::ADDRESS as u16) + value@,
    {
        RegWrite { address: u16_to_le(Address::ADDRESS as u16), value, _phantom: PhantomData }
    }
}

impl<Address: Item, const BYTES: usize> Parameters for RegWrite<Address, BYTES> {
    closed spec fn spec_bytes(&self) -> Seq<u8> {
        self.address@ + self.value@
    }

    fn bytes(&self) -> (r: Vec<u8>) {
        let mut v = Vec::new();
        extend(&mut v, &self.address);
        extend(&mut v, &self.value);
        v
    }
}

/// An action sends no parameters.
pub struct Action;

impl Parameters for Action {
    open spec fn spec_bytes(&self) -> Seq<u8> {
        Seq::empty()
    }

    fn bytes(&self) -> (r: Vec<u8>) {
        Vec::new()
    }
}

/// A factory reset sends no parameters.
pub struct FactoryReset;

impl Parameters for FactoryReset {
    open spec fn spec_bytes(&self) -> Seq<u8> {
        Seq::empty()
    }

    fn bytes(&self) -> (r: Vec<u8>) {
        Vec::new()
    }
}

/// A reboot sends no parameters.
pub struct Reboot;

impl Parameters for Reboot {
    open spec fn spec_bytes(&self) -> Seq<u8> {
        Seq::empty()
    }

    fn bytes(&self) -> (r: Vec<u8>) {
        Vec::new()
    }
}

} // verus!
