//! The payload each instruction receives.

use core::marker::PhantomData;

use vstd::prelude::*;

use vstd::slice::slice_subrange;

use crate::bytes::{array_from_slice, array_of, from_le16, u16_from_le};
use crate::control_table::Item;
use crate::parse::{Parse, Parsed};

verus! {

/// The answer to a ping.
#[derive(Debug, PartialEq, Eq, Clone, Copy)]
pub struct Ping {
    pub model_number: u16,
    pub firmware_version: u8,
}

impl Parse<u8> for Ping {
    type Output = Self;
    type Error = ();

    open spec fn spec_parse(input: Seq<u8>) -> Parsed<Self, ()> {
        if input.len() < 3 {
            Parsed::NeedMore
        } else {
            Parsed::Done(
                Ping { model_number: from_le16(input[0], input[1]), firmware_version: input[2] },
                3,
            )
        }
    }

    proof fn lemma_parse_within(input: Seq<u8>) {
    }

    fn parse(input: &[u8]) -> (r: Parsed<Self, ()>) {
        if input.len() < 3 {
            Parsed::NeedMore
        } else {
            Parsed::Done(
                Ping { model_number: u16_from_le(input[0], input[1]), firmware_version: input[2] },
                3,
            )
        }
    }
}

/// The `BYTES` bytes read from a control-table item.
#[derive(Debug, PartialEq, Eq)]
pub struct Read<Address: Item, const BYTES: usize> {
    pub bytes: [u8; BYTES],
    _phantom: PhantomData<Address>,
}

impl<Address: Item, const BYTES: usize> Read<Address, BYTES> {
    /// The bytes read.
    pub closed spec fn spec_bytes(&self) -> [u8; BYTES] {
        self.bytes
    }
}

/// The answer to a read carrying `bytes`.
pub closed spec fn read_of<Address: Item, const BYTES: usize>(bytes: [u8; BYTES]) -> Read<Address, BYTES> {
    Read { bytes, _phantom: PhantomData }
}

/// The answer to a read holds the bytes it was made with.
pub proof fn lemma_read_of<Address: Item, const BYTES: usize>(bytes: [u8; BYTES])
    ensures
        read_of::<Address, BYTES>(bytes).spec_bytes() == bytes,
{
}

impl<Address: Item, const BYTES: usize> Parse<u8> for Read<Address, BYTES> {
    type Output = Self;
    type Error = ();

    open spec fn spec_parse(input: Seq<u8>) -> Parsed<Self, ()> {
        if input.len() < BYTES {
            Parsed::NeedMore
        } else {
            Parsed::Done(
                read_of::<Address, BYTES>(array_of::<BYTES>(input.take(BYTES as int))),
                BYTES,
            )
        }
    }

    proof fn lemma_parse_within(input: Seq<u8>) {
    }

    fn parse(input: &[u8]) -> (r: Parsed<Self, ()>) {
        if input.len() < BYTES {
            Parsed::NeedMore
        } else {
            let front = slice_subrange(input, 0, BYTES);
            assert(front@ =~= input@.take(BYTES as int));
            Parsed::Done(Read { bytes: array_from_slice::<BYTES>(front), _phantom: PhantomData }, BYTES)
        }
    }
}

/// Reading the answer to a read takes its `BYTES` bytes as they are, once
/// that many bytes have come.
pub proof fn lemma_read_parse<Address: Item, const BYTES: usize>(input: Seq<u8>)
    ensures
        input.len() < BYTES ==> <Read<Address, BYTES> as Parse<u8>>::spec_parse(input) is NeedMore,
        input.len() >= BYTES ==> (<Read<Address, BYTES> as Parse<u8>>::spec_parse(input) matches Parsed::Done(
            r,
            n,
        ) && n == BYTES && r.spec_bytes()@ == input.take(BYTES as int)),
{
    if input.len() >= BYTES {
        crate::bytes::lemma_array_exists::<BYTES>(input.take(BYTES as int));
    }
}

/// The (empty) answer to a write.
#[derive(Debug, PartialEq, Eq)]
pub struct Write<Address: Item>(PhantomData<Address>);

impl<Address: Item> Write<Address> {
    /// The answer to a write.
    pub fn new() -> (r: Self)
        ensures
            r == write_answer::<Address>(),
    {
        Write(PhantomData)
    }
}

/// The answer to a write.
pub closed spec fn write_answer<Address: Item>() -> Write<Address> {
    Write(PhantomData)
}

impl<Address: Item> Parse<u8> for Write<Address> {
    type Output = Self;
    type Error = ();

    open spec fn spec_parse(input: Seq<u8>) -> Parsed<Self, ()> {
        Parsed::Done(write_answer::<Address>(), 0)
    }

    proof fn lemma_parse_within(input: Seq<u8>) {
    }

    fn parse(input: &[u8]) -> (r: Parsed<Self, ()>) {
        Parsed::Done(Self::new(), 0)
    }
}

/// The (empty) answer to a registered write.
#[derive(Debug, PartialEq, Eq)]
pub struct RegWrite<Address: Item>(PhantomData<Address>);

impl<Address: Item> RegWrite<Address> {
    /// The answer to a registered write.
    pub fn new() -> (r: Self)
        ensures
            r == reg_write_answer::<Address>(),
    {
        RegWrite(PhantomData)
    }
}

/// The answer to a registered write.
pub closed spec fn reg_write_answer<Address: Item>() -> RegWrite<Address> {
    RegWrite(PhantomData)
}

impl<Address: Item> Parse<u8> for RegWrite<Address> {
    type Output = Self;
    type Error = ();

    open spec fn spec_parse(input: Seq<u8>) -> Parsed<Self, ()> {
        Parsed::Done(reg_write_answer::<Address>(), 0)
    }

    proof fn lemma_parse_within(input: Seq<u8>) {
    }

    fn parse(input: &[u8]) -> (r: Parsed<Self, ()>) {
        Parsed::Done(Self::new(), 0)
    }
}

/// The (empty) answer to an action.
#[derive(Debug, PartialEq, Eq)]
pub struct Action;

impl Parse<u8> for Action {
    type Output = Self;
    type Error = ();

    open spec fn spec_parse(input: Seq<u8>) -> Parsed<Self, ()> {
        Parsed::Done(Action, 0)
    }

    proof fn lemma_parse_within(input: Seq<u8>) {
    }

    fn parse(input: &[u8]) -> (r: Parsed<Self, ()>) {
        Parsed::Done(Action, 0)
    }
}

/// The (empty) answer to a factory reset.
#[derive(Debug, PartialEq, Eq)]
pub struct FactoryReset;

impl Parse<u8> for FactoryReset {
    type Output = Self;
    type Error = ();

    open spec fn spec_parse(input: Seq<u8>) -> Parsed<Self, ()> {
        Parsed::Done(FactoryReset, 0)
    }

    proof fn lemma_parse_within(input: Seq<u8>) {
    }

    fn parse(input: &[u8]) -> (r: Parsed<Self, ()>) {
        Parsed::Done(FactoryReset, 0)
    }
}

/// The (empty) answer to a reboot.
#[derive(Debug, PartialEq, Eq)]
pub struct Reboot;

impl Parse<u8> for Reboot {
    type Output = Self;
    type Error = ();

    open spec fn spec_parse(input: Seq<u8>) -> Parsed<Self, ()> {
        Parsed::Done(Reboot, 0)
    }

    proof fn lemma_parse_within(input: Seq<u8>) {
    }

    fn parse(input: &[u8]) -> (r: Parsed<Self, ()>) {
        Parsed::Done(Reboot, 0)
    }
}

} // verus!
