//! The instructions that can be sent to an actuator, with their parameters.

use core::marker::PhantomData;

use vstd::prelude::*;

use crate::bytes::{le16, u16_to_le};
use crate::proto::control_table::Item;
use crate::proto::{recv, Instruction};

verus! {

/// Appends the bytes of `extra` to `v`.
fn extend(v: &mut Vec<u8>, extra: &[u8])
    ensures
        final(v)@ == old(v)@ + extra@,
{
    let mut i: usize = 0;
    while i < extra.len()
        invariant
            i <= extra@.len(),
            v@ == old(v)@ + extra@.take(i as int),
        decreases extra@.len() - i,
    {
        assert(extra@.take(i as int).push(extra@[i as int]) =~= extra@.take(i + 1));
        v.push(extra[i]);
        i = i + 1;
    }
    assert(extra@.take(i as int) =~= extra@);
}

/// Asks an actuator for its model number and firmware version.
pub struct Ping;

impl Ping {
    /// A ping.
    pub fn new() -> Self {
        Ping
    }
}

impl Instruction for Ping {
    const BYTE: u8 = 0x01;
    const GERUND: &'static str = "Pinging";

    type Recv = recv::Ping;

    open spec fn spec_parameters(&self) -> Seq<u8> {
        Seq::empty()
    }

    fn parameters(&self) -> (r: Vec<u8>) {
        Vec::new()
    }
}

/// Reads a control-table item.
pub struct Read<Address: Item> {
    address: [u8; 2],
    length: [u8; 2],
    _phantom: PhantomData<Address>,
}

impl<Address: Item> Read<Address> {
    /// A read of the whole item.
    pub fn new() -> (r: Self)
        ensures
            r.spec_parameters() == le16(Address::ADDRESS as u16) + le16(Address::BYTES),
    {
        Read {
            address: u16_to_le(Address::ADDRESS as u16),
            length: u16_to_le(Address::BYTES),
            _phantom: PhantomData,
        }
    }
}

impl<Address: Item> Instruction for Read<Address> {
    const BYTE: u8 = 0x02;
    const GERUND: &'static str = "Reading";

    type Recv = Address::Reply;

    closed spec fn spec_parameters(&self) -> Seq<u8> {
        self.address@ + self.length@
    }

    fn parameters(&self) -> (r: Vec<u8>) {
        let mut v = Vec::new();
        extend(&mut v, &self.address);
        extend(&mut v, &self.length);
        v
    }
}

/// Writes bytes to a control-table item.
pub struct Write<Address: Item, const BYTES: usize> {
    address: [u8; 2],
    bytes: [u8; BYTES],
    _phantom: PhantomData<Address>,
}

impl<Address: Item, const BYTES: usize> Write<Address, BYTES> {
    /// A write of `bytes` at the item's address.
    pub fn new(bytes: [u8; BYTES]) -> (r: Self)
        requires
            BYTES == Address::BYTES,
        ensures
            r.spec_parameters() == le16(Address::ADDRESS as u16) + bytes@,
    {
        Write { address: u16_to_le(Address::ADDRESS as u16), bytes, _phantom: PhantomData }
    }
}

impl<Address: Item, const BYTES: usize> Instruction for Write<Address, BYTES> {
    const BYTE: u8 = 0x03;
    const GERUND: &'static str = "Writing";

    type Recv = recv::Write;

    closed spec fn spec_parameters(&self) -> Seq<u8> {
        self.address@ + self.bytes@
    }

    fn parameters(&self) -> (r: Vec<u8>) {
        let mut v = Vec::new();
        extend(&mut v, &self.address);
        extend(&mut v, &self.bytes);
        v
    }
}

/// Registers bytes to be written to a control-table item on the next `Action`.
pub struct RegWrite<Address: Item, const BYTES: usize> {
    address: [u8; 2],
    bytes: [u8; BYTES],
    _phantom: PhantomData<Address>,
}

impl<Address: Item, const BYTES: usize> RegWrite<Address, BYTES> {
    /// A registered write of `bytes` at the item's address.
    pub fn new(bytes: [u8; BYTES]) -> (r: Self)
        requires
            BYTES == Address::BYTES,
        ensures
            r.spec_parameters() == le16(Address::ADDRESS as u16) + bytes@,
    {
        RegWrite { address: u16_to_le(Address::ADDRESS as u16), bytes, _phantom: PhantomData }
    }
}

impl<Address: Item, const BYTES: usize> Instruction for RegWrite<Address, BYTES> {
    const BYTE: u8 = 0x04;
    const GERUND: &'static str = "Register-writing";

    type Recv = recv::RegWrite;

    closed spec fn spec_parameters(&self) -> Seq<u8> {
        self.address@ + self.bytes@
    }

    fn parameters(&self) -> (r: Vec<u8>) {
        let mut v = Vec::new();
        extend(&mut v, &self.address);
        extend(&mut v, &self.bytes);
        v
    }
}

/// Carries out the registered writes.
pub struct Action;

impl Action {
    /// An action.
    pub fn new() -> Self {
        Action
    }
}

impl Instruction for Action {
    const BYTE: u8 = 0x05;
    const GERUND: &'static str = "Sending action";

    type Recv = recv::Action;

    open spec fn spec_parameters(&self) -> Seq<u8> {
        Seq::empty()
    }

    fn parameters(&self) -> (r: Vec<u8>) {
        Vec::new()
    }
}

/// Resets the control table to the factory defaults.
pub struct FactoryReset;

impl FactoryReset {
    /// A factory reset.
    pub fn new() -> Self {
        FactoryReset
    }
}

impl Instruction for FactoryReset {
    const BYTE: u8 = 0x06;
    const GERUND: &'static str = "Factory-resetting";

    type Recv = recv::FactoryReset;

    open spec fn spec_parameters(&self) -> Seq<u8> {
        Seq::empty()
    }

    fn parameters(&self) -> (r: Vec<u8>) {
        Vec::new()
    }
}

/// Reboots the actuator.
pub struct Reboot;

impl Reboot {
    /// A reboot.
    pub fn new() -> Self {
        Reboot
    }
}

impl Instruction for Reboot {
    const BYTE: u8 = 0x08;
    const GERUND: &'static str = "Rebooting";

    type Recv = recv::Reboot;

    open spec fn spec_parameters(&self) -> Seq<u8> {
        Seq::empty()
    }

    fn parameters(&self) -> (r: Vec<u8>) {
        Vec::new()
    }
}

/// The instruction byte of each instruction.
pub proof fn lemma_instruction_bytes<Address: Item, const BYTES: usize>()
    ensures
        <Ping as Instruction>::BYTE == 0x01,
        <Read<Address> as Instruction>::BYTE == 0x02,
        <Write<Address, BYTES> as Instruction>::BYTE == 0x03,
        <RegWrite<Address, BYTES> as Instruction>::BYTE == 0x04,
        <Action as Instruction>::BYTE == 0x05,
        <FactoryReset as Instruction>::BYTE == 0x06,
        <Reboot as Instruction>::BYTE == 0x08,
{
}

} // verus!
