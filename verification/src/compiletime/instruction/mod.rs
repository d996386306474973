//! The instructions, each with the parameters it sends and the payload it
//! receives.

pub mod recv;
pub mod send;

use core::marker::PhantomData;

use vstd::prelude::*;

use crate::control_table::Item;
use crate::parse::Parse;

verus! {

/// An instruction, with the parameters it sends and the payload it receives.
pub trait Instruction {
    /// The instruction byte of the packet.
    const BYTE: u8;
    /// The number of parameter bytes sent.
    const SEND_BYTES: u16;
    /// The number of parameter bytes received.
    const RECV_BYTES: u16;

    /// The parameters sent.
    type Send: send::Parameters;
    /// The payload received.
    type Recv: Parse<u8>;
}

/// Asks an actuator for its model number and firmware version.
pub struct Ping;

impl Instruction for Ping {
    const BYTE: u8 = 0x01;
    const SEND_BYTES: u16 = 0;
    const RECV_BYTES: u16 = 3;

    type Send = send::Ping;
    type Recv = recv::Ping;
}

/// Reads the `BYTES` bytes of a control-table item. The packet carries the
/// item's address alone.
pub struct Read<Address: Item, const BYTES: usize>(PhantomData<Address>);

impl<Address: Item, const BYTES: usize> Instruction for Read<Address, BYTES> {
    const BYTE: u8 = 0x02;
    const SEND_BYTES: u16 = 2;
    const RECV_BYTES: u16 = BYTES as u16;

    type Send = send::Read<Address>;
    type Recv = recv::Read<Address, BYTES>;
}

/// Writes `BYTES` bytes to a control-table item.
pub struct Write<Address: Item, const BYTES: usize>(PhantomData<Address>);

impl<Address: Item, const BYTES: usize> Instruction for Write<Address, BYTES> {
    const BYTE: u8 = 0x03;
    const SEND_BYTES: u16 = (2 + BYTES) as u16;
    const RECV_BYTES: u16 = 0;

    type Send = send::Write<Address, BYTES>;
    type Recv = recv::Write<Address>;
}

/// Registers `BYTES` bytes to be written to a control-table item on the next `Action`.
pub struct RegWrite<Address: Item, const BYTES: usize>(PhantomData<Address>);

impl<Address: Item, const BYTES: usize> Instruction for RegWrite<Address, BYTES> {
    const BYTE: u8 = 0x04;
    const SEND_BYTES: u16 = (2 + BYTES) as u16;
    const RECV_BYTES: u16 = 0;

    type Send = send::RegWrite<Address, BYTES>;
    type Recv = recv::RegWrite<Address>;
}

/// Carries out the registered writes.
pub struct Action;

impl Instruction for Action {
    const BYTE: u8 = 0x05;
    const SEND_BYTES: u16 = 0;
    const RECV_BYTES: u16 = 0;

    type Send = send::Action;
    type Recv = recv::Action;
}

/// Resets the control table to the factory defaults.
pub struct FactoryReset;

impl Instruction for FactoryReset {
    const BYTE: u8 = 0x06;
    const SEND_BYTES: u16 = 0;
    const RECV_BYTES: u16 = 0;

    type Send = send::FactoryReset;
    type Recv = recv::FactoryReset;
}

/// Reboots the actuator.
pub struct Reboot;

impl Instruction for Reboot {
    const BYTE: u8 = 0x08;
    const SEND_BYTES: u16 = 0;
    const RECV_BYTES: u16 = 0;

    type Send = send::Reboot;
    type Recv = recv::Reboot;
}

/// The instruction byte of each instruction, and the numbers of parameter
/// bytes it sends and receives.
pub proof fn lemma_instruction_sizes<Address: Item, const BYTES: usize>()
    ensures
        <Ping as Instruction>::BYTE == 0x01,
        <Ping as Instruction>::SEND_BYTES == 0,
        <Ping as Instruction>::RECV_BYTES == 3,
        <Read<Address, BYTES> as Instruction>::BYTE == 0x02,
        <Read<Address, BYTES> as Instruction>::SEND_BYTES == 2,
        <Read<Address, BYTES> as Instruction>::RECV_BYTES == BYTES as u16,
        <Write<Address, BYTES> as Instruction>::BYTE == 0x03,
        BYTES < 65534 ==> <Write<Address, BYTES> as Instruction>::SEND_BYTES == (2 + BYTES) as u16,
        <Write<Address, BYTES> as Instruction>::RECV_BYTES == 0,
        <RegWrite<Address, BYTES> as Instruction>::BYTE == 0x04,
        BYTES < 65534 ==> <RegWrite<Address, BYTES> as Instruction>::SEND_BYTES == (2 + BYTES) as u16,
        <RegWrite<Address, BYTES> as Instruction>::RECV_BYTES == 0,
        <Action as Instruction>::BYTE == 0x05,
        <Action as Instruction>::SEND_BYTES == 0,
        <Action as Instruction>::RECV_BYTES == 0,
        <FactoryReset as Instruction>::BYTE == 0x06,
        <FactoryReset as Instruction>::SEND_BYTES == 0,
        <FactoryReset as Instruction>::RECV_BYTES == 0,
        <Reboot as Instruction>::BYTE == 0x08,
        <Reboot as Instruction>::SEND_BYTES == 0,
        <Reboot as Instruction>::RECV_BYTES == 0,
{
}

} // verus!
