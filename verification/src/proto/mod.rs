//! Dynamixel Protocol 2.0 packets: instruction packets built from typed
//! instructions, and status packets parsed one byte at a time.

pub mod constants;
pub mod control_table;
pub mod packet;
pub mod parse;
pub mod recv;
pub mod send;

use vstd::prelude::*;

verus! {

/// The smallest valid actuator ID.
pub const MIN_ID: u8 = 0;

/// The largest valid actuator ID.
pub const MAX_ID: u8 = 252;

/// The number of valid actuator IDs.
pub const N_IDS: u8 = 253;

/// An instruction that can be sent to an actuator.
pub trait Instruction: Sized {
    /// The instruction byte of the packet.
    const BYTE: u8;
    /// What doing this is called, for messages.
    const GERUND: &'static str;

    /// The payload of the status packet that answers this instruction.
    type Recv: recv::Receive;

    /// The parameter bytes that follow the instruction byte.
    spec fn spec_parameters(&self) -> Seq<u8>;

    /// Writes out the parameter bytes.
    fn parameters(&self) -> (r: Vec<u8>)
        ensures
            r@ == self.spec_parameters(),
    ;
}

/// Something built from a configuration value.
pub trait New: Sized {
    type Config;

    fn new(config: Self::Config) -> Self;
}

impl New for () {
    type Config = ();

    fn new(config: ()) -> Self {
    }
}

} // verus!
