//! Dynamixel Protocol 2.0: packet construction, status-packet parsing,
//! CRC-16, control-table descriptions and the bus/actuator bookkeeping
//! around them.

pub mod bytes;
pub mod compiletime;
pub mod constants;
pub mod control_table;
pub mod crc;
pub mod driver;
pub mod packet;
pub mod parse;
pub mod proto;
pub mod text;

use vstd::prelude::*;

verus! {

} // verus!
