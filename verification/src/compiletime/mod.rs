//! Packets for an actuator ID and an instruction fixed by type parameters.

pub mod instruction;
pub mod packet;
