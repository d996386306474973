//! Driving actuators over a shared serial bus: the bookkeeping of the bus,
//! the answers awaited from it, and the handling of the errors it reports.

pub mod actuator;
pub mod bus;
pub mod comm;
pub mod mutex;

use vstd::prelude::*;

verus! {

/// An error of the serial link itself.
pub enum IoError<C: comm::Comm> {
    Send(C::SendError),
    Recv(C::RecvError),
}

/// An error while using the bus: it could not be locked, or the exchange
/// failed.
pub enum BusError<C: comm::Comm, M: mutex::Mutex, Output> {
    Mutex(M::Error),
    Packet(bus::Error<C, Output>),
}

/// An error while using an actuator: the bus could not be locked, or the
/// actuator's answer (or its absence) reports an error.
pub enum ActuatorError<C: comm::Comm, M: mutex::Mutex> {
    Mutex(M::Error),
    Packet(actuator::Error<C>),
}

} // verus!
