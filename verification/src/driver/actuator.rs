//! The handling of errors that an actuator reports, and the choices made
//! while configuring one.

use vstd::prelude::*;

use crate::driver::bus;
use crate::driver::comm::Comm;
use crate::driver::mutex::Mutex;
use crate::driver::{ActuatorError, BusError, IoError};
use crate::proto::packet::recv::{PersistentError, SoftwareError};
use crate::proto::recv::{hardware_flags, HardwareErrorStatus, Read};

verus! {

/// Why an exchange with an actuator failed, with a reported hardware error
/// completed by what the actuator says of it.
pub enum Error<C: Comm> {
    Io(IoError<C>),
    Software(SoftwareError),
    Hardware(HardwareErrorStatus),
    /// A hardware error was reported, but what it was could not be read.
    HardwareUnknown,
}

/// The profile acceleration that an actuator is reset to: snappy enough
/// without seeming digital.
pub const DEFAULT_PROFILE_ACCELERATION: u32 = 128;

/// The Torque Enable value that enables torque.
pub const TORQUE_ON: u8 = 1;

/// The Torque Enable value that disables torque.
pub const TORQUE_OFF: u8 = 0;

/// Where the handling of a failed exchange stands. A reported hardware
/// error is read from the actuator, which is then rebooted and has its
/// torque enabled again.
pub enum Recovery<C: Comm> {
    /// Read the actuator's Hardware Error Status item.
    ReadHardwareErrorStatus,
    /// Reboot the actuator, then return the error.
    Reboot(Error<C>),
    /// Enable the actuator's torque (until that succeeds), then return the error.
    EnableTorque(Error<C>),
    /// Return the error.
    Done(Error<C>),
}

/// How the handling of a failed exchange begins.
pub open spec fn first_step<C: Comm, Output>(e: bus::Error<C, Output>) -> Recovery<C> {
    match e {
        bus::Error::Io(io) => Recovery::Done(Error::Io(io)),
        bus::Error::Packet(PersistentError::Software(s)) => Recovery::Done(Error::Software(s)),
        bus::Error::Packet(PersistentError::Hardware(_)) => Recovery::ReadHardwareErrorStatus,
    }
}

/// Begins handling a failed exchange: an I/O or software error is returned
/// as it is, and a hardware error is read from the actuator first.
pub fn start_recovery<C: Comm, Output>(e: bus::Error<C, Output>) -> (r: Recovery<C>)
    ensures
        r == first_step(e),
{
    match e {
        bus::Error::Io(io) => Recovery::Done(Error::Io(io)),
        bus::Error::Packet(PersistentError::Software(s)) => Recovery::Done(Error::Software(s)),
        bus::Error::Packet(PersistentError::Hardware(_)) => Recovery::ReadHardwareErrorStatus,
    }
}

/// Whether `e` is what the answer `result` to reading the Hardware Error
/// Status item says: the errors of the byte read (also when the answer
/// itself reports a hardware error), or an unknown hardware error when the
/// item could not be read.
pub open spec fn reads_hardware_error<C: Comm, M: Mutex>(
    result: Result<Read<1>, BusError<C, M, Read<1>>>,
    e: Error<C>,
) -> bool {
    match result {
        Ok(read) => e matches Error::Hardware(s) && s.flags() == hardware_flags(read.bytes[0]),
        Err(BusError::Packet(bus::Error::Packet(PersistentError::Hardware(read)))) => e matches Error::Hardware(
            s,
        ) && s.flags() == hardware_flags(read.bytes[0]),
        Err(_) => e is HardwareUnknown,
    }
}

/// After reading the Hardware Error Status item: reboot, then return what
/// it says.
pub fn after_hardware_read<C: Comm, M: Mutex>(
    result: Result<Read<1>, BusError<C, M, Read<1>>>,
) -> (r: Recovery<C>)
    ensures
        r matches Recovery::Reboot(e) && reads_hardware_error(result, e),
{
    let error = match result {
        Ok(read) => Error::Hardware(HardwareErrorStatus::parse_byte(read.bytes[0])),
        Err(BusError::Packet(bus::Error::Packet(PersistentError::Hardware(read)))) => Error::Hardware(
            HardwareErrorStatus::parse_byte(read.bytes[0]),
        ),
        Err(_) => Error::HardwareUnknown,
    };
    Recovery::Reboot(error)
}

/// After rebooting: enable torque again if the reboot succeeded, and
/// otherwise return the error at once.
pub fn after_reboot<C: Comm, M: Mutex>(error: Error<C>, result: Result<(), BusError<C, M, ()>>) -> (r:
    Recovery<C>)
    ensures
        result is Ok ==> r == Recovery::EnableTorque(error),
        result is Err ==> r == Recovery::Done(error),
{
    match result {
        Ok(()) => Recovery::EnableTorque(error),
        Err(_) => Recovery::Done(error),
    }
}

/// After trying to enable torque: return the error once that succeeded,
/// and otherwise try again.
pub fn after_enable_torque<C: Comm, M: Mutex>(
    error: Error<C>,
    result: Result<(), BusError<C, M, ()>>,
) -> (r: Recovery<C>)
    ensures
        result is Ok ==> r == Recovery::Done(error),
        result is Err ==> r == Recovery::EnableTorque(error),
{
    match result {
        Ok(()) => Recovery::Done(error),
        Err(_) => Recovery::EnableTorque(error),
    }
}

/// What to do after writing `max` as the Profile Velocity.
pub enum MaxVelocity<C: Comm, M: Mutex> {
    /// The value was written.
    Written,
    /// The value was out of range: try this one.
    Retry(u32),
    /// Writing failed otherwise.
    Failed(ActuatorError<C, M>),
}

/// Decides what follows writing `max` as the Profile Velocity: a value that
/// the actuator finds out of range is halved and tried again.
pub fn after_profile_velocity_write<C: Comm, M: Mutex>(
    max: u32,
    result: Result<(), ActuatorError<C, M>>,
) -> (r: MaxVelocity<C, M>)
    ensures
        match result {
            Ok(()) => r is Written,
            Err(ActuatorError::Packet(Error::Software(SoftwareError::DataRangeError))) => r
                == MaxVelocity::<C, M>::Retry(max / 2),
            Err(e) => r == MaxVelocity::<C, M>::Failed(e),
        },
{
    match result {
        Ok(()) => MaxVelocity::Written,
        Err(ActuatorError::Packet(Error::Software(SoftwareError::DataRangeError))) => {
            let half = max >> 1;
            assert(half == max / 2) by (bit_vector)
                requires
                    half == max >> 1,
            ;
            MaxVelocity::Retry(half)
        },
        Err(e) => MaxVelocity::Failed(e),
    }
}

/// An I/O error (in sending or in receiving) and a software error are
/// returned as they are, at once; only a reported hardware error leads to
/// reading the actuator's Hardware Error Status.
pub proof fn law_only_hardware_errors_are_read<C: Comm, Output>(
    io: IoError<C>,
    software: SoftwareError,
    e: bus::Error<C, Output>,
)
    ensures
        first_step::<C, Output>(bus::Error::Io(io)) == Recovery::<C>::Done(Error::Io(io)),
        first_step::<C, Output>(bus::Error::Packet(PersistentError::Software(software)))
            == Recovery::<C>::Done(Error::Software(software)),
        (first_step(e) is ReadHardwareErrorStatus) <==> (e matches bus::Error::Packet(
            PersistentError::Hardware(_),
        )),
        !(first_step(e) is Reboot) && !(first_step(e) is EnableTorque),
{
}

} // verus!
