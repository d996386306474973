//! The serial link that a bus talks over.

use vstd::prelude::*;

verus! {

/// A serial link to the actuators. Sending a packet and waiting for the
/// answer's bytes are asynchronous and belong to the code that runs the
/// link; what the bus logic needs of a link is named here.
pub trait Comm {
    /// Why a packet could not be sent.
    type SendError;
    /// Why a byte could not be received.
    type RecvError;

    /// The baud rate that the link was last set to.
    spec fn baud(&self) -> u32;

    /// Changes the baud rate of the link.
    fn set_baud(&mut self, baud: u32)
        ensures
            final(self).baud() == baud,
    ;
}

} // verus!
