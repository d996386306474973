//! The lock that shares a bus between actuators.

use vstd::prelude::*;

verus! {

/// A lock around a value shared between tasks. Waiting for the lock is
/// asynchronous and belongs to the code that runs the tasks.
pub trait Mutex: Sized {
    /// The value guarded.
    type Item;
    /// Why the lock could not be taken.
    type Error;

    /// A lock guarding `item`.
    fn new(item: Self::Item) -> Self;
}

} // verus!
