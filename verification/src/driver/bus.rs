//! A serial bus shared by actuators: which IDs are taken, and what each
//! received byte does to an exchange with one actuator.

use vstd::prelude::*;

use crate::driver::comm::Comm;
use crate::driver::IoError;
use crate::proto::packet::recv::{step_persistent, Persistent, PersistentError, Step};
use crate::proto::parse::{State, Status};
use crate::proto::Instruction;
use crate::text::{append_decimal, decimal_text};

verus! {

/// Why an exchange with an actuator failed: the link failed, or the
/// actuator reported an error in a well-formed answer.
pub enum Error<C: Comm, Output> {
    Io(IoError<C>),
    Packet(PersistentError<Output>),
}

/// Why an actuator ID cannot be registered on a bus.
#[derive(Debug, PartialEq, Eq, Clone, Copy)]
pub enum IdError {
    /// The ID is above the largest valid ID.
    InvalidId { id: u8 },
    /// Another actuator on the bus already has this ID.
    AlreadyInUse { id: u8 },
}

/// The account of an ID that cannot be registered.
pub open spec fn id_error_text(e: IdError) -> Seq<char> {
    match e {
        IdError::InvalidId { id } => "InvalidId { id: "@ + decimal_text(id as nat) + " }"@,
        IdError::AlreadyInUse { id } => "AlreadyInUse { id: "@ + decimal_text(id as nat) + " }"@,
    }
}

impl IdError {
    /// Why the ID cannot be registered.
    pub fn message(&self) -> (r: String)
        ensures
            r@ == id_error_text(*self),
    {
        let mut s = String::new();
        match self {
            IdError::InvalidId { id } => {
                s.append("InvalidId { id: ");
                append_decimal(&mut s, *id as u32);
            },
            IdError::AlreadyInUse { id } => {
                s.append("AlreadyInUse { id: ");
                append_decimal(&mut s, *id as u32);
            },
        }
        s.append(" }");
        assert(s@ =~= id_error_text(*self));
        s
    }
}

/// The IDs that no actuator has taken yet on a fresh bus: none.
pub open spec fn no_ids() -> Seq<bool> {
    Seq::new(253, |i: int| false)
}

/// What registering `id` does, given which IDs are taken: the result and
/// which IDs are taken afterwards.
pub open spec fn id_check(used: Seq<bool>, id: u8) -> (Result<(), IdError>, Seq<bool>) {
    if id >= 253 {
        (Err(IdError::InvalidId { id }), used)
    } else if used[id as int] {
        (Err(IdError::AlreadyInUse { id }), used)
    } else {
        (Ok(()), used.update(id as int, true))
    }
}

/// A serial bus, and the actuator IDs registered on it.
pub struct Bus<C: Comm> {
    comm: C,
    used_ids: [bool; 253],
}

impl<C: Comm> Bus<C> {
    /// For each valid ID, whether an actuator has registered it.
    pub closed spec fn used_ids(&self) -> Seq<bool> {
        self.used_ids@
    }

    /// The link.
    pub closed spec fn spec_comm(&self) -> C {
        self.comm
    }

    /// A bus over `comm` with no ID registered.
    pub fn new(comm: C) -> (r: Self)
        ensures
            r.used_ids() == no_ids(),
            r.spec_comm() == comm,
    {
        let r = Bus { comm, used_ids: [false; 253] };
        assert(r.used_ids() =~= no_ids());
        r
    }

    /// Registers `id`: refused if it is not a valid ID or another actuator
    /// already registered it.
    pub fn check_duplicate_id(&mut self, id: u8) -> (r: Result<(), IdError>)
        ensures
            (r, final(self).used_ids()) == id_check(old(self).used_ids(), id),
            final(self).spec_comm() == old(self).spec_comm(),
    {
        if id >= 253 {
            return Err(IdError::InvalidId { id });
        }
        let index = id as usize;
        if self.used_ids[index] {
            return Err(IdError::AlreadyInUse { id });
        }
        self.used_ids[index] = true;
        assert(self.used_ids@ =~= old(self).used_ids@.update(id as int, true));
        Ok(())
    }

    /// Changes the baud rate of the link.
    pub fn set_baud(&mut self, baud: u32)
        ensures
            final(self).spec_comm().baud() == baud,
            final(self).used_ids() == old(self).used_ids(),
    {
        self.comm.set_baud(baud)
    }

    /// The link, to send and receive over.
    pub fn link(&mut self) -> (r: &mut C)
        ensures
            *r == old(self).spec_comm(),
            final(self).spec_comm() == *final(r),
            final(self).used_ids() == old(self).used_ids(),
    {
        &mut self.comm
    }
}

/// An ID is registered at most once: after it was accepted, registering it
/// again is refused as already in use.
pub proof fn law_id_is_accepted_once(used: Seq<bool>, id: u8)
    requires
        used.len() == 253,
        id_check(used, id).0 is Ok,
    ensures
        id_check(id_check(used, id).1, id).0 == Err::<(), IdError>(IdError::AlreadyInUse { id }),
{
}

/// On a fresh bus every valid ID is accepted, and no other.
pub proof fn law_fresh_bus_accepts_valid_ids(id: u8)
    ensures
        (id_check(no_ids(), id).0 is Ok) <==> id <= crate::proto::MAX_ID,
{
}

/// What an exchange with one actuator does next: wait for another byte
/// with the updated parser, or finish.
pub enum Exchange<Insn: Instruction, C: Comm> {
    Continue(Persistent<Insn>),
    Finished(Result<Insn::Recv, Error<C, Insn::Recv>>),
}

/// What one received byte (or a receive error) does to an exchange whose
/// answer `state` is reading.
pub fn receive_byte<C: Comm, Insn: Instruction>(
    state: Persistent<Insn>,
    event: Result<u8, C::RecvError>,
) -> (r: Exchange<Insn, C>)
    ensures
        match event {
            Err(e) => r == Exchange::<Insn, C>::Finished(Err(Error::Io(IoError::Recv(e)))),
            Ok(byte) => match step_persistent::<Insn>(state@, byte) {
                Step::Next(v) => r matches Exchange::Continue(next) && next@ == v,
                Step::Done(o) => r == Exchange::<Insn, C>::Finished(Ok(o)),
                Step::Failed(e) => r == Exchange::<Insn, C>::Finished(Err(Error::Packet(e))),
            },
        },
{
    let byte = match event {
        Ok(byte) => byte,
        Err(e) => return Exchange::Finished(Err(Error::Io(IoError::Recv(e)))),
    };
    match state.push(byte) {
        Ok(Status::Complete(complete)) => Exchange::Finished(Ok(complete)),
        Ok(Status::Incomplete((updated, ()))) => Exchange::Continue(updated),
        Err(e) => Exchange::Finished(Err(Error::Packet(e))),
    }
}

/// Registering refuses exactly the IDs above the largest valid ID and the
/// IDs already taken: any other ID is accepted and becomes taken, and
/// nothing else changes.
pub proof fn law_id_check_refuses_only_taken_ids(used: Seq<bool>, id: u8, other: int)
    requires
        used.len() == 253,
    ensures
        id_check(used, id).0 == Err::<(), IdError>(IdError::InvalidId { id }) <==> id > crate::proto::MAX_ID,
        id_check(used, id).0 == Err::<(), IdError>(IdError::AlreadyInUse { id }) <==> id
            <= crate::proto::MAX_ID && used[id as int],
        (id_check(used, id).0 is Ok) <==> id <= crate::proto::MAX_ID && !used[id as int],
        id_check(used, id).1.len() == 253,
        id_check(used, id).0 is Ok ==> id_check(used, id).1[id as int],
        0 <= other < 253 && other != id ==> id_check(used, id).1[other] == used[other],
{
}

/// On a fresh bus, after one valid ID was registered, every other valid ID
/// is accepted too.
pub proof fn law_distinct_ids_are_accepted(a: u8, b: u8)
    requires
        a <= crate::proto::MAX_ID,
        b <= crate::proto::MAX_ID,
        a != b,
    ensures
        id_check(no_ids(), a).0 is Ok,
        id_check(id_check(no_ids(), a).1, b).0 is Ok,
{
}

} // verus!
