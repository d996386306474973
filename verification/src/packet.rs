//! Packets for an actuator ID fixed by a type parameter, read from a byte
//! stream that may hold bytes which are not part of the awaited packet.

use vstd::prelude::*;

use vstd::slice::slice_subrange;

use crate::compiletime::instruction::send::Parameters;
use crate::compiletime::instruction::Instruction;
use crate::compiletime::packet::recv::{
    self, fixed_status_packet, law_broken_header_is_refused, law_fixed_status_packet_is_read, law_non_header_byte_is_refused,
    lemma_failure_reads_a_byte, status_length, status_outcome, SoftwareError,
};
use crate::compiletime::packet::{fixed_packet, send};
use crate::parse::{after, Parse, Parsed};
use crate::proto::packet::recv::software_error_text;

verus! {

/// An error that an actuator reported in a status packet that was read.
#[derive(Clone, Copy, Debug, PartialEq, Eq)]
pub enum Error {
    Software(SoftwareError),
    Hardware,
}

/// What each reported error means.
pub open spec fn error_text(e: Error) -> Seq<char> {
    match e {
        Error::Software(s) => software_error_text(s),
        Error::Hardware => "Hardware error reported (details require a separate request)"@,
    }
}

impl Error {
    /// What the error means.
    pub fn description(&self) -> (r: &'static str)
        ensures
            r@ == error_text(*self),
    {
        match self {
            Error::Software(e) => e.description(),
            Error::Hardware => "Hardware error reported (details require a separate request)",
        }
    }
}

/// Builds the packet that sends `parameters` to actuator `ID`.
pub fn new<Insn: Instruction, const ID: u8>(parameters: Insn::Send) -> (r: send::WithCrc<Insn, ID>)
    ensures
        r.spec_bytes() == fixed_packet(
            ID,
            send::length_for(Insn::SEND_BYTES),
            Insn::BYTE,
            parameters.spec_bytes(),
        ),
{
    crate::compiletime::packet::new::<Insn, ID>(parameters)
}

/// `p` with `k` more bytes counted as read.
pub open spec fn shifted<O, E>(p: Parsed<O, E>, k: usize) -> Parsed<O, E> {
    match p {
        Parsed::Done(o, m) => Parsed::Done(o, (k + m) as usize),
        Parsed::Failed(e, m) => Parsed::Failed(e, (k + m) as usize),
        Parsed::NeedMore => Parsed::NeedMore,
    }
}

/// What reading a status packet from actuator `ID` answering `Insn` from the
/// front of `input` gives when every malformed packet (or one whose CRC does
/// not match) is skipped and reading starts again after it: the payload or
/// the reported error, with the number of bytes read in all; or the need for
/// more bytes.
pub open spec fn read_skipping<Insn: Instruction, const ID: u8>(input: Seq<u8>) -> Parsed<
    <Insn::Recv as Parse<u8>>::Output,
    Error,
>
    decreases input.len(),
{
    match <recv::WithCrc<Insn, ID> as Parse<u8>>::spec_parse(input) {
        Parsed::NeedMore => Parsed::NeedMore,
        Parsed::Done(o, n) => Parsed::Done(o, n),
        Parsed::Failed(recv::Error::Software(e), n) => Parsed::Failed(Error::Software(e), n),
        Parsed::Failed(recv::Error::Hardware, n) => Parsed::Failed(Error::Hardware, n),
        Parsed::Failed(recv::Error::Parsing(_), n) => if 1 <= n <= input.len() {
            shifted(read_skipping::<Insn, ID>(after(input, n)), n)
        } else {
            Parsed::NeedMore
        },
    }
}

/// Reading never counts more bytes than were given.
pub proof fn lemma_read_skipping_within<Insn: Instruction, const ID: u8>(input: Seq<u8>)
    requires
        input.len() <= usize::MAX,
    ensures
        match read_skipping::<Insn, ID>(input) {
            Parsed::Done(_, m) => 1 <= m <= input.len(),
            Parsed::Failed(_, m) => 1 <= m <= input.len(),
            Parsed::NeedMore => true,
        },
    decreases input.len(),
{
    lemma_failure_reads_a_byte::<Insn, ID>(input);
    if let Parsed::Failed(recv::Error::Parsing(_), n) = <recv::WithCrc<Insn, ID> as Parse<u8>>::spec_parse(input) {
        lemma_read_skipping_within::<Insn, ID>(after(input, n));
    }
}

/// Reads a status packet from actuator `ID` answering `Insn` from the front
/// of `input`, skipping every malformed packet (or one whose CRC does not
/// match) and reading again after it.
#[verifier::rlimit(40)]
pub fn parse<Insn: Instruction, const ID: u8>(input: &[u8]) -> (r: Parsed<
    <Insn::Recv as Parse<u8>>::Output,
    Error,
>)
    ensures
        r == read_skipping::<Insn, ID>(input@),
{
    let mut pos: usize = 0;
    assert(after(input@, 0) =~= input@);
    loop
        invariant
            pos <= input.len(),
            read_skipping::<Insn, ID>(input@) == shifted(
                read_skipping::<Insn, ID>(after(input@, pos)),
                pos,
            ),
        decreases input.len() - pos,
    {
        let rest = slice_subrange(input, pos, input.len());
        proof {
            lemma_failure_reads_a_byte::<Insn, ID>(rest@);
        }
        match <recv::WithCrc<Insn, ID> as Parse<u8>>::parse(rest) {
            Parsed::NeedMore => return Parsed::NeedMore,
            Parsed::Done(o, n) => return Parsed::Done(o, pos + n),
            Parsed::Failed(recv::Error::Software(e), n) => return Parsed::Failed(
                Error::Software(e),
                pos + n,
            ),
            Parsed::Failed(recv::Error::Hardware, n) => return Parsed::Failed(Error::Hardware, pos + n),
            Parsed::Failed(recv::Error::Parsing(_), n) => {
                proof {
                    let next = after(input@, (pos + n) as usize);
                    assert(after(rest@, n) =~= next);
                    lemma_read_skipping_within::<Insn, ID>(next);
                }
                pos = pos + n;
            },
        }
    }
}

/// Bytes that cannot begin a status packet (no first header byte among
/// them) are skipped: what follows them is read as if they were not there.
pub proof fn law_junk_is_skipped<Insn: Instruction, const ID: u8>(junk: Seq<u8>, rest: Seq<u8>)
    requires
        forall|i: int| 0 <= i < junk.len() ==> junk[i] != 0xFF,
        junk.len() + rest.len() <= usize::MAX,
    ensures
        read_skipping::<Insn, ID>(junk + rest) == shifted(
            read_skipping::<Insn, ID>(rest),
            junk.len() as usize,
        ),
    decreases junk.len(),
{
    lemma_read_skipping_within::<Insn, ID>(rest);
    if junk.len() == 0 {
        assert(junk + rest =~= rest);
    } else {
        let input = junk + rest;
        law_non_header_byte_is_refused::<Insn, ID>(input);
        assert(after(input, 1) =~= junk.drop_first() + rest);
        law_junk_is_skipped::<Insn, ID>(junk.drop_first(), rest);
    }
}

/// A status packet from actuator `ID` after bytes that cannot begin one is
/// read: its payload or the error it reports, after the junk and exactly the
/// packet's own bytes, whatever follows it (provided the payload parser
/// reads exactly the packet's parameter bytes).
pub proof fn law_status_packet_after_junk_is_read<Insn: Instruction, const ID: u8>(
    junk: Seq<u8>,
    error: u8,
    params: Seq<u8>,
    tail: Seq<u8>,
    payload: <Insn::Recv as Parse<u8>>::Output,
)
    requires
        forall|i: int| 0 <= i < junk.len() ==> junk[i] != 0xFF,
        <Insn::Recv as Parse<u8>>::spec_parse(
            fixed_status_packet(ID, status_length(Insn::RECV_BYTES), error, params).skip(9) + tail,
        ) == Parsed::<<Insn::Recv as Parse<u8>>::Output, <Insn::Recv as Parse<u8>>::Error>::Done(
            payload,
            params.len() as usize,
        ),
        crate::proto::packet::recv::spec_check(error) is Ok,
        junk.len() + params.len() + 11 + tail.len() <= usize::MAX,
    ensures
        read_skipping::<Insn, ID>(
            junk + fixed_status_packet(ID, status_length(Insn::RECV_BYTES), error, params) + tail,
        ) == shifted(
            match status_outcome::<Insn>(error, payload, (params.len() + 11) as usize) {
                Parsed::Done(o, n) => Parsed::Done(o, n),
                Parsed::Failed(recv::Error::Software(e), n) => Parsed::Failed(Error::Software(e), n),
                Parsed::Failed(_, n) => Parsed::Failed(Error::Hardware, n),
                Parsed::NeedMore => Parsed::NeedMore,
            },
            junk.len() as usize,
        ),
{
    let packet = fixed_status_packet(ID, status_length(Insn::RECV_BYTES), error, params);
    law_fixed_status_packet_is_read::<Insn, ID>(error, params, tail, payload);
    assert(junk + packet + tail =~= junk + (packet + tail));
    law_junk_is_skipped::<Insn, ID>(junk, packet + tail);
}

/// The two ways of building an instruction packet lay out the same bytes:
/// the packet for an ID known at run time is the packet for the same ID
/// fixed by a type parameter.
pub proof fn law_instruction_layouts_agree(id: u8, instruction: u8, params: Seq<u8>)
    requires
        params.len() + 3 < 65536,
    ensures
        crate::proto::packet::instruction_packet(id, instruction, params) == fixed_packet(
            id,
            send::length_for(params.len() as u16),
            instruction,
            params,
        ),
{
    assert(crate::proto::packet::instruction_body(id, instruction, params) =~= send::packet_head(
        id,
        send::length_for(params.len() as u16),
        instruction,
    ) + params);
}

/// The two ways of reading a status packet expect the same bytes: the
/// status packet that the persistent parser reads is the one that the
/// parser for an ID fixed by a type parameter reads.
pub proof fn law_status_layouts_agree(id: u8, error: u8, params: Seq<u8>)
    requires
        params.len() + 4 < 65536,
    ensures
        crate::proto::packet::recv::status_packet(id, error, params) == fixed_status_packet(
            id,
            status_length(params.len() as u16),
            error,
            params,
        ),
{
    assert(crate::proto::packet::recv::status_body(
        id,
        ((params.len() + 4) % 65536) as u16,
        error,
        params,
    ) =~= crate::compiletime::packet::recv::status_head(id, status_length(params.len() as u16))
        + seq![error] + params);
}

/// Whether no byte of `bytes` after its first two is a first header byte,
/// so that the first two bytes are the only place where a packet can start.
pub open spec fn starts_only_at_front(bytes: Seq<u8>) -> bool {
    forall|i: int| 2 <= i < bytes.len() ==> bytes[i] != 0xFF
}

/// Reading that starts in the middle of a packet that begins with two first
/// header bytes and holds no other: what is left of the packet is skipped,
/// and what follows it is read as if reading had started there.
pub proof fn law_partial_packet_is_skipped<Insn: Instruction, const ID: u8>(
    packet: Seq<u8>,
    d: int,
    rest: Seq<u8>,
)
    requires
        packet.len() >= 3,
        packet[0] == 0xFF,
        packet[1] == 0xFF,
        packet[2] != 0xFF,
        starts_only_at_front(packet),
        1 <= d < packet.len(),
        packet.len() + rest.len() <= usize::MAX,
    ensures
        read_skipping::<Insn, ID>(packet.skip(d) + rest) == shifted(
            read_skipping::<Insn, ID>(rest),
            (packet.len() - d) as usize,
        ),
{
    lemma_read_skipping_within::<Insn, ID>(rest);
    if d >= 2 {
        law_junk_is_skipped::<Insn, ID>(packet.skip(d), rest);
    } else {
        let input = packet.skip(1) + rest;
        assert(input[0] == 0xFF && input[1] == packet[2]);
        law_broken_header_is_refused::<Insn, ID>(input);
        assert(after(input, 2) =~= packet.skip(3) + rest);
        law_junk_is_skipped::<Insn, ID>(packet.skip(3), rest);
    }
}

/// A status packet from actuator `ID` whose bytes after the first two hold
/// no first header byte is read however far into an earlier copy of it
/// reading starts: its payload or the error it reports, after the rest of
/// that copy and the packet itself (provided the payload parser reads
/// exactly the packet's parameter bytes).
pub proof fn law_status_packet_is_read_from_mid_packet<Insn: Instruction, const ID: u8>(
    d: int,
    error: u8,
    params: Seq<u8>,
    tail: Seq<u8>,
    payload: <Insn::Recv as Parse<u8>>::Output,
)
    requires
        starts_only_at_front(fixed_status_packet(ID, status_length(Insn::RECV_BYTES), error, params)),
        1 <= d < params.len() + 11,
        <Insn::Recv as Parse<u8>>::spec_parse(
            fixed_status_packet(ID, status_length(Insn::RECV_BYTES), error, params).skip(9) + tail,
        ) == Parsed::<<Insn::Recv as Parse<u8>>::Output, <Insn::Recv as Parse<u8>>::Error>::Done(
            payload,
            params.len() as usize,
        ),
        crate::proto::packet::recv::spec_check(error) is Ok,
        2 * (params.len() + 11) + tail.len() <= usize::MAX,
    ensures
        ({
            let packet = fixed_status_packet(ID, status_length(Insn::RECV_BYTES), error, params);
            read_skipping::<Insn, ID>(packet.skip(d) + packet + tail) == shifted(
                match status_outcome::<Insn>(error, payload, (params.len() + 11) as usize) {
                    Parsed::Done(o, n) => Parsed::Done(o, n),
                    Parsed::Failed(recv::Error::Software(e), n) => Parsed::Failed(Error::Software(e), n),
                    Parsed::Failed(_, n) => Parsed::Failed(Error::Hardware, n),
                    Parsed::NeedMore => Parsed::NeedMore,
                },
                (params.len() + 11 - d) as usize,
            )
        }),
{
    let packet = fixed_status_packet(ID, status_length(Insn::RECV_BYTES), error, params);
    assert(packet.skip(d) + packet + tail =~= packet.skip(d) + (packet + tail));
    law_partial_packet_is_skipped::<Insn, ID>(packet, d, packet + tail);
    law_status_packet_after_junk_is_read::<Insn, ID>(Seq::empty(), error, params, tail, payload);
    assert(Seq::<u8>::empty() + packet + tail =~= packet + tail);
}

} // verus!
