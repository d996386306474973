//! Building and parsing packets for an actuator ID fixed by a type parameter.

pub mod recv;
pub mod send;

use vstd::prelude::*;

use crate::bytes::{hi, lo, u16_to_le};
use crate::compiletime::instruction::send::Parameters;
use crate::compiletime::instruction::Instruction;
use crate::crc::crc16;
use crate::compiletime::instruction::recv::lemma_read_parse;
use crate::compiletime::instruction::Read;
use crate::control_table::Item;
use crate::parse::{Parse, Parsed};

verus! {

/// The instruction packet that sends `params` to actuator `id`, with the
/// length field `length`, CRC (little-endian) included.
pub open spec fn fixed_packet(id: u8, length: u16, instruction: u8, params: Seq<u8>) -> Seq<u8> {
    let body = send::packet_head(id, length, instruction) + params;
    body + seq![lo(crc16(body)), hi(crc16(body))]
}

/// Builds the packet that sends `parameters` to actuator `ID`.
pub fn new<Insn: Instruction, const ID: u8>(parameters: Insn::Send) -> (r: send::WithCrc<Insn, ID>)
    ensures
        r.spec_bytes() == fixed_packet(
            ID,
            send::length_for(Insn::SEND_BYTES),
            Insn::BYTE,
            parameters.spec_bytes(),
        ),
{
    let params = parameters.bytes();
    let without_crc = send::WithoutCrc::<Insn, ID>::new(parameters);
    let mut crc_state = send::WithoutCrc::<Insn, ID>::crc_init();
    crc_state.recurse_over_bytes(params.as_slice());
    let crc = u16_to_le(crc_state.collapse());
    proof {
        let head = send::packet_head(ID, send::length_for(Insn::SEND_BYTES), Insn::BYTE);
        crate::crc::lemma_crc_concat(0, head, params@);
    }
    let r = send::WithCrc { without_crc, crc };
    assert(r.spec_bytes() =~= fixed_packet(
        ID,
        send::length_for(Insn::SEND_BYTES),
        Insn::BYTE,
        r.without_crc.parameters.spec_bytes(),
    ));
    r
}

/// Reads a status packet from actuator `ID` answering `Insn` from the front
/// of `input`: its payload, the error it reports, or why it was refused, with
/// the number of bytes read; or the need for more bytes.
pub fn parse<Insn: Instruction, const ID: u8>(input: &[u8]) -> (r: Parsed<
    <Insn::Recv as Parse<u8>>::Output,
    recv::Error<Insn>,
>)
    ensures
        r == <recv::WithCrc<Insn, ID> as Parse<u8>>::spec_parse(input@),
{
    <recv::WithCrc<Insn, ID> as Parse<u8>>::parse(input)
}

/// A status packet from actuator `ID` answering a read of `BYTES` bytes is
/// read back as the bytes it carries, or as the error that its error byte
/// reports, whatever follows it.
pub proof fn law_read_answer_is_read<Address: Item, const BYTES: usize, const ID: u8>(
    error: u8,
    params: Seq<u8>,
    tail: Seq<u8>,
)
    requires
        params.len() == BYTES,
        BYTES + 11 <= usize::MAX,
    ensures
        exists|payload: crate::compiletime::instruction::recv::Read<Address, BYTES>|
            payload.spec_bytes()@ == params && #[trigger] <recv::WithCrc<
                Read<Address, BYTES>,
                ID,
            > as Parse<u8>>::spec_parse(
                recv::fixed_status_packet(
                    ID,
                    recv::status_length(<Read<Address, BYTES> as Instruction>::RECV_BYTES),
                    error,
                    params,
                ) + tail,
            ) == recv::status_outcome::<Read<Address, BYTES>>(error, payload, (BYTES + 11) as usize),
{
    let packet = recv::fixed_status_packet(
        ID,
        recv::status_length(<Read<Address, BYTES> as Instruction>::RECV_BYTES),
        error,
        params,
    );
    let rest = packet.skip(9) + tail;
    lemma_read_parse::<Address, BYTES>(rest);
    assert(rest.take(BYTES as int) =~= params);
    if let Parsed::Done(payload, _) = <crate::compiletime::instruction::recv::Read<
        Address,
        BYTES,
    > as Parse<u8>>::spec_parse(rest) {
        recv::law_fixed_status_packet_is_read::<Read<Address, BYTES>, ID>(error, params, tail, payload);
    }
}

} // verus!
