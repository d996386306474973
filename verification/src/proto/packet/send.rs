//! Instruction packets as they are sent.

use vstd::prelude::*;

use crate::bytes::u16_to_le;
use crate::crc::Crc;
use crate::proto::Instruction;

verus! {

/// An instruction packet up to (not including) its CRC.
pub struct WithoutCrc<Insn: Instruction> {
    pub(crate) header: (u8, u8, u8),
    pub(crate) reserved: u8,
    pub(crate) id: u8,
    pub(crate) length: [u8; 2],
    pub(crate) instruction: u8,
    pub(crate) parameters: Insn,
}

/// The length field of an instruction packet with `n` parameter bytes.
pub open spec fn instruction_length(n: nat) -> u16 {
    ((n + 3) % 65536) as u16
}

/// The length field of an instruction packet with `n` parameter bytes.
pub(crate) fn instruction_length_of(n: usize) -> (r: u16)
    ensures
        r == instruction_length(n as nat),
{
    (((n % 65536) as u32 + 3) % 65536) as u16
}

impl<Insn: Instruction> WithoutCrc<Insn> {
    /// The bytes of this part of the packet.
    pub closed spec fn spec_bytes(&self) -> Seq<u8> {
        seq![self.header.0, self.header.1, self.header.2, self.reserved, self.id]
            + self.length@ + seq![self.instruction] + self.parameters.spec_parameters()
    }

    /// The packet for actuator `id`, up to its CRC.
    pub fn new(id: u8, parameters: Insn) -> (r: Self)
        ensures
            r.spec_bytes() == super::instruction_body(id, Insn::BYTE, parameters.spec_parameters()),
            r.spec_parameters() == parameters,
    {
        let length = instruction_length_of(parameters.parameters().len());
        let r = WithoutCrc {
            header: (0xFF, 0xFF, 0xFD),
            reserved: 0x00,
            id,
            length: u16_to_le(length),
            instruction: Insn::BYTE,
            parameters,
        };
        assert(r.spec_bytes() =~= super::instruction_body(id, Insn::BYTE, parameters.spec_parameters()));
        r
    }

    /// The parameters of the packet.
    pub closed spec fn spec_parameters(&self) -> Insn {
        self.parameters
    }

    /// The CRC register after the header and reserved byte.
    pub fn crc_init() -> (r: Crc)
        ensures
            r.state() == super::header_crc(),
    {
        super::crc_init()
    }
}

/// An instruction packet, CRC included.
pub struct WithCrc<Insn: Instruction> {
    pub(crate) without_crc: WithoutCrc<Insn>,
    pub(crate) crc: [u8; 2],
    pub(crate) buffer: Vec<u8>,
}

impl<Insn: Instruction> WithCrc<Insn> {
    #[verifier::type_invariant]
    pub(crate) closed spec fn buffer_holds_packet(self) -> bool {
        self.buffer@ == self.without_crc.spec_bytes() + self.crc@
    }

    /// The bytes of the packet.
    pub closed spec fn spec_bytes(&self) -> Seq<u8> {
        self.without_crc.spec_bytes() + self.crc@
    }

    /// Puts together a packet from its parts and the buffer that holds them.
    pub(crate) fn assemble(without_crc: WithoutCrc<Insn>, crc: [u8; 2], buffer: Vec<u8>) -> (r: Self)
        requires
            buffer@ == without_crc.spec_bytes() + crc@,
        ensures
            r.spec_bytes() == without_crc.spec_bytes() + crc@,
    {
        WithCrc { without_crc, crc, buffer }
    }

    /// The bytes of the packet, ready to be sent.
    pub fn as_buffer(&self) -> (r: &[u8])
        ensures
            r@ == self.spec_bytes(),
    {
        proof {
            use_type_invariant(self);
        }
        self.buffer.as_slice()
    }
}

} // verus!
