//! Instruction packets for an actuator ID fixed by a type parameter.

use vstd::prelude::*;

use crate::bytes::{hi, lo, u16_to_le};
use crate::compiletime::instruction::send::{extend, Parameters};
use crate::compiletime::instruction::Instruction;
use crate::constants::C8;
use crate::crc::{crc16, crc_from, Crc};

verus! {

/// The length field of a packet sending `send_bytes` parameter bytes.
pub open spec fn length_for(send_bytes: u16) -> u16 {
    ((send_bytes + 3) % 65536) as u16
}

/// The first eight bytes of an instruction packet for actuator `id`.
pub open spec fn packet_head(id: u8, length: u16, instruction: u8) -> Seq<u8> {
    seq![0xFFu8, 0xFFu8, 0xFDu8, 0x00u8, id, lo(length), hi(length), instruction]
}

/// An instruction packet for actuator `ID` up to (not including) its CRC.
pub struct WithoutCrc<Insn: Instruction, const ID: u8> {
    pub header: (C8<0xFF>, C8<0xFF>, C8<0xFD>),
    pub reserved: C8<0x00>,
    pub id: C8<ID>,
    pub length: [u8; 2],
    pub instruction: u8,
    pub parameters: Insn::Send,
}

impl<Insn: Instruction, const ID: u8> WithoutCrc<Insn, ID> {
    /// The bytes of this part of the packet (the header, reserved byte and ID
    /// are fixed by their types).
    pub open spec fn spec_bytes(&self) -> Seq<u8> {
        seq![0xFFu8, 0xFFu8, 0xFDu8, 0x00u8, ID] + self.length@ + seq![self.instruction]
            + self.parameters.spec_bytes()
    }

    /// The packet sending `parameters`, up to its CRC.
    pub fn new(parameters: Insn::Send) -> (r: Self)
        ensures
            r.spec_bytes() == packet_head(ID, length_for(Insn::SEND_BYTES), Insn::BYTE)
                + parameters.spec_bytes(),
            r.parameters == parameters,
    {
        let length = (((Insn::SEND_BYTES as u32) + 3) % 65536) as u16;
        let r = WithoutCrc {
            header: (C8::new(), C8::new(), C8::new()),
            reserved: C8::new(),
            id: C8::new(),
            length: u16_to_le(length),
            instruction: Insn::BYTE,
            parameters,
        };
        assert(r.spec_bytes() =~= packet_head(ID, length_for(Insn::SEND_BYTES), Insn::BYTE)
            + parameters.spec_bytes());
        r
    }

    /// The CRC register after the first eight bytes of the packet.
    pub fn crc_init() -> (r: Crc)
        ensures
            r.state() == crc16(packet_head(ID, length_for(Insn::SEND_BYTES), Insn::BYTE)),
    {
        let length = u16_to_le((((Insn::SEND_BYTES as u32) + 3) % 65536) as u16);
        let mut crc = Crc::new();
        crc.push(0xFF);
        crc.push(0xFF);
        crc.push(0xFD);
        crc.push(0x00);
        crc.push(ID);
        crc.push(length[0]);
        crc.push(length[1]);
        crc.push(Insn::BYTE);
        proof {
            let first = seq![0xFFu8, 0xFFu8, 0xFDu8, 0x00u8];
            let second = seq![ID, length[0], length[1], Insn::BYTE];
            crate::crc::lemma_crc_four(0, 0xFF, 0xFF, 0xFD, 0x00);
            crate::crc::lemma_crc_four(crc_from(0, first), ID, length[0], length[1], Insn::BYTE);
            crate::crc::lemma_crc_concat(0, first, second);
            assert(first + second =~= packet_head(ID, length_for(Insn::SEND_BYTES), Insn::BYTE));
        }
        crc
    }
}

/// An instruction packet for actuator `ID`, CRC included.
pub struct WithCrc<Insn: Instruction, const ID: u8> {
    pub without_crc: WithoutCrc<Insn, ID>,
    pub crc: [u8; 2],
}

impl<Insn: Instruction, const ID: u8> WithCrc<Insn, ID> {
    /// The bytes of the packet.
    pub open spec fn spec_bytes(&self) -> Seq<u8> {
        self.without_crc.spec_bytes() + self.crc@
    }

    /// The bytes of the packet, ready to be sent.
    pub fn bytes(&self) -> (r: Vec<u8>)
        ensures
            r@ == self.spec_bytes(),
    {
        let mut v: Vec<u8> = Vec::new();
        let head = [0xFFu8, 0xFFu8, 0xFDu8, 0x00u8, ID];
        extend(&mut v, &head);
        extend(&mut v, &self.without_crc.length);
        v.push(self.without_crc.instruction);
        let params = self.without_crc.parameters.bytes();
        extend(&mut v, params.as_slice());
        extend(&mut v, &self.crc);
        assert(v@ =~= self.spec_bytes());
        v
    }
}

} // verus!
