//! Parsing status packets one byte at a time.

use core::marker::PhantomData;

use vstd::prelude::*;

use vstd::slice::slice_subrange;

use crate::bytes::{from_le16, hi, lo, u16_from_le};
use crate::crc::{crc16, crc_byte, crc_from, Crc};
use crate::proto::parse::{State, Status};
use crate::proto::recv::{parsed_bytes, Receive};
use crate::proto::{Instruction, New, MAX_ID};

verus! {

/// The errors an actuator reports in the error byte of a status packet.
#[non_exhaustive]
#[derive(Clone, Copy, Debug, Eq, Hash, Ord, PartialEq, PartialOrd)]
pub enum SoftwareError {
    ResultFail,
    InstructionError,
    CrcError,
    DataRangeError,
    DataLengthError,
    DataLimitError,
    AccessError,
}

/// The code of a software error in the error byte.
pub open spec fn software_error_code(e: SoftwareError) -> u8 {
    match e {
        SoftwareError::ResultFail => 0x01,
        SoftwareError::InstructionError => 0x02,
        SoftwareError::CrcError => 0x03,
        SoftwareError::DataRangeError => 0x04,
        SoftwareError::DataLengthError => 0x05,
        SoftwareError::DataLimitError => 0x06,
        SoftwareError::AccessError => 0x07,
    }
}

/// An error byte whose lower seven bits name no software error.
#[derive(Debug, PartialEq, Eq, Clone, Copy)]
pub struct InvalidSoftwareError {
    byte_without_msb: u8,
}

impl InvalidSoftwareError {
    /// The lower seven bits of the error byte.
    pub closed spec fn spec_byte_without_msb(&self) -> u8 {
        self.byte_without_msb
    }

    /// The lower seven bits of the error byte.
    pub fn byte_without_msb(&self) -> (r: u8)
        ensures
            r == self.spec_byte_without_msb(),
    {
        self.byte_without_msb
    }
}

/// The invalid software-error code `byte_without_msb`.
pub closed spec fn invalid_software_error(byte_without_msb: u8) -> InvalidSoftwareError {
    InvalidSoftwareError { byte_without_msb }
}

/// An invalid software-error code holds the code it was made with.
pub proof fn lemma_invalid_software_error(byte_without_msb: u8, e: InvalidSoftwareError)
    ensures
        invalid_software_error(byte_without_msb).spec_byte_without_msb() == byte_without_msb,
        invalid_software_error(e.spec_byte_without_msb()) == e,
{
}

/// What `SoftwareError::check` makes of an error byte: its lower seven bits
/// name no error (0), a software error (1 to 7), or nothing valid.
pub open spec fn spec_check(byte: u8) -> Result<Option<SoftwareError>, InvalidSoftwareError> {
    let b = byte % 128;
    if b == 0 {
        Ok(None)
    } else if b == 1 {
        Ok(Some(SoftwareError::ResultFail))
    } else if b == 2 {
        Ok(Some(SoftwareError::InstructionError))
    } else if b == 3 {
        Ok(Some(SoftwareError::CrcError))
    } else if b == 4 {
        Ok(Some(SoftwareError::DataRangeError))
    } else if b == 5 {
        Ok(Some(SoftwareError::DataLengthError))
    } else if b == 6 {
        Ok(Some(SoftwareError::DataLimitError))
    } else if b == 7 {
        Ok(Some(SoftwareError::AccessError))
    } else {
        Err(invalid_software_error(b as u8))
    }
}

impl SoftwareError {
    /// Reads the software error from an error byte (its most significant bit,
    /// the hardware-error flag, is ignored).
    pub fn check(byte: u8) -> (r: Result<Option<Self>, InvalidSoftwareError>)
        ensures
            r == spec_check(byte),
    {
        let b = byte & 0x7F;
        assert(b == byte % 128) by (bit_vector)
            requires
                b == byte & 0x7F,
        ;
        match b {
            0x00 => Ok(None),
            0x01 => Ok(Some(SoftwareError::ResultFail)),
            0x02 => Ok(Some(SoftwareError::InstructionError)),
            0x03 => Ok(Some(SoftwareError::CrcError)),
            0x04 => Ok(Some(SoftwareError::DataRangeError)),
            0x05 => Ok(Some(SoftwareError::DataLengthError)),
            0x06 => Ok(Some(SoftwareError::DataLimitError)),
            0x07 => Ok(Some(SoftwareError::AccessError)),
            byte_without_msb => Err(InvalidSoftwareError { byte_without_msb }),
        }
    }

    /// The code of this error in the error byte.
    pub fn byte(&self) -> (r: u8)
        ensures
            r == software_error_code(*self),
    {
        match self {
            SoftwareError::ResultFail => 0x01,
            SoftwareError::InstructionError => 0x02,
            SoftwareError::CrcError => 0x03,
            SoftwareError::DataRangeError => 0x04,
            SoftwareError::DataLengthError => 0x05,
            SoftwareError::DataLimitError => 0x06,
            SoftwareError::AccessError => 0x07,
        }
    }

    /// What the error means.
    pub fn description(&self) -> (r: &'static str)
        ensures
            r@ == software_error_text(*self),
    {
        match self {
            SoftwareError::ResultFail => "Actuator could not process the packet",
            SoftwareError::InstructionError => "Either the actuator did not recognize the instruction byte or it received `Action` without `RegWrite`",
            SoftwareError::CrcError => "Actuator disagrees about CRC calculation (likely a corrupted packet)",
            SoftwareError::DataRangeError => "Data to be written is too long to fit in the specified range of memory",
            SoftwareError::DataLengthError => "Data to be written is too short to fit in the specified range of memory",
            SoftwareError::DataLimitError => "Data out of range",
            SoftwareError::AccessError => "Couldn't write (either tried to write to EEPROM with torque enabled, tried to write to read-only memory, or tried to read from write-only memory)",
        }
    }
}

/// The description of each software error.
pub open spec fn software_error_text(e: SoftwareError) -> Seq<char> {
    match e {
        SoftwareError::ResultFail => "Actuator could not process the packet"@,
        SoftwareError::InstructionError => "Either the actuator did not recognize the instruction byte or it received `Action` without `RegWrite`"@,
        SoftwareError::CrcError => "Actuator disagrees about CRC calculation (likely a corrupted packet)"@,
        SoftwareError::DataRangeError => "Data to be written is too long to fit in the specified range of memory"@,
        SoftwareError::DataLengthError => "Data to be written is too short to fit in the specified range of memory"@,
        SoftwareError::DataLimitError => "Data out of range"@,
        SoftwareError::AccessError => "Couldn't write (either tried to write to EEPROM with torque enabled, tried to write to read-only memory, or tried to read from write-only memory)"@,
    }
}

/// Checking the code of a software error gives the error back.
pub proof fn lemma_software_error_byte_roundtrip(e: SoftwareError)
    ensures
        spec_check(software_error_code(e)) == Ok::<Option<SoftwareError>, InvalidSoftwareError>(Some(e)),
{
}

/// A software error read from a byte has the lower seven bits of that byte as its code.
pub proof fn lemma_byte_software_error_roundtrip(byte: u8)
    ensures
        spec_check(byte) matches Ok(Some(e)) ==> software_error_code(e) == byte % 128,
{
}

/// A byte that was expected and the byte that came instead.
#[derive(Debug, PartialEq, Eq, Clone, Copy)]
pub struct Mismatch8 {
    expected: u8,
    actual: u8,
}

impl Mismatch8 {
    /// The value expected.
    pub closed spec fn spec_expected(&self) -> u8 {
        self.expected
    }

    /// The value that came.
    pub closed spec fn spec_actual(&self) -> u8 {
        self.actual
    }

    /// The byte that was expected.
    pub fn expected(&self) -> (r: u8)
        ensures
            r == self.spec_expected(),
    {
        self.expected
    }

    /// The byte that came.
    pub fn actual(&self) -> (r: u8)
        ensures
            r == self.spec_actual(),
    {
        self.actual
    }
}

/// A 16-bit value that was expected and the value that came instead.
#[derive(Debug, PartialEq, Eq, Clone, Copy)]
pub struct Mismatch16 {
    expected: u16,
    actual: u16,
}

impl Mismatch16 {
    /// The value expected.
    pub closed spec fn spec_expected(&self) -> u16 {
        self.expected
    }

    /// The value that came.
    pub closed spec fn spec_actual(&self) -> u16 {
        self.actual
    }

    /// The value that was expected.
    pub fn expected(&self) -> (r: u16)
        ensures
            r == self.spec_expected(),
    {
        self.expected
    }

    /// The value that came.
    pub fn actual(&self) -> (r: u16)
        ensures
            r == self.spec_actual(),
    {
        self.actual
    }
}

/// The mismatch of `expected` and `actual`.
pub closed spec fn mismatch8(expected: u8, actual: u8) -> Mismatch8 {
    Mismatch8 { expected, actual }
}

/// The 16-bit mismatch of `expected` and `actual`.
pub closed spec fn mismatch16(expected: u16, actual: u16) -> Mismatch16 {
    Mismatch16 { expected, actual }
}

/// A mismatch holds the values it was made with.
pub proof fn lemma_mismatch(expected: u8, actual: u8, wide_expected: u16, wide_actual: u16)
    ensures
        mismatch8(expected, actual).spec_expected() == expected,
        mismatch8(expected, actual).spec_actual() == actual,
        mismatch16(wide_expected, wide_actual).spec_expected() == wide_expected,
        mismatch16(wide_expected, wide_actual).spec_actual() == wide_actual,
{
}

/// Why a byte sequence is not the start of a well-formed status packet.
#[derive(Debug, PartialEq, Eq, Clone, Copy)]
pub enum ParseError {
    WrongFirstHeaderByte(Mismatch8),
    WrongSecondHeaderByte(Mismatch8),
    WrongThirdHeaderByte(Mismatch8),
    WrongReservedByte(Mismatch8),
    InvalidId { id: u8 },
    WrongLength(Mismatch16),
    WrongInstruction(Mismatch8),
    InvalidSoftwareError(InvalidSoftwareError),
}

/// A parsed status packet before its CRC has been checked.
#[derive(Debug, PartialEq, Eq)]
pub struct WithHardwareErrorStatus<Output> {
    id: u8,
    output: Output,
    expected_crc: u16,
    hardware_error: bool,
}

impl<Output> WithHardwareErrorStatus<Output> {
    /// The ID of the actuator that sent the packet.
    pub closed spec fn spec_id(&self) -> u8 {
        self.id
    }

    /// The payload, or the software error reported.
    pub closed spec fn spec_output(&self) -> Output {
        self.output
    }

    /// The CRC of the bytes read.
    pub closed spec fn spec_expected_crc(&self) -> u16 {
        self.expected_crc
    }

    /// Whether the hardware-error bit was set.
    pub closed spec fn spec_hardware_error(&self) -> bool {
        self.hardware_error
    }
}

/// The parsed packet from actuator `id` with `output`, the CRC of its bytes
/// and its hardware-error bit.
pub closed spec fn with_hardware_error_status<Output>(
    id: u8,
    output: Output,
    expected_crc: u16,
    hardware_error: bool,
) -> WithHardwareErrorStatus<Output> {
    WithHardwareErrorStatus { id, output, expected_crc, hardware_error }
}

/// A parsed packet holds what it was made with.
pub proof fn lemma_with_hardware_error_status<Output>(
    id: u8,
    output: Output,
    expected_crc: u16,
    hardware_error: bool,
)
    ensures
        with_hardware_error_status(id, output, expected_crc, hardware_error).spec_id() == id,
        with_hardware_error_status(id, output, expected_crc, hardware_error).spec_output() == output,
        with_hardware_error_status(id, output, expected_crc, hardware_error).spec_expected_crc()
            == expected_crc,
        with_hardware_error_status(id, output, expected_crc, hardware_error).spec_hardware_error()
            == hardware_error,
{
}

/// The length field that a status packet answering with `R` carries.
pub open spec fn expected_length<R: Receive>() -> u16 {
    ((R::BYTES + 4) % 65536) as u16
}

/// The CRC register after the header and reserved byte.
pub open spec fn header_crc() -> u16 {
    crc16(seq![0xFFu8, 0xFFu8, 0xFDu8, 0x00u8])
}

/// A state of the status-packet parser, seen as plain values.
pub enum WithoutCrcView {
    Header1,
    Header2,
    Header3,
    Reserved,
    Id,
    LengthLo { id: u8, crc: u16 },
    LengthHi { id: u8, crc: u16, length_lo: u8 },
    Instruction { id: u8, crc: u16, length: u16 },
    Error { id: u8, crc: u16, length: u16 },
    SoftwareError {
        id: u8,
        crc: u16,
        hardware_error: bool,
        software_error: SoftwareError,
        length: u16,
        count: u16,
    },
    Parameters { id: u8, received: Seq<u8>, crc: u16, hardware_error: bool },
}

/// The outcome of one step of a parser, seen as plain values.
pub enum Step<V, O, E> {
    Next(V),
    Done(O),
    Failed(E),
}

/// The output of the status-packet parser for an instruction `Insn`.
pub type Payload<Insn> = WithHardwareErrorStatus<Result<<Insn as Instruction>::Recv, SoftwareError>>;

/// One step of the status-packet parser: the state it reaches on `input`
/// from `v`, the packet it completes, or why the bytes are not a status packet.
pub open spec fn step<Insn: Instruction>(v: WithoutCrcView, input: u8) -> Step<
    WithoutCrcView,
    Payload<Insn>,
    ParseError,
> {
    let e = expected_length::<Insn::Recv>();
    match v {
        WithoutCrcView::Header1 => if input == 0xFF {
            Step::Next(WithoutCrcView::Header2)
        } else {
            Step::Failed(ParseError::WrongFirstHeaderByte(mismatch8(0xFF, input)))
        },
        WithoutCrcView::Header2 => if input == 0xFF {
            Step::Next(WithoutCrcView::Header3)
        } else {
            Step::Failed(ParseError::WrongSecondHeaderByte(mismatch8(0xFF, input)))
        },
        WithoutCrcView::Header3 => if input == 0xFD {
            Step::Next(WithoutCrcView::Reserved)
        } else {
            Step::Failed(ParseError::WrongThirdHeaderByte(mismatch8(0xFD, input)))
        },
        WithoutCrcView::Reserved => if input == 0x00 {
            Step::Next(WithoutCrcView::Id)
        } else {
            Step::Failed(ParseError::WrongReservedByte(mismatch8(0x00, input)))
        },
        WithoutCrcView::Id => if input <= MAX_ID {
            Step::Next(WithoutCrcView::LengthLo { id: input, crc: crc_byte(header_crc(), input) })
        } else {
            Step::Failed(ParseError::InvalidId { id: input })
        },
        WithoutCrcView::LengthLo { id, crc } => Step::Next(
            WithoutCrcView::LengthHi { id, crc: crc_byte(crc, lo(e)), length_lo: input },
        ),
        WithoutCrcView::LengthHi { id, crc, length_lo } => Step::Next(
            WithoutCrcView::Instruction {
                id,
                crc: crc_byte(crc, hi(e)),
                length: from_le16(length_lo, input),
            },
        ),
        WithoutCrcView::Instruction { id, crc, length } => if input == 0x55 {
            Step::Next(WithoutCrcView::Error { id, crc: crc_byte(crc, 0x55), length })
        } else {
            Step::Failed(ParseError::WrongInstruction(mismatch8(0x55, input)))
        },
        WithoutCrcView::Error { id, crc, length } => {
            let crc = crc_byte(crc, input);
            let hardware_error = input & 0x80 != 0;
            match spec_check(input) {
                Err(invalid) => Step::Failed(ParseError::InvalidSoftwareError(invalid)),
                Ok(Some(software_error)) => if length <= 4 {
                    Step::Done(
                        with_hardware_error_status(id, Err(software_error), crc, hardware_error),
                    )
                } else {
                    Step::Next(
                        WithoutCrcView::SoftwareError {
                            id,
                            crc,
                            hardware_error,
                            software_error,
                            length: (length - 4) as u16,
                            count: 0,
                        },
                    )
                },
                Ok(None) => if length != e {
                    Step::Failed(ParseError::WrongLength(mismatch16(e, length)))
                } else if parsed_bytes::<Insn::Recv>() == 0 {
                    Step::Done(
                        with_hardware_error_status(
                            id,
                            Ok(Insn::Recv::spec_decode(Seq::empty())),
                            crc,
                            hardware_error,
                        ),
                    )
                } else {
                    Step::Next(
                        WithoutCrcView::Parameters {
                            id,
                            received: Seq::empty(),
                            crc,
                            hardware_error,
                        },
                    )
                },
            }
        },
        WithoutCrcView::SoftwareError {
            id,
            crc,
            hardware_error,
            software_error,
            length,
            count,
        } => {
            let crc = crc_byte(crc, input);
            let count = ((count + 1) % 65536) as u16;
            if count == length {
                Step::Done(
                    with_hardware_error_status(id, Err(software_error), crc, hardware_error),
                )
            } else {
                Step::Next(
                    WithoutCrcView::SoftwareError {
                        id,
                        crc,
                        hardware_error,
                        software_error,
                        length,
                        count,
                    },
                )
            }
        },
        WithoutCrcView::Parameters { id, received, crc, hardware_error } => {
            let crc = crc_byte(crc, input);
            let received = received.push(input);
            if received.len() == parsed_bytes::<Insn::Recv>() {
                Step::Done(
                    with_hardware_error_status(
                        id,
                        Ok(Insn::Recv::spec_decode(received.take(Insn::Recv::BYTES as int))),
                        crc,
                        hardware_error,
                    ),
                )
            } else {
                Step::Next(WithoutCrcView::Parameters { id, received, crc, hardware_error })
            }
        },
    }
}

/// The status-packet parser, up to (not including) the CRC.
pub enum WithoutCrc<Insn: Instruction> {
    Header1,
    Header2,
    Header3,
    Reserved,
    Id,
    LengthLo { id: u8, crc_state: Crc },
    LengthHi { id: u8, crc_state: Crc, length_lo: u8 },
    Instruction { id: u8, crc_state: Crc, length: u16 },
    Error { id: u8, crc_state: Crc, length: u16 },
    SoftwareError {
        id: u8,
        crc_state: Crc,
        hardware_error: bool,
        software_error: SoftwareError,
        length: u16,
        count: u16,
    },
    Parameters {
        id: u8,
        received: Vec<u8>,
        crc_state: Crc,
        hardware_error: bool,
        instruction: PhantomData<Insn>,
    },
}

impl<Insn: Instruction> View for WithoutCrc<Insn> {
    type V = WithoutCrcView;

    open spec fn view(&self) -> WithoutCrcView {
        match self {
            WithoutCrc::Header1 => WithoutCrcView::Header1,
            WithoutCrc::Header2 => WithoutCrcView::Header2,
            WithoutCrc::Header3 => WithoutCrcView::Header3,
            WithoutCrc::Reserved => WithoutCrcView::Reserved,
            WithoutCrc::Id => WithoutCrcView::Id,
            WithoutCrc::LengthLo { id, crc_state } => WithoutCrcView::LengthLo {
                id: *id,
                crc: crc_state.state(),
            },
            WithoutCrc::LengthHi { id, crc_state, length_lo } => WithoutCrcView::LengthHi {
                id: *id,
                crc: crc_state.state(),
                length_lo: *length_lo,
            },
            WithoutCrc::Instruction { id, crc_state, length } => WithoutCrcView::Instruction {
                id: *id,
                crc: crc_state.state(),
                length: *length,
            },
            WithoutCrc::Error { id, crc_state, length } => WithoutCrcView::Error {
                id: *id,
                crc: crc_state.state(),
                length: *length,
            },
            WithoutCrc::SoftwareError {
                id,
                crc_state,
                hardware_error,
                software_error,
                length,
                count,
            } => WithoutCrcView::SoftwareError {
                id: *id,
                crc: crc_state.state(),
                hardware_error: *hardware_error,
                software_error: *software_error,
                length: *length,
                count: *count,
            },
            WithoutCrc::Parameters { id, received, crc_state, hardware_error, .. } => {
                WithoutCrcView::Parameters {
                    id: *id,
                    received: received@,
                    crc: crc_state.state(),
                    hardware_error: *hardware_error,
                }
            },
        }
    }
}

/// The length field that answers to `n` parameter bytes carry.
fn expected_length_of(n: usize) -> (r: u16)
    ensures
        r == ((n + 4) % 65536) as u16,
{
    (((n % 65536) as u32 + 4) % 65536) as u16
}

impl<Insn: Instruction> WithoutCrc<Insn> {
    /// The CRC register after the header and reserved byte.
    fn crc_init() -> (r: Crc)
        ensures
            r.state() == header_crc(),
    {
        let mut crc = Crc::new();
        crc.push(0xFF);
        crc.push(0xFF);
        crc.push(0xFD);
        crc.push(0x00);
        proof {
            reveal_with_fuel(crc_from, 5);
            let s = seq![0xFFu8, 0xFFu8, 0xFDu8, 0x00u8];
            assert(s.drop_last().drop_last().drop_last().drop_last() =~= Seq::<u8>::empty());
            assert(s.drop_last().drop_last().drop_last() =~= seq![0xFFu8]);
            assert(s.drop_last().drop_last() =~= seq![0xFFu8, 0xFFu8]);
            assert(s.drop_last() =~= seq![0xFFu8, 0xFFu8, 0xFDu8]);
        }
        crc
    }
}

impl<Insn: Instruction> New for WithoutCrc<Insn> {
    type Config = ();

    fn new(config: ()) -> (r: Self)
        ensures
            r@ == WithoutCrcView::Header1,
    {
        WithoutCrc::Header1
    }
}

/// Whether `r` is what the status-packet parser returns for step `s`.
pub open spec fn matches_step<Insn: Instruction>(
    s: Step<WithoutCrcView, Payload<Insn>, ParseError>,
    r: Result<Status<Payload<Insn>, (WithoutCrc<Insn>, ())>, ParseError>,
) -> bool {
    match s {
        Step::Next(v) => r matches Ok(Status::Incomplete((next, ()))) && next@ == v,
        Step::Done(o) => r matches Ok(Status::Complete(out)) && out == o,
        Step::Failed(e) => r == Err::<Status<Payload<Insn>, (WithoutCrc<Insn>, ())>, ParseError>(e),
    }
}

impl<Insn: Instruction> State<u8> for WithoutCrc<Insn> {
    type Output = Payload<Insn>;
    type SideEffect = ();
    type Error = ParseError;

    open spec fn pushes_to(
        self,
        input: u8,
        r: Result<Status<Payload<Insn>, (Self, ())>, ParseError>,
    ) -> bool {
        matches_step::<Insn>(step::<Insn>(self@, input), r)
    }

    fn push(self, input: u8) -> (r: Result<Status<Payload<Insn>, (Self, ())>, ParseError>) {
        let e = expected_length_of(Insn::Recv::BYTES);
        let next = match self {
            WithoutCrc::Header1 => if input == 0xFF {
                WithoutCrc::Header2
            } else {
                return Err(
                    ParseError::WrongFirstHeaderByte(Mismatch8 { expected: 0xFF, actual: input }),
                );
            },
            WithoutCrc::Header2 => if input == 0xFF {
                WithoutCrc::Header3
            } else {
                return Err(
                    ParseError::WrongSecondHeaderByte(Mismatch8 { expected: 0xFF, actual: input }),
                );
            },
            WithoutCrc::Header3 => if input == 0xFD {
                WithoutCrc::Reserved
            } else {
                return Err(
                    ParseError::WrongThirdHeaderByte(Mismatch8 { expected: 0xFD, actual: input }),
                );
            },
            WithoutCrc::Reserved => if input == 0x00 {
                WithoutCrc::Id
            } else {
                return Err(
                    ParseError::WrongReservedByte(Mismatch8 { expected: 0x00, actual: input }),
                );
            },
            WithoutCrc::Id => {
                if input > MAX_ID {
                    return Err(ParseError::InvalidId { id: input });
                }
                let mut crc_state = Self::crc_init();
                crc_state.push(input);
                WithoutCrc::LengthLo { id: input, crc_state }
            },
            WithoutCrc::LengthLo { id, crc_state } => {
                let mut crc_state = crc_state;
                crc_state.push((e % 256) as u8);
                WithoutCrc::LengthHi { id, crc_state, length_lo: input }
            },
            WithoutCrc::LengthHi { id, crc_state, length_lo } => {
                let mut crc_state = crc_state;
                crc_state.push((e / 256) as u8);
                WithoutCrc::Instruction { id, crc_state, length: u16_from_le(length_lo, input) }
            },
            WithoutCrc::Instruction { id, crc_state, length } => {
                if input == 0x55 {
                    let mut crc_state = crc_state;
                    crc_state.push(0x55);
                    WithoutCrc::Error { id, crc_state, length }
                } else {
                    return Err(
                        ParseError::WrongInstruction(Mismatch8 { expected: 0x55, actual: input }),
                    );
                }
            },
            WithoutCrc::Error { id, crc_state, length } => {
                let mut crc_state = crc_state;
                crc_state.push(input);
                let hardware_error = (input & 0x80) != 0;
                match SoftwareError::check(input) {
                    Err(invalid) => {
                        return Err(ParseError::InvalidSoftwareError(invalid));
                    },
                    Ok(Some(software_error)) => {
                        if length <= 4 {
                            return Ok(
                                Status::Complete(
                                    WithHardwareErrorStatus {
                                        id,
                                        output: Err(software_error),
                                        expected_crc: crc_state.collapse(),
                                        hardware_error,
                                    },
                                ),
                            );
                        }
                        WithoutCrc::SoftwareError {
                            id,
                            crc_state,
                            software_error,
                            hardware_error,
                            length: length - 4,
                            count: 0,
                        }
                    },
                    Ok(None) => {
                        if length != e {
                            return Err(
                                ParseError::WrongLength(Mismatch16 { actual: length, expected: e }),
                            );
                        }
                        if Insn::Recv::BYTES == 0 && !Insn::Recv::COMPLETES_LATE {
                            let received: Vec<u8> = Vec::new();
                            let output = Insn::Recv::decode(received.as_slice());
                            return Ok(
                                Status::Complete(
                                    WithHardwareErrorStatus {
                                        id,
                                        output: Ok(output),
                                        expected_crc: crc_state.collapse(),
                                        hardware_error,
                                    },
                                ),
                            );
                        }
                        WithoutCrc::Parameters {
                            id,
                            received: Vec::new(),
                            crc_state,
                            hardware_error,
                            instruction: PhantomData,
                        }
                    },
                }
            },
            WithoutCrc::SoftwareError {
                id,
                crc_state,
                hardware_error,
                software_error,
                length,
                count,
            } => {
                let mut crc_state = crc_state;
                crc_state.push(input);
                let count = count.wrapping_add(1);
                if count == length {
                    return Ok(
                        Status::Complete(
                            WithHardwareErrorStatus {
                                id,
                                output: Err(software_error),
                                expected_crc: crc_state.collapse(),
                                hardware_error,
                            },
                        ),
                    );
                }
                WithoutCrc::SoftwareError {
                    id,
                    crc_state,
                    hardware_error,
                    software_error,
                    length,
                    count,
                }
            },
            WithoutCrc::Parameters { id, received, crc_state, hardware_error, instruction } => {
                let mut crc_state = crc_state;
                crc_state.push(input);
                let mut received = received;
                received.push(input);
                let complete = if Insn::Recv::COMPLETES_LATE {
                    received.len() - 1 == Insn::Recv::BYTES
                } else {
                    received.len() == Insn::Recv::BYTES
                };
                if complete {
                    let payload = slice_subrange(received.as_slice(), 0, Insn::Recv::BYTES);
                    assert(payload@ =~= received@.take(Insn::Recv::BYTES as int));
                    let output = Insn::Recv::decode(payload);
                    return Ok(
                        Status::Complete(
                            WithHardwareErrorStatus {
                                id,
                                output: Ok(output),
                                expected_crc: crc_state.collapse(),
                                hardware_error,
                            },
                        ),
                    );
                }
                WithoutCrc::Parameters { id, received, crc_state, hardware_error, instruction }
            },
        };
        Ok(Status::Incomplete((next, ())))
    }
}

/// Why a complete status packet does not carry the answer.
#[derive(Debug, PartialEq, Eq)]
pub enum Error<Output> {
    Parsing(ParseError),
    Crc(Mismatch16),
    Software(SoftwareError),
    Hardware(Output),
}

/// A payload together with the ID of the actuator that sent it.
#[derive(Debug, PartialEq, Eq)]
pub struct WithId<Output> {
    pub id: u8,
    pub output: Output,
}

/// A state of the status-packet parser with CRC check, seen as plain values.
pub enum WithCrcView<Output> {
    BeforeCrc(WithoutCrcView),
    FirstCrcByte(WithHardwareErrorStatus<Result<Output, SoftwareError>>),
    SecondCrcByte(u8, WithHardwareErrorStatus<Result<Output, SoftwareError>>),
}

/// One step of the status-packet parser with CRC check.
pub open spec fn step_with_crc<Insn: Instruction>(v: WithCrcView<Insn::Recv>, input: u8) -> Step<
    WithCrcView<Insn::Recv>,
    WithId<Insn::Recv>,
    Error<WithId<Insn::Recv>>,
> {
    match v {
        WithCrcView::BeforeCrc(state) => match step::<Insn>(state, input) {
            Step::Next(next) => Step::Next(WithCrcView::BeforeCrc(next)),
            Step::Done(payload) => Step::Next(WithCrcView::FirstCrcByte(payload)),
            Step::Failed(e) => Step::Failed(Error::Parsing(e)),
        },
        WithCrcView::FirstCrcByte(payload) => Step::Next(WithCrcView::SecondCrcByte(input, payload)),
        WithCrcView::SecondCrcByte(first_crc_byte, payload) => {
            let actual = from_le16(first_crc_byte, input);
            if actual != payload.spec_expected_crc() {
                Step::Failed(Error::Crc(mismatch16(payload.spec_expected_crc(), actual)))
            } else {
                match payload.spec_output() {
                    Err(e) => Step::Failed(Error::Software(e)),
                    Ok(output) => if payload.spec_hardware_error() {
                        Step::Failed(Error::Hardware(WithId { id: payload.spec_id(), output }))
                    } else {
                        Step::Done(WithId { id: payload.spec_id(), output })
                    },
                }
            }
        },
    }
}

/// The status-packet parser, including the check of the CRC.
pub enum WithCrc<Insn: Instruction> {
    BeforeCrc { state: WithoutCrc<Insn> },
    FirstCrcByte { payload: Payload<Insn> },
    SecondCrcByte { first_crc_byte: u8, payload: Payload<Insn> },
}

impl<Insn: Instruction> View for WithCrc<Insn> {
    type V = WithCrcView<Insn::Recv>;

    open spec fn view(&self) -> WithCrcView<Insn::Recv> {
        match self {
            WithCrc::BeforeCrc { state } => WithCrcView::BeforeCrc(state@),
            WithCrc::FirstCrcByte { payload } => WithCrcView::FirstCrcByte(*payload),
            WithCrc::SecondCrcByte { first_crc_byte, payload } => WithCrcView::SecondCrcByte(
                *first_crc_byte,
                *payload,
            ),
        }
    }
}

impl<Insn: Instruction> New for WithCrc<Insn> {
    type Config = ();

    fn new(config: ()) -> (r: Self)
        ensures
            r@ == WithCrcView::<Insn::Recv>::BeforeCrc(WithoutCrcView::Header1),
    {
        WithCrc::BeforeCrc { state: WithoutCrc::new(config) }
    }
}

/// Whether `r` is what the parser with CRC check returns for step `s`.
pub open spec fn matches_step_with_crc<Insn: Instruction>(
    s: Step<WithCrcView<Insn::Recv>, WithId<Insn::Recv>, Error<WithId<Insn::Recv>>>,
    r: Result<Status<WithId<Insn::Recv>, (WithCrc<Insn>, ())>, Error<WithId<Insn::Recv>>>,
) -> bool {
    match s {
        Step::Next(v) => r matches Ok(Status::Incomplete((next, ()))) && next@ == v,
        Step::Done(o) => r matches Ok(Status::Complete(out)) && out == o,
        Step::Failed(e) => r matches Err(err) && err == e,
    }
}

impl<Insn: Instruction> State<u8> for WithCrc<Insn> {
    type Output = WithId<Insn::Recv>;
    type SideEffect = ();
    type Error = Error<WithId<Insn::Recv>>;

    open spec fn pushes_to(
        self,
        input: u8,
        r: Result<Status<WithId<Insn::Recv>, (Self, ())>, Error<WithId<Insn::Recv>>>,
    ) -> bool {
        matches_step_with_crc::<Insn>(step_with_crc::<Insn>(self@, input), r)
    }

    fn push(self, input: u8) -> (r: Result<
        Status<WithId<Insn::Recv>, (Self, ())>,
        Error<WithId<Insn::Recv>>,
    >) {
        let next = match self {
            WithCrc::BeforeCrc { state } => match state.push(input) {
                Err(e) => {
                    return Err(Error::Parsing(e));
                },
                Ok(Status::Complete(payload)) => WithCrc::FirstCrcByte { payload },
                Ok(Status::Incomplete((new_state, _))) => WithCrc::BeforeCrc { state: new_state },
            },
            WithCrc::FirstCrcByte { payload } => WithCrc::SecondCrcByte {
                first_crc_byte: input,
                payload,
            },
            WithCrc::SecondCrcByte { first_crc_byte, payload } => {
                let WithHardwareErrorStatus { id, output, expected_crc, hardware_error } = payload;
                let actual_crc = u16_from_le(first_crc_byte, input);
                if actual_crc != expected_crc {
                    return Err(Error::Crc(Mismatch16 { expected: expected_crc, actual: actual_crc }));
                }
                let ok = match output {
                    Ok(ok) => ok,
                    Err(e) => {
                        return Err(Error::Software(e));
                    },
                };
                let with_id = WithId { id, output: ok };
                return if hardware_error {
                    Err(Error::Hardware(with_id))
                } else {
                    Ok(Status::Complete(with_id))
                };
            },
        };
        Ok(Status::Incomplete((next, ())))
    }
}

/// A real error reported by the addressed actuator in a well-formed status packet.
#[derive(Debug, PartialEq, Eq)]
pub enum PersistentError<Output> {
    Software(SoftwareError),
    Hardware(Output),
}

/// `p` with `g` applied to the payload of a hardware error.
pub open spec fn mapped<X, Y>(p: PersistentError<X>, g: spec_fn(X) -> Y) -> PersistentError<Y> {
    match p {
        PersistentError::Software(e) => PersistentError::Software(e),
        PersistentError::Hardware(x) => PersistentError::Hardware(g(x)),
    }
}

/// Mapping the identity leaves an error as it is.
pub proof fn law_map_identity<X>(p: PersistentError<X>)
    ensures
        mapped(p, |x: X| x) == p,
{
}

/// Mapping twice is mapping the composition.
pub proof fn law_map_composition<X, Y, Z>(
    p: PersistentError<X>,
    f: spec_fn(X) -> Y,
    g: spec_fn(Y) -> Z,
)
    ensures
        mapped(mapped(p, f), g) == mapped(p, |x: X| g(f(x))),
{
}

impl<X> PersistentError<X> {
    /// Applies `f` to the payload of a hardware error.
    pub fn map<Y, F: FnOnce(X) -> Y>(self, f: F) -> (r: PersistentError<Y>)
        requires
            self matches PersistentError::Hardware(x) ==> f.requires((x,)),
        ensures
            match self {
                PersistentError::Software(e) => r == PersistentError::<Y>::Software(e),
                PersistentError::Hardware(x) => r matches PersistentError::Hardware(y) && f.ensures(
                    (x,),
                    y,
                ),
            },
            forall|g: spec_fn(X) -> Y|
                (forall|x: X, y: Y| #[trigger] f.ensures((x,), y) ==> y == g(x)) ==> r == #[trigger] mapped(
                    self,
                    g,
                ),
    {
        match self {
            PersistentError::Software(e) => PersistentError::Software(e),
            PersistentError::Hardware(e) => PersistentError::Hardware(f(e)),
        }
    }
}

/// The actuator whose answer is awaited.
pub struct PersistentConfig {
    pub expected_id: u8,
}

/// A status-packet parser that skips malformed packets and packets from
/// other actuators, and starts over after them.
pub struct Persistent<Insn: Instruction> {
    expected_id: u8,
    parser: WithCrc<Insn>,
}

impl<Insn: Instruction> View for Persistent<Insn> {
    type V = (u8, WithCrcView<Insn::Recv>);

    closed spec fn view(&self) -> (u8, WithCrcView<Insn::Recv>) {
        (self.expected_id, self.parser@)
    }
}

/// A fresh persistent parser awaiting `expected_id`.
pub open spec fn fresh<R>(expected_id: u8) -> (u8, WithCrcView<R>) {
    (expected_id, WithCrcView::BeforeCrc(WithoutCrcView::Header1))
}

/// One step of the persistent parser.
pub open spec fn step_persistent<Insn: Instruction>(
    v: (u8, WithCrcView<Insn::Recv>),
    input: u8,
) -> Step<(u8, WithCrcView<Insn::Recv>), Insn::Recv, PersistentError<Insn::Recv>> {
    let expected_id = v.0;
    match step_with_crc::<Insn>(v.1, input) {
        Step::Done(WithId { id, output }) => if id == expected_id {
            Step::Done(output)
        } else {
            Step::Next(fresh(expected_id))
        },
        Step::Next(next) => Step::Next((expected_id, next)),
        Step::Failed(Error::Parsing(_)) => Step::Next(fresh(expected_id)),
        Step::Failed(Error::Crc(_)) => Step::Next(fresh(expected_id)),
        Step::Failed(Error::Software(e)) => Step::Failed(PersistentError::Software(e)),
        Step::Failed(Error::Hardware(WithId { id, output })) => if id == expected_id {
            Step::Failed(PersistentError::Hardware(output))
        } else {
            Step::Next(fresh(expected_id))
        },
    }
}

impl<Insn: Instruction> New for Persistent<Insn> {
    type Config = PersistentConfig;

    fn new(config: PersistentConfig) -> (r: Self)
        ensures
            r@ == fresh::<Insn::Recv>(config.expected_id),
    {
        Persistent { expected_id: config.expected_id, parser: WithCrc::new(()) }
    }
}

/// Whether `r` is what the persistent parser returns for step `s`.
pub open spec fn matches_step_persistent<Insn: Instruction>(
    s: Step<(u8, WithCrcView<Insn::Recv>), Insn::Recv, PersistentError<Insn::Recv>>,
    r: Result<Status<Insn::Recv, (Persistent<Insn>, ())>, PersistentError<Insn::Recv>>,
) -> bool {
    match s {
        Step::Next(v) => r matches Ok(Status::Incomplete((next, ()))) && next@ == v,
        Step::Done(o) => r matches Ok(Status::Complete(out)) && out == o,
        Step::Failed(e) => r matches Err(err) && err == e,
    }
}

impl<Insn: Instruction> State<u8> for Persistent<Insn> {
    type Output = Insn::Recv;
    type SideEffect = ();
    type Error = PersistentError<Insn::Recv>;

    open spec fn pushes_to(
        self,
        input: u8,
        r: Result<Status<Insn::Recv, (Self, ())>, PersistentError<Insn::Recv>>,
    ) -> bool {
        matches_step_persistent::<Insn>(step_persistent::<Insn>(self@, input), r)
    }

    fn push(self, input: u8) -> (r: Result<
        Status<Insn::Recv, (Self, ())>,
        PersistentError<Insn::Recv>,
    >) {
        let Persistent { expected_id, parser } = self;
        match parser.push(input) {
            Ok(Status::Complete(WithId { id: actual_id, output })) => Ok(
                if actual_id == expected_id {
                    Status::Complete(output)
                } else {
                    Status::Incomplete((Self::new(PersistentConfig { expected_id }), ()))
                },
            ),
            Ok(Status::Incomplete((incomplete, ()))) => Ok(
                Status::Incomplete((Persistent { expected_id, parser: incomplete }, ())),
            ),
            Err(Error::Parsing(_)) => Ok(
                Status::Incomplete((Self::new(PersistentConfig { expected_id }), ())),
            ),
            Err(Error::Crc(_)) => Ok(
                Status::Incomplete((Self::new(PersistentConfig { expected_id }), ())),
            ),
            Err(Error::Software(e)) => Err(PersistentError::Software(e)),
            Err(Error::Hardware(WithId { id: actual_id, output })) => {
                if actual_id == expected_id {
                    Err(PersistentError::Hardware(output))
                } else {
                    Ok(Status::Incomplete((Self::new(PersistentConfig { expected_id }), ())))
                }
            },
        }
    }
}

/// Where a parser stands after a sequence of bytes: still waiting, finished
/// with a result (and the bytes it did not read), or stopped with an error
/// (and the bytes it did not read).
pub enum Run<V, O, E> {
    Pending(V),
    Finished(O, Seq<u8>),
    Stopped(E, Seq<u8>),
}

/// The status-packet parser fed `bytes`, from `v`.
pub open spec fn run<Insn: Instruction>(v: WithoutCrcView, bytes: Seq<u8>) -> Run<
    WithoutCrcView,
    Payload<Insn>,
    ParseError,
>
    decreases bytes.len(),
{
    if bytes.len() == 0 {
        Run::Pending(v)
    } else {
        match step::<Insn>(v, bytes[0]) {
            Step::Next(next) => run::<Insn>(next, bytes.drop_first()),
            Step::Done(o) => Run::Finished(o, bytes.drop_first()),
            Step::Failed(e) => Run::Stopped(e, bytes.drop_first()),
        }
    }
}

/// The status-packet parser with CRC check fed `bytes`, from `v`.
pub open spec fn run_with_crc<Insn: Instruction>(v: WithCrcView<Insn::Recv>, bytes: Seq<u8>) -> Run<
    WithCrcView<Insn::Recv>,
    WithId<Insn::Recv>,
    Error<WithId<Insn::Recv>>,
>
    decreases bytes.len(),
{
    if bytes.len() == 0 {
        Run::Pending(v)
    } else {
        match step_with_crc::<Insn>(v, bytes[0]) {
            Step::Next(next) => run_with_crc::<Insn>(next, bytes.drop_first()),
            Step::Done(o) => Run::Finished(o, bytes.drop_first()),
            Step::Failed(e) => Run::Stopped(e, bytes.drop_first()),
        }
    }
}

/// The persistent parser fed `bytes`, from `v`.
pub open spec fn run_persistent<Insn: Instruction>(
    v: (u8, WithCrcView<Insn::Recv>),
    bytes: Seq<u8>,
) -> Run<(u8, WithCrcView<Insn::Recv>), Insn::Recv, PersistentError<Insn::Recv>>
    decreases bytes.len(),
{
    if bytes.len() == 0 {
        Run::Pending(v)
    } else {
        match step_persistent::<Insn>(v, bytes[0]) {
            Step::Next(next) => run_persistent::<Insn>(next, bytes.drop_first()),
            Step::Done(o) => Run::Finished(o, bytes.drop_first()),
            Step::Failed(e) => Run::Stopped(e, bytes.drop_first()),
        }
    }
}

/// A status packet up to its CRC: header, reserved byte, ID, length,
/// status instruction (0x55), error byte and parameters.
pub open spec fn status_body(id: u8, length: u16, error: u8, params: Seq<u8>) -> Seq<u8> {
    seq![0xFFu8, 0xFFu8, 0xFDu8, 0x00u8, id, lo(length), hi(length), 0x55u8, error] + params
}

/// The status packet with which actuator `id` answers with error byte
/// `error` and parameters `params`, its CRC included.
pub open spec fn status_packet(id: u8, error: u8, params: Seq<u8>) -> Seq<u8> {
    let body = status_body(id, ((params.len() + 4) % 65536) as u16, error, params);
    body + seq![lo(crc16(body)), hi(crc16(body))]
}

proof fn lemma_crc_front(c: u16, x: u8, s: Seq<u8>)
    ensures
        crc_from(c, seq![x] + s) == crc_from(crc_byte(c, x), s),
{
    crate::crc::lemma_crc_concat(c, seq![x], s);
    assert(seq![x].drop_last() =~= Seq::<u8>::empty());
    assert(crc_from(c, Seq::<u8>::empty()) == c);
    assert(crc_from(c, seq![x]) == crc_byte(crc_from(c, seq![x].drop_last()), seq![x].last()));
}

/// The parser in its parameter phase reads the remaining parameters and
/// completes on the last one.
proof fn lemma_run_parameters<Insn: Instruction>(
    id: u8,
    received: Seq<u8>,
    crc: u16,
    hardware_error: bool,
    p: Seq<u8>,
    rest: Seq<u8>,
)
    requires
        p.len() > 0,
        received.len() + p.len() == Insn::Recv::BYTES,
        !Insn::Recv::COMPLETES_LATE,
    ensures
        run::<Insn>(WithoutCrcView::Parameters { id, received, crc, hardware_error }, p + rest)
            == Run::<WithoutCrcView, Payload<Insn>, ParseError>::Finished(
            WithHardwareErrorStatus {
                id,
                output: Ok(Insn::Recv::spec_decode(received + p)),
                expected_crc: crc_from(crc, p),
                hardware_error,
            },
            rest,
        ),
    decreases p.len(),
{
    let b = p + rest;
    assert(b[0] == p[0]);
    lemma_crc_front(crc, p[0], p.drop_first());
    assert(seq![p[0]] + p.drop_first() =~= p);
    if p.len() == 1 {
        assert(b.drop_first() =~= rest);
        assert(received.push(p[0]) =~= received + p);
        assert((received + p).take(Insn::Recv::BYTES as int) =~= received + p);
    } else {
        assert(b.drop_first() =~= p.drop_first() + rest);
        assert(received.push(p[0]) + p.drop_first() =~= received + p);
        lemma_run_parameters::<Insn>(
            id,
            received.push(p[0]),
            crc_byte(crc, p[0]),
            hardware_error,
            p.drop_first(),
            rest,
        );
    }
}

/// The parser in its software-error phase skips the remaining parameters and
/// completes on the last one.
pub proof fn lemma_run_software_error<Insn: Instruction>(
    id: u8,
    crc: u16,
    hardware_error: bool,
    software_error: SoftwareError,
    length: u16,
    count: u16,
    p: Seq<u8>,
    rest: Seq<u8>,
)
    requires
        p.len() > 0,
        count + p.len() == length,
    ensures
        run::<Insn>(
            WithoutCrcView::SoftwareError { id, crc, hardware_error, software_error, length, count },
            p + rest,
        ) == Run::<WithoutCrcView, Payload<Insn>, ParseError>::Finished(
            with_hardware_error_status(id, Err(software_error), crc_from(crc, p), hardware_error),
            rest,
        ),
    decreases p.len(),
{
    let b = p + rest;
    assert(b[0] == p[0]);
    lemma_crc_front(crc, p[0], p.drop_first());
    assert(seq![p[0]] + p.drop_first() =~= p);
    if p.len() == 1 {
        assert(b.drop_first() =~= rest);
    } else {
        assert(b.drop_first() =~= p.drop_first() + rest);
        lemma_run_software_error::<Insn>(
            id,
            crc_byte(crc, p[0]),
            hardware_error,
            software_error,
            length,
            (count + 1) as u16,
            p.drop_first(),
            rest,
        );
    }
}

/// One step of `run` on a known byte.
proof fn lemma_run_unfold<Insn: Instruction>(v: WithoutCrcView, b: Seq<u8>, k: int)
    requires
        0 <= k < b.len(),
    ensures
        run::<Insn>(v, b.subrange(k, b.len() as int)) == match step::<Insn>(v, b[k]) {
            Step::Next(next) => run::<Insn>(next, b.subrange(k + 1, b.len() as int)),
            Step::Done(o) => Run::Finished(o, b.subrange(k + 1, b.len() as int)),
            Step::Failed(e) => Run::Stopped(e, b.subrange(k + 1, b.len() as int)),
        },
{
    let t = b.subrange(k, b.len() as int);
    assert(t[0] == b[k]);
    assert(t.drop_first() =~= b.subrange(k + 1, b.len() as int));
}

/// The CRC register after the first nine bytes of a status packet.
proof fn lemma_crc_nine(id: u8, l: u8, h: u8, error: u8)
    ensures
        crc_byte(crc_byte(crc_byte(crc_byte(crc_byte(header_crc(), id), l), h), 0x55), error)
            == crc16(seq![0xFFu8, 0xFFu8, 0xFDu8, 0x00u8, id, l, h, 0x55u8, error]),
{
    let head = seq![0xFFu8, 0xFFu8, 0xFDu8, 0x00u8];
    let tail = seq![id, l, h, 0x55u8, error];
    crate::crc::lemma_crc_concat(0, head, tail);
    assert(head + tail =~= seq![0xFFu8, 0xFFu8, 0xFDu8, 0x00u8, id, l, h, 0x55u8, error]);
    reveal_with_fuel(crc_from, 6);
    assert(tail.drop_last() =~= seq![id, l, h, 0x55u8]);
    assert(tail.drop_last().drop_last() =~= seq![id, l, h]);
    assert(tail.drop_last().drop_last().drop_last() =~= seq![id, l]);
    assert(tail.drop_last().drop_last().drop_last().drop_last() =~= seq![id]);
    assert(tail.drop_last().drop_last().drop_last().drop_last().drop_last() =~= Seq::<u8>::empty());
}

/// What the status-packet parser makes of a status packet whose length field
/// matches the expected payload: the payload, or the software error it reports.
pub open spec fn status_payload<Insn: Instruction>(id: u8, error: u8, params: Seq<u8>) -> Payload<
    Insn,
> {
    with_hardware_error_status(
        id,
        match spec_check(error) {
            Ok(Some(e)) => Err(e),
            _ => Ok(Insn::Recv::spec_decode(params)),
        },
        crc16(status_body(id, ((params.len() + 4) % 65536) as u16, error, params)),
        error & 0x80 != 0,
    )
}

/// The status-packet parser reads a status packet from a valid ID, with a
/// valid error byte and as many parameters as the answer expects, up to its
/// CRC, and reports its payload (or its software error) and the CRC it expects.
proof fn lemma_run_body<Insn: Instruction>(id: u8, error: u8, params: Seq<u8>, tail: Seq<u8>)
    requires
        id <= MAX_ID,
        spec_check(error) is Ok,
        params.len() == Insn::Recv::BYTES,
        !Insn::Recv::COMPLETES_LATE,
        params.len() + 4 < 65536,
    ensures
        run::<Insn>(
            WithoutCrcView::Header1,
            status_body(id, ((params.len() + 4) % 65536) as u16, error, params) + tail,
        ) == Run::<WithoutCrcView, Payload<Insn>, ParseError>::Finished(
            status_payload::<Insn>(id, error, params),
            tail,
        ),
{
    let e = expected_length::<Insn::Recv>();
    let body = status_body(id, e, error, params);
    let b = body + tail;
    assert(b.subrange(0, b.len() as int) =~= b);
    assert(b[0] == 0xFF && b[1] == 0xFF && b[2] == 0xFD && b[3] == 0x00);
    assert(b[4] == id && b[5] == lo(e) && b[6] == hi(e) && b[7] == 0x55 && b[8] == error);
    lemma_run_unfold::<Insn>(WithoutCrcView::Header1, b, 0);
    lemma_run_unfold::<Insn>(WithoutCrcView::Header2, b, 1);
    lemma_run_unfold::<Insn>(WithoutCrcView::Header3, b, 2);
    lemma_run_unfold::<Insn>(WithoutCrcView::Reserved, b, 3);
    lemma_run_unfold::<Insn>(WithoutCrcView::Id, b, 4);
    let c4 = crc_byte(header_crc(), id);
    lemma_run_unfold::<Insn>(WithoutCrcView::LengthLo { id, crc: c4 }, b, 5);
    let c5 = crc_byte(c4, lo(e));
    lemma_run_unfold::<Insn>(WithoutCrcView::LengthHi { id, crc: c5, length_lo: lo(e) }, b, 6);
    let c6 = crc_byte(c5, hi(e));
    assert(from_le16(lo(e), hi(e)) == e);
    lemma_run_unfold::<Insn>(WithoutCrcView::Instruction { id, crc: c6, length: e }, b, 7);
    let c7 = crc_byte(c6, 0x55);
    lemma_run_unfold::<Insn>(WithoutCrcView::Error { id, crc: c7, length: e }, b, 8);
    let c8 = crc_byte(c7, error);
    let head = seq![0xFFu8, 0xFFu8, 0xFDu8, 0x00u8, id, lo(e), hi(e), 0x55u8, error];
    lemma_crc_nine(id, lo(e), hi(e), error);
    assert(body =~= head + params);
    crate::crc::lemma_crc_concat(0, head, params);
    let rest = b.subrange(9, b.len() as int);
    assert(rest =~= params + tail);
    let hardware_error = error & 0x80 != 0;
    if params.len() == 0 {
        assert(rest =~= tail);
        assert(head + params =~= head);
        assert(params =~= Seq::<u8>::empty());
    } else {
        match spec_check(error) {
            Ok(Some(software_error)) => {
                lemma_run_software_error::<Insn>(
                    id,
                    c8,
                    hardware_error,
                    software_error,
                    (e - 4) as u16,
                    0,
                    params,
                    tail,
                );
            },
            _ => {
                lemma_run_parameters::<Insn>(id, Seq::empty(), c8, hardware_error, params, tail);
                assert(Seq::<u8>::empty() + params =~= params);
            },
        }
    }
}

/// Until the inner parser finishes, the parser with CRC check follows it.
proof fn lemma_run_with_crc_before<Insn: Instruction>(v: WithoutCrcView, bytes: Seq<u8>)
    ensures
        run_with_crc::<Insn>(WithCrcView::BeforeCrc(v), bytes) == match run::<Insn>(v, bytes) {
            Run::Pending(next) => Run::Pending(WithCrcView::BeforeCrc(next)),
            Run::Finished(payload, rest) => run_with_crc::<Insn>(
                WithCrcView::FirstCrcByte(payload),
                rest,
            ),
            Run::Stopped(e, rest) => Run::Stopped(Error::Parsing(e), rest),
        },
    decreases bytes.len(),
{
    if bytes.len() > 0 {
        match step::<Insn>(v, bytes[0]) {
            Step::Next(next) => {
                lemma_run_with_crc_before::<Insn>(next, bytes.drop_first());
            },
            _ => {},
        }
    }
}

/// Until the parser with CRC check finishes, the persistent parser follows it.
proof fn lemma_run_persistent_before<Insn: Instruction>(
    expected_id: u8,
    v: WithCrcView<Insn::Recv>,
    bytes: Seq<u8>,
)
    ensures
        run_persistent::<Insn>((expected_id, v), bytes) == match run_with_crc::<Insn>(v, bytes) {
            Run::Pending(next) => Run::Pending((expected_id, next)),
            Run::Finished(WithId { id, output }, rest) => if id == expected_id {
                Run::Finished(output, rest)
            } else {
                run_persistent::<Insn>(fresh(expected_id), rest)
            },
            Run::Stopped(Error::Software(e), rest) => Run::Stopped(PersistentError::Software(e), rest),
            Run::Stopped(Error::Hardware(WithId { id, output }), rest) => if id == expected_id {
                Run::Stopped(PersistentError::Hardware(output), rest)
            } else {
                run_persistent::<Insn>(fresh(expected_id), rest)
            },
            Run::Stopped(_, rest) => run_persistent::<Insn>(fresh(expected_id), rest),
        },
    decreases bytes.len(),
{
    if bytes.len() > 0 {
        match step_with_crc::<Insn>(v, bytes[0]) {
            Step::Next(next) => {
                lemma_run_persistent_before::<Insn>(expected_id, next, bytes.drop_first());
            },
            _ => {},
        }
    }
}

/// What the parser with CRC check makes of a status packet from a valid ID,
/// with a valid error byte and as many parameters as the answer expects.
pub open spec fn answer<Insn: Instruction>(id: u8, error: u8, params: Seq<u8>) -> Result<
    WithId<Insn::Recv>,
    Error<WithId<Insn::Recv>>,
> {
    let with_id = WithId { id, output: Insn::Recv::spec_decode(params) };
    match spec_check(error) {
        Ok(Some(e)) => Err(Error::Software(e)),
        _ => if error & 0x80 != 0 {
            Err(Error::Hardware(with_id))
        } else {
            Ok(with_id)
        },
    }
}

/// The parser with CRC check, fed from its start a status packet whose ID is
/// valid, whose error byte is valid and whose parameters are as many as the
/// answer expects, reads exactly that packet and reports its payload, its
/// software error, or the payload flagged with a hardware error.
pub proof fn law_status_packet_is_read<Insn: Instruction>(
    id: u8,
    error: u8,
    params: Seq<u8>,
    rest: Seq<u8>,
)
    requires
        id <= MAX_ID,
        spec_check(error) is Ok,
        params.len() == Insn::Recv::BYTES,
        !Insn::Recv::COMPLETES_LATE,
        params.len() + 4 < 65536,
    ensures
        run_with_crc::<Insn>(
            WithCrcView::BeforeCrc(WithoutCrcView::Header1),
            status_packet(id, error, params) + rest,
        ) == match answer::<Insn>(id, error, params) {
            Ok(with_id) => Run::<WithCrcView<Insn::Recv>, WithId<Insn::Recv>, Error<WithId<Insn::Recv>>>::Finished(with_id, rest),
            Err(e) => Run::<WithCrcView<Insn::Recv>, WithId<Insn::Recv>, Error<WithId<Insn::Recv>>>::Stopped(e, rest),
        },
{
    let length = ((params.len() + 4) % 65536) as u16;
    let body = status_body(id, length, error, params);
    let crc = crc16(body);
    let tail = seq![lo(crc), hi(crc)] + rest;
    assert(status_packet(id, error, params) + rest =~= body + tail);
    lemma_run_body::<Insn>(id, error, params, tail);
    lemma_run_with_crc_before::<Insn>(WithoutCrcView::Header1, body + tail);
    let payload = status_payload::<Insn>(id, error, params);
    assert(tail.drop_first() =~= seq![hi(crc)] + rest);
    assert((seq![hi(crc)] + rest).drop_first() =~= rest);
    assert(from_le16(lo(crc), hi(crc)) == crc);
    assert(run_with_crc::<Insn>(WithCrcView::FirstCrcByte(payload), tail) == run_with_crc::<Insn>(
        WithCrcView::SecondCrcByte(lo(crc), payload),
        seq![hi(crc)] + rest,
    ));
}

/// A status packet whose two CRC bytes do not hold the CRC of the rest of the
/// packet is refused with a CRC error naming both values.
pub proof fn law_corrupted_crc_is_refused<Insn: Instruction>(
    id: u8,
    error: u8,
    params: Seq<u8>,
    crc_lo: u8,
    crc_hi: u8,
    rest: Seq<u8>,
)
    requires
        id <= MAX_ID,
        spec_check(error) is Ok,
        params.len() == Insn::Recv::BYTES,
        !Insn::Recv::COMPLETES_LATE,
        params.len() + 4 < 65536,
        from_le16(crc_lo, crc_hi) != crc16(
            status_body(id, ((params.len() + 4) % 65536) as u16, error, params),
        ),
    ensures
        run_with_crc::<Insn>(
            WithCrcView::BeforeCrc(WithoutCrcView::Header1),
            status_body(id, ((params.len() + 4) % 65536) as u16, error, params) + seq![
                crc_lo,
                crc_hi,
            ] + rest,
        ) matches Run::Stopped(Error::Crc(m), r) && r == rest && m.spec_expected() == crc16(
            status_body(id, ((params.len() + 4) % 65536) as u16, error, params),
        ) && m.spec_actual() == from_le16(crc_lo, crc_hi),
{
    let length = ((params.len() + 4) % 65536) as u16;
    let body = status_body(id, length, error, params);
    let tail = seq![crc_lo, crc_hi] + rest;
    assert(body + seq![crc_lo, crc_hi] + rest =~= body + tail);
    lemma_run_body::<Insn>(id, error, params, tail);
    lemma_run_with_crc_before::<Insn>(WithoutCrcView::Header1, body + tail);
    let payload = status_payload::<Insn>(id, error, params);
    assert(tail.drop_first() =~= seq![crc_hi] + rest);
    assert((seq![crc_hi] + rest).drop_first() =~= rest);
    assert(run_with_crc::<Insn>(WithCrcView::FirstCrcByte(payload), tail) == run_with_crc::<Insn>(
        WithCrcView::SecondCrcByte(crc_lo, payload),
        seq![crc_hi] + rest,
    ));
}

/// The persistent parser awaiting `expected_id`, fed from its start a valid
/// status packet from that actuator, returns its payload, or reports its
/// software or hardware error; fed one from another actuator, it skips it and
/// starts over.
pub proof fn law_persistent_reads_its_answer<Insn: Instruction>(
    expected_id: u8,
    id: u8,
    error: u8,
    params: Seq<u8>,
    rest: Seq<u8>,
)
    requires
        id <= MAX_ID,
        spec_check(error) is Ok,
        params.len() == Insn::Recv::BYTES,
        !Insn::Recv::COMPLETES_LATE,
        params.len() + 4 < 65536,
    ensures
        run_persistent::<Insn>(fresh(expected_id), status_packet(id, error, params) + rest) == if id
            == expected_id {
            match spec_check(error) {
                Ok(Some(e)) => Run::Stopped(PersistentError::Software(e), rest),
                _ => if error & 0x80 != 0 {
                    Run::Stopped(PersistentError::Hardware(Insn::Recv::spec_decode(params)), rest)
                } else {
                    Run::Finished(Insn::Recv::spec_decode(params), rest)
                },
            }
        } else {
            match spec_check(error) {
                Ok(Some(e)) => Run::Stopped(PersistentError::Software(e), rest),
                _ => run_persistent::<Insn>(fresh(expected_id), rest),
            }
        },
{
    law_status_packet_is_read::<Insn>(id, error, params, rest);
    lemma_run_persistent_before::<Insn>(
        expected_id,
        WithCrcView::BeforeCrc(WithoutCrcView::Header1),
        status_packet(id, error, params) + rest,
    );
}

/// Bytes that cannot begin a status packet (no first header byte among
/// them) are skipped by the persistent parser: what follows them is read as
/// if they were not there.
pub proof fn law_persistent_skips_junk<Insn: Instruction>(
    expected_id: u8,
    junk: Seq<u8>,
    bytes: Seq<u8>,
)
    requires
        forall|i: int| 0 <= i < junk.len() ==> junk[i] != 0xFF,
    ensures
        run_persistent::<Insn>(fresh(expected_id), junk + bytes) == run_persistent::<Insn>(
            fresh(expected_id),
            bytes,
        ),
    decreases junk.len(),
{
    if junk.len() == 0 {
        assert(junk + bytes =~= bytes);
    } else {
        assert((junk + bytes)[0] == junk[0]);
        assert((junk + bytes).drop_first() =~= junk.drop_first() + bytes);
        law_persistent_skips_junk::<Insn>(expected_id, junk.drop_first(), bytes);
    }
}

/// How many bytes a status packet reporting a software error carries after
/// its error byte, by its length field.
pub open spec fn skipped_after_software_error(length: u16) -> nat {
    if length <= 4 {
        0
    } else {
        (length - 4) as nat
    }
}

/// From its error byte, a status packet reporting a software error is read
/// by skipping as many bytes as its own length field names (none when the
/// length is at most 4): the parser completes on the last of them with the
/// software error, the hardware-error bit, and the CRC of every byte read.
pub proof fn law_software_error_skips_its_length<Insn: Instruction>(
    id: u8,
    crc: u16,
    length: u16,
    error: u8,
    p: Seq<u8>,
    rest: Seq<u8>,
)
    requires
        spec_check(error) matches Ok(Some(_)),
        p.len() == skipped_after_software_error(length),
    ensures
        run::<Insn>(WithoutCrcView::Error { id, crc, length }, seq![error] + p + rest)
            == Run::<WithoutCrcView, Payload<Insn>, ParseError>::Finished(
            with_hardware_error_status(
                id,
                Err(spec_check(error)->Ok_0->Some_0),
                crc_from(crc_byte(crc, error), p),
                error & 0x80 != 0,
            ),
            rest,
        ),
{
    let b = seq![error] + p + rest;
    assert(b[0] == error);
    assert(b.drop_first() =~= p + rest);
    if length <= 4 {
        assert(p =~= Seq::<u8>::empty());
        assert(p + rest =~= rest);
    } else {
        lemma_run_software_error::<Insn>(
            id,
            crc_byte(crc, error),
            error & 0x80 != 0,
            spec_check(error)->Ok_0->Some_0,
            (length - 4) as u16,
            0,
            p,
            rest,
        );
    }
}

/// The first nine bytes of a status packet from actuator `id` with the
/// length bytes `l`, `h` and the error byte `error`.
pub open spec fn status_head_with(id: u8, l: u8, h: u8, error: u8) -> Seq<u8> {
    seq![0xFFu8, 0xFFu8, 0xFDu8, 0x00u8, id, l, h, 0x55u8, error]
}

/// A status packet reporting a software error is reported by the parser
/// with CRC check once its own length has been skipped, whatever that length
/// and whatever length the answer expects, provided that its CRC bytes hold
/// the CRC of its bytes with the expected length in place of its own;
/// otherwise it is refused on its CRC.
pub proof fn law_software_error_packet_is_reported<Insn: Instruction>(
    id: u8,
    l: u8,
    h: u8,
    error: u8,
    p: Seq<u8>,
    c0: u8,
    c1: u8,
    rest: Seq<u8>,
)
    requires
        id <= MAX_ID,
        spec_check(error) matches Ok(Some(_)),
        p.len() == skipped_after_software_error(from_le16(l, h)),
    ensures
        ({
            let e = expected_length::<Insn::Recv>();
            let expected = crc16(status_head_with(id, lo(e), hi(e), error) + p);
            run_with_crc::<Insn>(
                WithCrcView::BeforeCrc(WithoutCrcView::Header1),
                status_head_with(id, l, h, error) + p + seq![c0, c1] + rest,
            ) == if from_le16(c0, c1) == expected {
                Run::<WithCrcView<Insn::Recv>, WithId<Insn::Recv>, Error<WithId<Insn::Recv>>>::Stopped(
                    Error::Software(spec_check(error)->Ok_0->Some_0),
                    rest,
                )
            } else {
                Run::<WithCrcView<Insn::Recv>, WithId<Insn::Recv>, Error<WithId<Insn::Recv>>>::Stopped(
                    Error::Crc(mismatch16(expected, from_le16(c0, c1))),
                    rest,
                )
            }
        }),
{
    let e = expected_length::<Insn::Recv>();
    let length = from_le16(l, h);
    let tail = seq![c0, c1] + rest;
    let b = status_head_with(id, l, h, error) + p + tail;
    assert(status_head_with(id, l, h, error) + p + seq![c0, c1] + rest =~= b);
    assert(b.subrange(0, b.len() as int) =~= b);
    assert(b[0] == 0xFF && b[1] == 0xFF && b[2] == 0xFD && b[3] == 0x00);
    assert(b[4] == id && b[5] == l && b[6] == h && b[7] == 0x55);
    lemma_run_unfold::<Insn>(WithoutCrcView::Header1, b, 0);
    lemma_run_unfold::<Insn>(WithoutCrcView::Header2, b, 1);
    lemma_run_unfold::<Insn>(WithoutCrcView::Header3, b, 2);
    lemma_run_unfold::<Insn>(WithoutCrcView::Reserved, b, 3);
    lemma_run_unfold::<Insn>(WithoutCrcView::Id, b, 4);
    let c4 = crc_byte(header_crc(), id);
    lemma_run_unfold::<Insn>(WithoutCrcView::LengthLo { id, crc: c4 }, b, 5);
    let c5 = crc_byte(c4, lo(e));
    lemma_run_unfold::<Insn>(WithoutCrcView::LengthHi { id, crc: c5, length_lo: l }, b, 6);
    let c6 = crc_byte(c5, hi(e));
    lemma_run_unfold::<Insn>(WithoutCrcView::Instruction { id, crc: c6, length }, b, 7);
    let c7 = crc_byte(c6, 0x55);
    assert(b.subrange(8, b.len() as int) =~= seq![error] + p + tail);
    law_software_error_skips_its_length::<Insn>(id, c7, length, error, p, tail);
    lemma_crc_nine(id, lo(e), hi(e), error);
    let head = status_head_with(id, lo(e), hi(e), error);
    crate::crc::lemma_crc_concat(0, head, p);
    lemma_with_hardware_error_status(
        id,
        Err::<Insn::Recv, SoftwareError>(spec_check(error)->Ok_0->Some_0),
        crc_from(crc_byte(c7, error), p),
        error & 0x80 != 0,
    );
    lemma_run_with_crc_before::<Insn>(WithoutCrcView::Header1, b);
    let payload = with_hardware_error_status(
        id,
        Err::<Insn::Recv, SoftwareError>(spec_check(error)->Ok_0->Some_0),
        crc_from(crc_byte(c7, error), p),
        error & 0x80 != 0,
    );
    assert(tail.drop_first() =~= seq![c1] + rest);
    assert((seq![c1] + rest).drop_first() =~= rest);
    assert(run_with_crc::<Insn>(WithCrcView::FirstCrcByte(payload), tail) == run_with_crc::<Insn>(
        WithCrcView::SecondCrcByte(c0, payload),
        seq![c1] + rest,
    ));
}

/// The persistent parser reports a status packet with a software error as
/// the parser with CRC check does, whatever actuator sent it; one refused
/// on its CRC is skipped and reading starts over.
pub proof fn law_persistent_reports_software_error<Insn: Instruction>(
    expected_id: u8,
    id: u8,
    l: u8,
    h: u8,
    error: u8,
    p: Seq<u8>,
    c0: u8,
    c1: u8,
    rest: Seq<u8>,
)
    requires
        id <= MAX_ID,
        spec_check(error) matches Ok(Some(_)),
        p.len() == skipped_after_software_error(from_le16(l, h)),
    ensures
        ({
            let e = expected_length::<Insn::Recv>();
            let expected = crc16(status_head_with(id, lo(e), hi(e), error) + p);
            run_persistent::<Insn>(
                fresh(expected_id),
                status_head_with(id, l, h, error) + p + seq![c0, c1] + rest,
            ) == if from_le16(c0, c1) == expected {
                Run::<(u8, WithCrcView<Insn::Recv>), Insn::Recv, PersistentError<Insn::Recv>>::Stopped(
                    PersistentError::Software(spec_check(error)->Ok_0->Some_0),
                    rest,
                )
            } else {
                run_persistent::<Insn>(fresh(expected_id), rest)
            }
        }),
{
    law_software_error_packet_is_reported::<Insn>(id, l, h, error, p, c0, c1, rest);
    lemma_run_persistent_before::<Insn>(
        expected_id,
        WithCrcView::BeforeCrc(WithoutCrcView::Header1),
        status_head_with(id, l, h, error) + p + seq![c0, c1] + rest,
    );
}

/// The persistent parser, started in the middle of a packet that begins
/// with two first header bytes and holds no other, skips what is left of it
/// and reads what follows as if it had started there.
pub proof fn law_persistent_skips_partial_packet<Insn: Instruction>(
    expected_id: u8,
    packet: Seq<u8>,
    d: int,
    bytes: Seq<u8>,
)
    requires
        packet.len() >= 3,
        packet[0] == 0xFF,
        packet[1] == 0xFF,
        packet[2] != 0xFF,
        forall|i: int| 2 <= i < packet.len() ==> packet[i] != 0xFF,
        1 <= d < packet.len(),
    ensures
        run_persistent::<Insn>(fresh(expected_id), packet.skip(d) + bytes) == run_persistent::<
            Insn,
        >(fresh(expected_id), bytes),
{
    if d >= 2 {
        law_persistent_skips_junk::<Insn>(expected_id, packet.skip(d), bytes);
    } else {
        let input = packet.skip(1) + bytes;
        assert(input[0] == 0xFF);
        assert(input.drop_first()[0] == packet[2]);
        assert(input.drop_first().drop_first() =~= packet.skip(3) + bytes);
        let v1 = (expected_id, WithCrcView::<Insn::Recv>::BeforeCrc(WithoutCrcView::Header2));
        assert(step_persistent::<Insn>(fresh(expected_id), 0xFF) == Step::<
            (u8, WithCrcView<Insn::Recv>),
            Insn::Recv,
            PersistentError<Insn::Recv>,
        >::Next(v1));
        assert(run_persistent::<Insn>(fresh(expected_id), input) == run_persistent::<Insn>(
            v1,
            input.drop_first(),
        ));
        assert(step_persistent::<Insn>(v1, packet[2]) == Step::<
            (u8, WithCrcView<Insn::Recv>),
            Insn::Recv,
            PersistentError<Insn::Recv>,
        >::Next(fresh(expected_id)));
        assert(run_persistent::<Insn>(v1, input.drop_first()) == run_persistent::<Insn>(
            fresh(expected_id),
            input.drop_first().drop_first(),
        ));
        law_persistent_skips_junk::<Insn>(expected_id, packet.skip(3), bytes);
    }
}

/// The software-error codes of the protocol, in order from 1 to 7, and how
/// an error byte is read: its lower seven bits name no error (0), one of the
/// seven errors (the one whose code they are), or nothing valid (8 and up);
/// the highest bit, the hardware-error flag, plays no part.
pub proof fn law_software_error_codes(e: SoftwareError, byte: u8)
    ensures
        software_error_code(SoftwareError::ResultFail) == 1,
        software_error_code(SoftwareError::InstructionError) == 2,
        software_error_code(SoftwareError::CrcError) == 3,
        software_error_code(SoftwareError::DataRangeError) == 4,
        software_error_code(SoftwareError::DataLengthError) == 5,
        software_error_code(SoftwareError::DataLimitError) == 6,
        software_error_code(SoftwareError::AccessError) == 7,
        1 <= software_error_code(e) <= 7,
        (spec_check(byte) is Ok) <==> byte % 128 <= 7,
        spec_check(byte) == Ok::<Option<SoftwareError>, InvalidSoftwareError>(None) <==> byte % 128 == 0,
        spec_check(byte) == Ok::<Option<SoftwareError>, InvalidSoftwareError>(Some(e)) <==> byte % 128
            == software_error_code(e),
        spec_check(byte) == spec_check((byte % 128) as u8),
        spec_check(byte) matches Err(invalid) ==> invalid.spec_byte_without_msb() == byte % 128,
{
}

} // verus!
