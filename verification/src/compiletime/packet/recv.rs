//! Status packets from an actuator whose ID is fixed by a type parameter.

use core::marker::PhantomData;

use vstd::prelude::*;

use vstd::slice::slice_subrange;

use crate::bytes::{from_le16, hi, lo};
use crate::compiletime::instruction::Instruction;
use crate::constants::{
    expect_byte, expect_u16, lemma_expect_byte, lemma_expect_u16, parse_byte, parse_le16, WrongByte,
};
use crate::crc::{crc16, crc_from, lemma_crc_concat, lemma_crc_four, Crc};
use crate::parse::{after, Parse, Parsed};
use crate::proto::packet::recv::spec_check;

pub use crate::proto::packet::recv::{InvalidSoftwareError, SoftwareError};

verus! {

/// Why reading a status packet failed or what error it reported.
pub enum Error<Insn: Instruction> {
    /// The bytes were not a status packet, or its CRC did not match.
    Parsing(ParseOrCrcError<Insn>),
    /// The actuator reported a software error.
    Software(SoftwareError),
    /// The actuator reported a hardware error.
    Hardware,
}

/// A byte of a status packet that is not what the protocol requires there.
pub enum ParseError<Insn: Instruction> {
    WrongHeader(WrongByte),
    WrongReservedByte(WrongByte),
    WrongId(WrongByte),
    WrongLength(WrongByte),
    WrongInstruction(WrongByte),
    InstructionSpecific(<Insn::Recv as Parse<u8>>::Error),
    InvalidSoftwareError(InvalidSoftwareError),
}

/// A malformed status packet, or one whose CRC does not match its bytes.
pub enum ParseOrCrcError<Insn: Instruction> {
    Crc { expected: u16, actual: u16 },
    Parse(ParseError<Insn>),
}

/// The length field of a status packet with `recv_bytes` parameter bytes.
pub open spec fn status_length(recv_bytes: u16) -> u16 {
    ((recv_bytes + 4) % 65536) as u16
}

/// The first eight bytes of a status packet from actuator `id`.
pub open spec fn status_head(id: u8, length: u16) -> Seq<u8> {
    seq![0xFFu8, 0xFFu8, 0xFDu8, 0x00u8, id, lo(length), hi(length), 0x55u8]
}

/// The status packet from actuator `id` with the error byte `error` and the
/// parameter bytes `params`, CRC (little-endian) included.
pub open spec fn fixed_status_packet(id: u8, length: u16, error: u8, params: Seq<u8>) -> Seq<u8> {
    let body = status_head(id, length) + seq![error] + params;
    body + seq![lo(crc16(body)), hi(crc16(body))]
}

/// Reading one fixed part at `offset` of the first eight bytes: more input
/// is needed, a wrong byte is reported with `wrap`, or `rest` follows.
pub open spec fn then<Insn: Instruction>(
    first: Parsed<(), WrongByte>,
    wrap: spec_fn(WrongByte) -> ParseError<Insn>,
    offset: usize,
    rest: Parsed<(), ParseError<Insn>>,
) -> Parsed<(), ParseError<Insn>> {
    match first {
        Parsed::NeedMore => Parsed::NeedMore,
        Parsed::Failed(e, n) => Parsed::Failed(wrap(e), (offset + n) as usize),
        Parsed::Done(_, _) => rest,
    }
}

/// What reading the first eight bytes of a status packet from actuator `id`
/// with the length field `length` gives.
pub open spec fn head_parse<Insn: Instruction>(id: u8, length: u16, input: Seq<u8>) -> Parsed<
    (),
    ParseError<Insn>,
> {
    then(
        expect_byte(0xFF, input),
        |e| ParseError::<Insn>::WrongHeader(e),
        0,
        then(
            expect_byte(0xFF, after(input, 1)),
            |e| ParseError::<Insn>::WrongHeader(e),
            1,
            then(
                expect_byte(0xFD, after(input, 2)),
                |e| ParseError::<Insn>::WrongHeader(e),
                2,
                then(
                    expect_byte(0x00, after(input, 3)),
                    |e| ParseError::<Insn>::WrongReservedByte(e),
                    3,
                    then(
                        expect_byte(id, after(input, 4)),
                        |e| ParseError::<Insn>::WrongId(e),
                        4,
                        then(
                            expect_u16(length, after(input, 5)),
                            |e| ParseError::<Insn>::WrongLength(e),
                            5,
                            then(
                                expect_byte(0x55, after(input, 7)),
                                |e| ParseError::<Insn>::WrongInstruction(e),
                                7,
                                Parsed::Done((), 8),
                            ),
                        ),
                    ),
                ),
            ),
        ),
    )
}

/// Reading the first eight bytes: a wrong byte is reported within what was
/// given, success means that the bytes are those of the status head, and
/// more input is needed only while fewer than eight bytes were given.
pub proof fn lemma_head_parse<Insn: Instruction>(id: u8, length: u16, input: Seq<u8>)
    ensures
        match head_parse::<Insn>(id, length, input) {
            Parsed::Done(_, n) => n == 8 && input.len() >= 8 && input.take(8) == status_head(
                id,
                length,
            ),
            Parsed::Failed(_, n) => 1 <= n <= 8 && n <= input.len(),
            Parsed::NeedMore => input.len() < 8,
        },
        input.len() >= 8 && input.take(8) == status_head(id, length) ==> head_parse::<Insn>(
            id,
            length,
            input,
        ) == Parsed::<(), ParseError<Insn>>::Done((), 8),
{
    lemma_expect_byte(0xFF, input);
    lemma_expect_byte(0xFF, after(input, 1));
    lemma_expect_byte(0xFD, after(input, 2));
    lemma_expect_byte(0x00, after(input, 3));
    lemma_expect_byte(id, after(input, 4));
    lemma_expect_u16(length, after(input, 5));
    lemma_expect_byte(0x55, after(input, 7));
    if input.len() >= 8 {
        let h = status_head(id, length);
        if input.take(8) == h {
            assert(input[0] == h[0] && input[1] == h[1] && input[2] == h[2] && input[3] == h[3]);
            assert(input[4] == h[4] && input[5] == h[5] && input[6] == h[6] && input[7] == h[7]);
        }
        if head_parse::<Insn>(id, length, input) is Done {
            assert(input.take(8) =~= h);
        }
    }
}

/// Reads the first eight bytes of a status packet.
fn parse_head<Insn: Instruction>(id: u8, length: u16, input: &[u8]) -> (r: Parsed<(), ParseError<Insn>>)
    ensures
        r == head_parse::<Insn>(id, length, input@),
{
    proof {
        lemma_expect_byte(0xFF, input@);
        lemma_expect_byte(0xFF, after(input@, 1));
        lemma_expect_byte(0xFD, after(input@, 2));
        lemma_expect_byte(0x00, after(input@, 3));
        lemma_expect_byte(id, after(input@, 4));
        lemma_expect_u16(length, after(input@, 5));
        lemma_expect_byte(0x55, after(input@, 7));
    }
    let n = input.len();
    match parse_byte(0xFF, input) {
        Parsed::NeedMore => return Parsed::NeedMore,
        Parsed::Failed(e, k) => return Parsed::Failed(ParseError::WrongHeader(e), k),
        Parsed::Done(_, _) => {},
    }
    match parse_byte(0xFF, slice_subrange(input, 1, n)) {
        Parsed::NeedMore => return Parsed::NeedMore,
        Parsed::Failed(e, k) => return Parsed::Failed(ParseError::WrongHeader(e), 1 + k),
        Parsed::Done(_, _) => {},
    }
    match parse_byte(0xFD, slice_subrange(input, 2, n)) {
        Parsed::NeedMore => return Parsed::NeedMore,
        Parsed::Failed(e, k) => return Parsed::Failed(ParseError::WrongHeader(e), 2 + k),
        Parsed::Done(_, _) => {},
    }
    match parse_byte(0x00, slice_subrange(input, 3, n)) {
        Parsed::NeedMore => return Parsed::NeedMore,
        Parsed::Failed(e, k) => return Parsed::Failed(ParseError::WrongReservedByte(e), 3 + k),
        Parsed::Done(_, _) => {},
    }
    match parse_byte(id, slice_subrange(input, 4, n)) {
        Parsed::NeedMore => return Parsed::NeedMore,
        Parsed::Failed(e, k) => return Parsed::Failed(ParseError::WrongId(e), 4 + k),
        Parsed::Done(_, _) => {},
    }
    match parse_le16(length, slice_subrange(input, 5, n)) {
        Parsed::NeedMore => return Parsed::NeedMore,
        Parsed::Failed(e, k) => return Parsed::Failed(ParseError::WrongLength(e), 5 + k),
        Parsed::Done(_, _) => {},
    }
    match parse_byte(0x55, slice_subrange(input, 7, n)) {
        Parsed::NeedMore => Parsed::NeedMore,
        Parsed::Failed(e, k) => Parsed::Failed(ParseError::WrongInstruction(e), 7 + k),
        Parsed::Done(_, _) => Parsed::Done((), 8),
    }
}

/// A status packet read up to its CRC: the errors it reports, its payload,
/// and the CRC of the bytes read.
pub struct WithErrorCode<Insn: Instruction> {
    software_error: Option<SoftwareError>,
    hardware_error: bool,
    parameters: <Insn::Recv as Parse<u8>>::Output,
    expected_crc: u16,
}

impl<Insn: Instruction> WithErrorCode<Insn> {
    /// The software error reported, if any.
    pub closed spec fn spec_software_error(&self) -> Option<SoftwareError> {
        self.software_error
    }

    /// Whether the hardware-error bit was set.
    pub closed spec fn spec_hardware_error(&self) -> bool {
        self.hardware_error
    }

    /// The payload.
    pub closed spec fn spec_parameters(&self) -> <Insn::Recv as Parse<u8>>::Output {
        self.parameters
    }

    /// The CRC of the bytes read.
    pub closed spec fn spec_expected_crc(&self) -> u16 {
        self.expected_crc
    }

    /// The software error reported in the error byte, if any.
    pub fn software_error(&self) -> (r: Option<SoftwareError>)
        ensures
            r == self.spec_software_error(),
    {
        self.software_error
    }

    /// Whether the hardware-error bit of the error byte was set.
    pub fn hardware_error(&self) -> (r: bool)
        ensures
            r == self.spec_hardware_error(),
    {
        self.hardware_error
    }

    /// The payload.
    pub fn parameters(&self) -> (r: &<Insn::Recv as Parse<u8>>::Output)
        ensures
            *r == self.spec_parameters(),
    {
        &self.parameters
    }

    /// The CRC of every byte read, which the packet's CRC field must hold.
    pub fn expected_crc(&self) -> (r: u16)
        ensures
            r == self.spec_expected_crc(),
    {
        self.expected_crc
    }
}

/// The packet read up to its CRC, with what it reports, its payload and the
/// CRC of its bytes.
pub closed spec fn with_error_code<Insn: Instruction>(
    software_error: Option<SoftwareError>,
    hardware_error: bool,
    parameters: <Insn::Recv as Parse<u8>>::Output,
    expected_crc: u16,
) -> WithErrorCode<Insn> {
    WithErrorCode { software_error, hardware_error, parameters, expected_crc }
}

/// A packet read up to its CRC holds what it was made with.
pub proof fn lemma_with_error_code<Insn: Instruction>(
    software_error: Option<SoftwareError>,
    hardware_error: bool,
    parameters: <Insn::Recv as Parse<u8>>::Output,
    expected_crc: u16,
)
    ensures
        with_error_code::<Insn>(software_error, hardware_error, parameters, expected_crc).spec_software_error()
            == software_error,
        with_error_code::<Insn>(software_error, hardware_error, parameters, expected_crc).spec_hardware_error()
            == hardware_error,
        with_error_code::<Insn>(software_error, hardware_error, parameters, expected_crc).spec_parameters()
            == parameters,
        with_error_code::<Insn>(software_error, hardware_error, parameters, expected_crc).spec_expected_crc()
            == expected_crc,
{
}

/// A status packet from actuator `ID` answering `Insn`, up to its CRC.
pub struct WithoutCrc<Insn: Instruction, const ID: u8>(PhantomData<Insn>);

impl<Insn: Instruction, const ID: u8> WithoutCrc<Insn, ID> {
    /// The CRC register after the eight fixed bytes of the status packet.
    pub fn crc_init() -> (r: Crc)
        ensures
            r.state() == crc16(status_head(ID, status_length(Insn::RECV_BYTES))),
    {
        let length = (((Insn::RECV_BYTES as u32) + 4) % 65536) as u16;
        let lo_byte = (length % 256) as u8;
        let hi_byte = (length / 256) as u8;
        let mut crc = Crc::new();
        crc.push(0xFF);
        crc.push(0xFF);
        crc.push(0xFD);
        crc.push(0x00);
        crc.push(ID);
        crc.push(lo_byte);
        crc.push(hi_byte);
        crc.push(0x55);
        proof {
            let first = seq![0xFFu8, 0xFFu8, 0xFDu8, 0x00u8];
            let second = seq![ID, lo_byte, hi_byte, 0x55u8];
            lemma_crc_four(0, 0xFF, 0xFF, 0xFD, 0x00);
            lemma_crc_four(crc_from(0, first), ID, lo_byte, hi_byte, 0x55);
            lemma_crc_concat(0, first, second);
            assert(first + second =~= status_head(ID, status_length(Insn::RECV_BYTES)));
        }
        crc
    }
}

impl<Insn: Instruction, const ID: u8> Parse<u8> for WithoutCrc<Insn, ID> {
    type Output = WithErrorCode<Insn>;
    type Error = ParseError<Insn>;

    open spec fn spec_parse(input: Seq<u8>) -> Parsed<WithErrorCode<Insn>, ParseError<Insn>> {
        match head_parse::<Insn>(ID, status_length(Insn::RECV_BYTES), input) {
            Parsed::NeedMore => Parsed::NeedMore,
            Parsed::Failed(e, n) => Parsed::Failed(e, n),
            Parsed::Done(_, _) => if input.len() < 9 {
                Parsed::NeedMore
            } else {
                match spec_check(input[8]) {
                    Err(e) => Parsed::Failed(ParseError::InvalidSoftwareError(e), 9),
                    Ok(software_error) => match <Insn::Recv as Parse<u8>>::spec_parse(after(input, 9)) {
                        Parsed::NeedMore => Parsed::NeedMore,
                        Parsed::Failed(e, n) => Parsed::Failed(
                            ParseError::InstructionSpecific(e),
                            (9 + n) as usize,
                        ),
                        Parsed::Done(parameters, n) => Parsed::Done(
                            with_error_code(
                                software_error,
                                input[8] >= 128,
                                parameters,
                                crc16(input.take(9 + n)),
                            ),
                            (9 + n) as usize,
                        ),
                    },
                }
            },
        }
    }

    proof fn lemma_parse_within(input: Seq<u8>) {
        lemma_head_parse::<Insn>(ID, status_length(Insn::RECV_BYTES), input);
        <Insn::Recv as Parse<u8>>::lemma_parse_within(after(input, 9));
    }

    fn parse(input: &[u8]) -> (r: Parsed<WithErrorCode<Insn>, ParseError<Insn>>) {
        let length = (((Insn::RECV_BYTES as u32) + 4) % 65536) as u16;
        proof {
            lemma_head_parse::<Insn>(ID, length, input@);
        }
        match parse_head::<Insn>(ID, length, input) {
            Parsed::NeedMore => return Parsed::NeedMore,
            Parsed::Failed(e, n) => return Parsed::Failed(e, n),
            Parsed::Done(_, _) => {},
        }
        if input.len() < 9 {
            return Parsed::NeedMore;
        }
        let mut crc_state = Self::crc_init();
        let byte = input[8];
        crc_state.push(byte);
        let software_error = match SoftwareError::check(byte) {
            Ok(software_error) => software_error,
            Err(e) => return Parsed::Failed(ParseError::InvalidSoftwareError(e), 9),
        };
        let hardware_error = (byte & 0x80) != 0;
        assert(hardware_error == (byte >= 128)) by (bit_vector)
            requires
                hardware_error == ((byte & 0x80) != 0),
        ;
        let rest = slice_subrange(input, 9, input.len());
        proof {
            <Insn::Recv as Parse<u8>>::lemma_parse_within(rest@);
        }
        match <Insn::Recv as Parse<u8>>::parse(rest) {
            Parsed::NeedMore => Parsed::NeedMore,
            Parsed::Failed(e, n) => Parsed::Failed(ParseError::InstructionSpecific(e), 9 + n),
            Parsed::Done(parameters, n) => {
                crc_state.recurse_over_bytes(slice_subrange(input, 9, 9 + n));
                proof {
                    let head = status_head(ID, length);
                    assert(input@.take(8) =~= head);
                    lemma_crc_concat(0, head, seq![byte]);
                    assert(head + seq![byte] =~= input@.take(9));
                    lemma_crc_concat(0, input@.take(9), input@.subrange(9, 9 + n));
                    assert(input@.take(9) + input@.subrange(9, 9 + n) =~= input@.take(9 + n));
                    assert(crc_from(0, seq![byte]) == crate::crc::crc_byte(0, byte)) by {
                        crate::crc::lemma_crc_push(0, Seq::empty(), byte);
                        assert(Seq::<u8>::empty().push(byte) =~= seq![byte]);
                    }
                    crate::crc::lemma_crc_push(0, head, byte);
                    assert(head.push(byte) =~= head + seq![byte]);
                }
                let expected_crc = crc_state.collapse();
                Parsed::Done(
                    WithErrorCode { software_error, hardware_error, parameters, expected_crc },
                    9 + n,
                )
            },
        }
    }
}

/// A status packet from actuator `ID` answering `Insn`, CRC included.
pub struct WithCrc<Insn: Instruction, const ID: u8>(PhantomData<Insn>);

impl<Insn: Instruction, const ID: u8> Parse<u8> for WithCrc<Insn, ID> {
    type Output = <Insn::Recv as Parse<u8>>::Output;
    type Error = Error<Insn>;

    open spec fn spec_parse(input: Seq<u8>) -> Parsed<<Insn::Recv as Parse<u8>>::Output, Error<Insn>> {
        match WithoutCrc::<Insn, ID>::spec_parse(input) {
            Parsed::NeedMore => Parsed::NeedMore,
            Parsed::Failed(e, n) => Parsed::Failed(Error::Parsing(ParseOrCrcError::Parse(e)), n),
            Parsed::Done(w, n) => if input.len() < n + 2 {
                Parsed::NeedMore
            } else {
                let actual = from_le16(input[n as int], input[n + 1]);
                if actual != w.spec_expected_crc() {
                    Parsed::Failed(
                        Error::Parsing(ParseOrCrcError::Crc { expected: w.spec_expected_crc(), actual }),
                        (n + 2) as usize,
                    )
                } else {
                    match w.spec_software_error() {
                        Some(e) => Parsed::Failed(Error::Software(e), (n + 2) as usize),
                        None => if w.spec_hardware_error() {
                            Parsed::Failed(Error::Hardware, (n + 2) as usize)
                        } else {
                            Parsed::Done(w.spec_parameters(), (n + 2) as usize)
                        },
                    }
                }
            },
        }
    }

    proof fn lemma_parse_within(input: Seq<u8>) {
        WithoutCrc::<Insn, ID>::lemma_parse_within(input);
    }

    fn parse(input: &[u8]) -> (r: Parsed<<Insn::Recv as Parse<u8>>::Output, Error<Insn>>) {
        proof {
            WithoutCrc::<Insn, ID>::lemma_parse_within(input@);
        }
        match WithoutCrc::<Insn, ID>::parse(input) {
            Parsed::NeedMore => Parsed::NeedMore,
            Parsed::Failed(e, n) => Parsed::Failed(Error::Parsing(ParseOrCrcError::Parse(e)), n),
            Parsed::Done(w, n) => {
                if input.len() - n < 2 {
                    return Parsed::NeedMore;
                }
                let WithErrorCode { software_error, hardware_error, parameters, expected_crc } = w;
                let actual_crc = crate::bytes::u16_from_le(input[n], input[n + 1]);
                if actual_crc != expected_crc {
                    return Parsed::Failed(
                        Error::Parsing(ParseOrCrcError::Crc { expected: expected_crc, actual: actual_crc }),
                        n + 2,
                    );
                }
                if let Some(error) = software_error {
                    return Parsed::Failed(Error::Software(error), n + 2);
                }
                if hardware_error {
                    return Parsed::Failed(Error::Hardware, n + 2);
                }
                Parsed::Done(parameters, n + 2)
            },
        }
    }
}

/// The outcome of reading a well-formed status packet whose payload parser
/// gave `payload`: the error its error byte reports, or the payload.
pub open spec fn status_outcome<Insn: Instruction>(
    error: u8,
    payload: <Insn::Recv as Parse<u8>>::Output,
    len: usize,
) -> Parsed<<Insn::Recv as Parse<u8>>::Output, Error<Insn>> {
    match spec_check(error) {
        Err(e) => Parsed::Failed(Error::Parsing(ParseOrCrcError::Parse(ParseError::InvalidSoftwareError(e))), 9),
        Ok(Some(e)) => Parsed::Failed(Error::Software(e), len),
        Ok(None) => if error >= 128 {
            Parsed::Failed(Error::Hardware, len)
        } else {
            Parsed::Done(payload, len)
        },
    }
}

/// A status packet from actuator `ID` is read back: its payload, or the
/// error that its error byte reports, after exactly its own bytes (whatever
/// follows it), provided that the payload parser reads exactly `params`.
pub proof fn law_fixed_status_packet_is_read<Insn: Instruction, const ID: u8>(
    error: u8,
    params: Seq<u8>,
    tail: Seq<u8>,
    payload: <Insn::Recv as Parse<u8>>::Output,
)
    requires
        <Insn::Recv as Parse<u8>>::spec_parse(
            fixed_status_packet(ID, status_length(Insn::RECV_BYTES), error, params).skip(9) + tail,
        ) == Parsed::<<Insn::Recv as Parse<u8>>::Output, <Insn::Recv as Parse<u8>>::Error>::Done(
            payload,
            params.len() as usize,
        ),
        params.len() + 11 <= usize::MAX,
    ensures
        WithCrc::<Insn, ID>::spec_parse(
            fixed_status_packet(ID, status_length(Insn::RECV_BYTES), error, params) + tail,
        ) == status_outcome::<Insn>(error, payload, (params.len() + 11) as usize),
{
    let length = status_length(Insn::RECV_BYTES);
    let head = status_head(ID, length);
    let body = head + seq![error] + params;
    let packet = fixed_status_packet(ID, length, error, params);
    let input = packet + tail;
    let m = params.len() as int;
    assert(input.take(8) =~= head);
    lemma_head_parse::<Insn>(ID, length, input);
    assert(input[8] == error);
    assert(after(input, 9) =~= packet.skip(9) + tail);
    assert(input.take(9 + m) =~= body);
    assert(input[9 + m] == lo(crc16(body)));
    assert(input[10 + m] == hi(crc16(body)));
    crate::bytes::lemma_le16_roundtrip(crc16(body));
}

/// A status packet whose CRC field does not hold the CRC of its other bytes
/// is refused, with both values, after exactly its own bytes.
pub proof fn law_corrupted_status_crc_is_refused<Insn: Instruction, const ID: u8>(
    error: u8,
    params: Seq<u8>,
    crc_lo: u8,
    crc_hi: u8,
    tail: Seq<u8>,
    payload: <Insn::Recv as Parse<u8>>::Output,
)
    requires
        <Insn::Recv as Parse<u8>>::spec_parse(params + seq![crc_lo, crc_hi] + tail) == Parsed::<
            <Insn::Recv as Parse<u8>>::Output,
            <Insn::Recv as Parse<u8>>::Error,
        >::Done(payload, params.len() as usize),
        spec_check(error) is Ok,
        from_le16(crc_lo, crc_hi) != crc16(
            status_head(ID, status_length(Insn::RECV_BYTES)) + seq![error] + params,
        ),
        params.len() + 11 <= usize::MAX,
    ensures
        WithCrc::<Insn, ID>::spec_parse(
            status_head(ID, status_length(Insn::RECV_BYTES)) + seq![error] + params + seq![
                crc_lo,
                crc_hi,
            ] + tail,
        ) == Parsed::<<Insn::Recv as Parse<u8>>::Output, Error<Insn>>::Failed(
            Error::Parsing(
                ParseOrCrcError::Crc {
                    expected: crc16(
                        status_head(ID, status_length(Insn::RECV_BYTES)) + seq![error] + params,
                    ),
                    actual: from_le16(crc_lo, crc_hi),
                },
            ),
            (params.len() + 11) as usize,
        ),
{
    let length = status_length(Insn::RECV_BYTES);
    let head = status_head(ID, length);
    let body = head + seq![error] + params;
    let input = body + seq![crc_lo, crc_hi] + tail;
    let m = params.len() as int;
    assert(input.take(8) =~= head);
    lemma_head_parse::<Insn>(ID, length, input);
    assert(input[8] == error);
    assert(after(input, 9) =~= params + seq![crc_lo, crc_hi] + tail);
    assert(input.take(9 + m) =~= body);
    assert(input[9 + m] == crc_lo);
    assert(input[10 + m] == crc_hi);
}

/// A status packet from another actuator is refused at its ID byte, which
/// is reported against `ID`.
pub proof fn law_other_id_is_refused<Insn: Instruction, const ID: u8>(input: Seq<u8>)
    requires
        input.len() >= 5,
        input.take(4) == seq![0xFFu8, 0xFFu8, 0xFDu8, 0x00u8],
        input[4] != ID,
    ensures
        WithCrc::<Insn, ID>::spec_parse(input) matches Parsed::Failed(
            Error::Parsing(ParseOrCrcError::Parse(ParseError::WrongId(e))),
            n,
        ) && n == 5 && e.spec_expected() == ID && e.spec_actual() == input[4],
{
    let t = input.take(4);
    assert(input[0] == t[0] && input[1] == t[1] && input[2] == t[2] && input[3] == t[3]);
    lemma_expect_byte(0xFF, input);
    lemma_expect_byte(0xFF, after(input, 1));
    lemma_expect_byte(0xFD, after(input, 2));
    lemma_expect_byte(0x00, after(input, 3));
    lemma_expect_byte(ID, after(input, 4));
}

/// A byte other than the first header byte cannot begin a status packet: it
/// is refused on its own.
pub proof fn law_non_header_byte_is_refused<Insn: Instruction, const ID: u8>(input: Seq<u8>)
    requires
        input.len() >= 1,
        input[0] != 0xFF,
    ensures
        WithCrc::<Insn, ID>::spec_parse(input) matches Parsed::Failed(
            Error::Parsing(ParseOrCrcError::Parse(ParseError::WrongHeader(e))),
            n,
        ) && n == 1 && e.spec_expected() == 0xFF && e.spec_actual() == input[0],
{
    lemma_expect_byte(0xFF, input);
}

/// A refusal or a reported error always comes after at least one byte.
pub proof fn lemma_failure_reads_a_byte<Insn: Instruction, const ID: u8>(input: Seq<u8>)
    requires
        input.len() <= usize::MAX,
    ensures
        WithCrc::<Insn, ID>::spec_parse(input) matches Parsed::Failed(_, n) ==> 1 <= n <= input.len(),
        WithCrc::<Insn, ID>::spec_parse(input) matches Parsed::Done(_, n) ==> 1 <= n <= input.len(),
{
    lemma_head_parse::<Insn>(ID, status_length(Insn::RECV_BYTES), input);
    <Insn::Recv as Parse<u8>>::lemma_parse_within(after(input, 9));
}

/// A first header byte followed by another byte than the second header byte
/// is refused after those two bytes.
pub proof fn law_broken_header_is_refused<Insn: Instruction, const ID: u8>(input: Seq<u8>)
    requires
        input.len() >= 2,
        input[0] == 0xFF,
        input[1] != 0xFF,
    ensures
        WithCrc::<Insn, ID>::spec_parse(input) matches Parsed::Failed(
            Error::Parsing(ParseOrCrcError::Parse(ParseError::WrongHeader(e))),
            n,
        ) && n == 2 && e.spec_expected() == 0xFF && e.spec_actual() == input[1],
{
    lemma_expect_byte(0xFF, input);
    lemma_expect_byte(0xFF, after(input, 1));
    assert(after(input, 1)[0] == input[1]);
}

} // verus!
