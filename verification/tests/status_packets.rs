use dxl::compiletime::instruction::{recv, Ping};
use dxl::compiletime::packet::recv::{Error, ParseError, ParseOrCrcError, SoftwareError};
use dxl::parse::Parsed;

const PING_STATUS: [u8; 14] = [
    0xFF, 0xFF, 0xFD, 0x00, 0x01, 0x07, 0x00, 0x55, 0x00, 0x06, 0x04, 0x26, 0x65, 0x5D,
];

const EXPECTED: recv::Ping = recv::Ping { model_number: 1030, firmware_version: 38 };

fn with_error_byte(error: u8) -> Vec<u8> {
    let mut bytes = PING_STATUS[..12].to_vec();
    bytes[8] = error;
    let crc = dxl::crc::crc_of(&bytes);
    bytes.extend_from_slice(&crc.to_le_bytes());
    bytes
}

#[test]
fn ping_status_is_read() {
    match dxl::compiletime::packet::parse::<Ping, 1>(&PING_STATUS) {
        Parsed::Done(ping, n) => {
            assert_eq!(ping, EXPECTED);
            assert_eq!(n, 14);
        },
        _ => panic!("the ping status was not read"),
    }
}

#[test]
fn ping_status_followed_by_more_bytes_is_read_alone() {
    let mut bytes = PING_STATUS.to_vec();
    bytes.extend_from_slice(&[0xFF, 0x00, 0x12]);
    assert!(matches!(
        dxl::compiletime::packet::parse::<Ping, 1>(&bytes),
        Parsed::Done(p, 14) if p == EXPECTED
    ));
}

#[test]
fn incomplete_ping_status_needs_more() {
    for len in 0..PING_STATUS.len() {
        assert!(matches!(dxl::compiletime::packet::parse::<Ping, 1>(&PING_STATUS[..len]), Parsed::NeedMore));
    }
}

#[test]
fn corrupted_crc_is_refused() {
    let mut bytes = PING_STATUS;
    bytes[13] = 0x5E;
    match dxl::compiletime::packet::parse::<Ping, 1>(&bytes) {
        Parsed::Failed(Error::Parsing(ParseOrCrcError::Crc { expected, actual }), n) => {
            assert_eq!(expected, 0x5D65);
            assert_eq!(actual, 0x5E65);
            assert_eq!(n, 14);
        },
        _ => panic!("a corrupted CRC was not refused"),
    }
}

#[test]
fn status_from_other_id_is_refused() {
    match dxl::compiletime::packet::parse::<Ping, 2>(&PING_STATUS) {
        Parsed::Failed(Error::Parsing(ParseOrCrcError::Parse(ParseError::WrongId(e))), n) => {
            assert_eq!(e.expected(), 2);
            assert_eq!(e.actual(), 1);
            assert_eq!(n, 5);
        },
        _ => panic!("a status from another actuator was not refused"),
    }
}

#[test]
fn wrong_header_is_refused_at_the_wrong_byte() {
    let mut bytes = PING_STATUS;
    bytes[2] = 0xFE;
    match dxl::compiletime::packet::parse::<Ping, 1>(&bytes) {
        Parsed::Failed(Error::Parsing(ParseOrCrcError::Parse(ParseError::WrongHeader(e))), n) => {
            assert_eq!(e.expected(), 0xFD);
            assert_eq!(e.actual(), 0xFE);
            assert_eq!(n, 3);
        },
        _ => panic!("a wrong header was not refused"),
    }
}

#[test]
fn wrong_reserved_byte_is_refused() {
    let mut bytes = PING_STATUS;
    bytes[3] = 0x01;
    assert!(matches!(
        dxl::compiletime::packet::parse::<Ping, 1>(&bytes),
        Parsed::Failed(Error::Parsing(ParseOrCrcError::Parse(ParseError::WrongReservedByte(_))), 4)
    ));
}

#[test]
fn wrong_length_is_refused() {
    let mut bytes = PING_STATUS;
    bytes[6] = 0x01;
    match dxl::compiletime::packet::parse::<Ping, 1>(&bytes) {
        Parsed::Failed(Error::Parsing(ParseOrCrcError::Parse(ParseError::WrongLength(e))), n) => {
            assert_eq!(e.expected(), 0x00);
            assert_eq!(e.actual(), 0x01);
            assert_eq!(n, 7);
        },
        _ => panic!("a wrong length was not refused"),
    }
}

#[test]
fn wrong_instruction_is_refused() {
    let mut bytes = PING_STATUS;
    bytes[7] = 0x01;
    assert!(matches!(
        dxl::compiletime::packet::parse::<Ping, 1>(&bytes),
        Parsed::Failed(Error::Parsing(ParseOrCrcError::Parse(ParseError::WrongInstruction(_))), 8)
    ));
}

#[test]
fn software_error_is_reported() {
    let bytes = with_error_byte(0x04);
    assert_eq!(&bytes[12..], &[0x66, 0x8D][..]);
    assert!(matches!(
        dxl::compiletime::packet::parse::<Ping, 1>(&bytes),
        Parsed::Failed(Error::Software(SoftwareError::DataRangeError), 14)
    ));
}

#[test]
fn hardware_error_is_reported() {
    let bytes = with_error_byte(0x80);
    assert!(matches!(dxl::compiletime::packet::parse::<Ping, 1>(&bytes), Parsed::Failed(Error::Hardware, 14)));
}

#[test]
fn software_error_wins_over_hardware_error() {
    let bytes = with_error_byte(0x81);
    assert!(matches!(
        dxl::compiletime::packet::parse::<Ping, 1>(&bytes),
        Parsed::Failed(Error::Software(SoftwareError::ResultFail), 14)
    ));
}

#[test]
fn invalid_software_error_is_refused() {
    let bytes = with_error_byte(0x08);
    match dxl::compiletime::packet::parse::<Ping, 1>(&bytes) {
        Parsed::Failed(Error::Parsing(ParseOrCrcError::Parse(ParseError::InvalidSoftwareError(e))), n) => {
            assert_eq!(e.byte_without_msb(), 0x08);
            assert_eq!(n, 9);
        },
        _ => panic!("an invalid software error was not refused"),
    }
}

#[test]
fn parse_ping_in_media_res() {
    for displacement in 0..=255usize {
        let start = displacement % PING_STATUS.len();
        let mut stream = PING_STATUS[start..].to_vec();
        stream.extend_from_slice(&PING_STATUS);
        stream.extend_from_slice(&PING_STATUS);
        match dxl::packet::parse::<Ping, 1>(&stream) {
            Parsed::Done(actual, _) => assert_eq!(actual, EXPECTED, "displacement {displacement}"),
            _ => panic!("no ping read at displacement {displacement}"),
        }
    }
}

#[test]
fn junk_before_a_status_is_skipped() {
    let mut stream = vec![0x00, 0x12, 0xFE, 0x55];
    stream.extend_from_slice(&PING_STATUS);
    assert!(matches!(dxl::packet::parse::<Ping, 1>(&stream), Parsed::Done(p, 18) if p == EXPECTED));
}

#[test]
fn reported_errors_end_reading() {
    let mut stream = vec![0x00];
    stream.extend_from_slice(&with_error_byte(0x07));
    stream.extend_from_slice(&PING_STATUS);
    assert!(matches!(
        dxl::packet::parse::<Ping, 1>(&stream),
        Parsed::Failed(dxl::packet::Error::Software(SoftwareError::AccessError), 15)
    ));
    let hardware = with_error_byte(0x80);
    assert!(matches!(
        dxl::packet::parse::<Ping, 1>(&hardware),
        Parsed::Failed(dxl::packet::Error::Hardware, 14)
    ));
}

#[test]
fn status_from_other_actuator_is_skipped() {
    let mut stream = PING_STATUS.to_vec();
    stream[4] = 0x02;
    stream.extend_from_slice(&PING_STATUS);
    assert!(matches!(dxl::packet::parse::<Ping, 1>(&stream), Parsed::Done(p, 28) if p == EXPECTED));
}

#[test]
fn error_descriptions() {
    assert_eq!(
        dxl::packet::Error::Hardware.description(),
        "Hardware error reported (details require a separate request)"
    );
    assert_eq!(dxl::packet::Error::Software(SoftwareError::DataLimitError).description(), "Data out of range");
}

#[test]
fn read_answer_is_read() {
    type Insn = dxl::compiletime::instruction::Read<dxl::control_table::PresentPosition, 4>;
    let mut bytes = vec![0xFF, 0xFF, 0xFD, 0x00, 0x01, 0x08, 0x00, 0x55, 0x00, 0xA6, 0x00, 0x00, 0x00];
    let crc = dxl::crc::crc_of(&bytes);
    bytes.extend_from_slice(&crc.to_le_bytes());
    match dxl::compiletime::packet::parse::<Insn, 1>(&bytes) {
        Parsed::Done(read, 15) => assert_eq!(read.bytes, [0xA6, 0x00, 0x00, 0x00]),
        _ => panic!("the read answer was not read"),
    }
}
