use dxl::proto::packet::recv::{
    Error, ParseError, Persistent, PersistentConfig, PersistentError, SoftwareError, WithCrc, WithId,
};
use dxl::proto::parse::{ByteArray, ItemResult, ItemResultError, ParseU16, State, Status};
use dxl::proto::recv::{HardwareErrorStatus, Ping};
use dxl::proto::{send, New};

const PING_STATUS: [u8; 14] = [
    0xFF, 0xFF, 0xFD, 0x00, 0x01, 0x07, 0x00, 0x55, 0x00, 0x06, 0x04, 0x26, 0x65, 0x5D,
];

fn run_persistent(expected_id: u8, bytes: &[u8]) -> Option<Result<Ping, PersistentError<Ping>>> {
    let mut state = Persistent::<send::Ping>::new(PersistentConfig { expected_id });
    for &byte in bytes {
        state = match state.push(byte) {
            Ok(Status::Incomplete((next, ()))) => next,
            Ok(Status::Complete(ping)) => return Some(Ok(ping)),
            Err(e) => return Some(Err(e)),
        };
    }
    None
}

fn with_error_byte(error: u8) -> Vec<u8> {
    let mut bytes = PING_STATUS[..12].to_vec();
    bytes[8] = error;
    let crc = dxl::crc::crc_of(&bytes);
    bytes.extend_from_slice(&crc.to_le_bytes());
    bytes
}

#[test]
fn persistent_reads_ping_status() {
    let expected = Ping { model_number: 1030, firmware_version: 38 };
    assert_eq!(run_persistent(1, &PING_STATUS), Some(Ok(expected)));
}

#[test]
fn persistent_reads_ping_in_media_res() {
    let expected = Ping { model_number: 1030, firmware_version: 38 };
    for start in 0..PING_STATUS.len() {
        let mut stream = PING_STATUS[start..].to_vec();
        stream.extend_from_slice(&PING_STATUS);
        assert_eq!(run_persistent(1, &stream), Some(Ok(expected)), "start {start}");
    }
}

#[test]
fn persistent_skips_other_actuators() {
    let mut stream = PING_STATUS.to_vec();
    stream[4] = 3;
    let crc = dxl::crc::crc_of(&stream[..12]);
    stream[12..].copy_from_slice(&crc.to_le_bytes());
    assert_eq!(run_persistent(1, &stream), None);
    stream.extend_from_slice(&PING_STATUS);
    assert_eq!(run_persistent(1, &stream), Some(Ok(Ping { model_number: 1030, firmware_version: 38 })));
}

#[test]
fn persistent_skips_corrupted_crc() {
    let mut stream = PING_STATUS.to_vec();
    stream[12] ^= 0x01;
    assert_eq!(run_persistent(1, &stream), None);
}

#[test]
fn persistent_reports_software_error() {
    assert_eq!(
        run_persistent(1, &with_error_byte(0x05)),
        Some(Err(PersistentError::Software(SoftwareError::DataLengthError)))
    );
}

#[test]
fn persistent_reports_hardware_error_with_payload() {
    assert_eq!(
        run_persistent(1, &with_error_byte(0x80)),
        Some(Err(PersistentError::Hardware(Ping { model_number: 1030, firmware_version: 38 })))
    );
}

#[test]
fn with_crc_reports_sender_id() {
    let mut state = WithCrc::<send::Ping>::new(());
    let mut out = None;
    for &byte in PING_STATUS.iter() {
        state = match state.push(byte) {
            Ok(Status::Incomplete((next, ()))) => next,
            Ok(Status::Complete(with_id)) => {
                out = Some(with_id);
                break;
            },
            Err(_) => panic!("the status was refused"),
        };
    }
    assert_eq!(out, Some(WithId { id: 1, output: Ping { model_number: 1030, firmware_version: 38 } }));
}

#[test]
fn persistent_error_map() {
    let e: PersistentError<u8> = PersistentError::Hardware(3);
    assert_eq!(e.map(|x: u8| x as u16 + 1), PersistentError::Hardware(4u16));
    let s: PersistentError<u8> = PersistentError::Software(SoftwareError::CrcError);
    assert_eq!(s.map(|x: u8| x as u16), PersistentError::Software(SoftwareError::CrcError));
}

#[test]
fn parse_u16() {
    for i in 0..=u16::MAX {
        let [lo, hi] = i.to_le_bytes();
        let state = ParseU16::init();
        let next = match state.push(lo) {
            Ok(Status::Incomplete((next, ()))) => next,
            _ => panic!("a single byte completed"),
        };
        match next.push(hi) {
            Ok(Status::Complete(x)) => assert_eq!(x, i),
            _ => panic!("two bytes did not complete"),
        }
    }
}

#[test]
fn byte_array_completes_on_the_push_after_the_last_byte() {
    let a = ByteArray::<2>::new();
    let a = match a.push(7) {
        Ok(Status::Incomplete((a, ()))) => a,
        _ => panic!(),
    };
    let a = match a.push(8) {
        Ok(Status::Incomplete((a, ()))) => a,
        _ => panic!(),
    };
    match a.push(9) {
        Ok(Status::Complete(bytes)) => assert_eq!(bytes, [7, 8]),
        _ => panic!("the third push did not complete"),
    }
}

#[test]
fn item_result_passes_items_and_stops_on_errors() {
    let s: ItemResult<u8, ParseU16> = ItemResult::new(ParseU16::init());
    let s = match State::<Result<u8, &str>>::push(s, Ok(0x34)) {
        Ok(Status::Incomplete((s, ()))) => s,
        _ => panic!(),
    };
    match State::<Result<u8, &str>>::push(s, Ok(0x12)) {
        Ok(Status::Complete(x)) => assert_eq!(x, 0x1234),
        _ => panic!(),
    }
    let s: ItemResult<u8, ParseU16> = ItemResult::new(ParseU16::init());
    assert!(matches!(
        State::<Result<u8, &str>>::push(s, Err("line noise")),
        Err(ItemResultError::Item("line noise"))
    ));
}

#[test]
fn software_error_check() {
    assert_eq!(SoftwareError::check(0x00), Ok(None));
    assert_eq!(SoftwareError::check(0x80), Ok(None));
    assert_eq!(SoftwareError::check(0x01), Ok(Some(SoftwareError::ResultFail)));
    assert_eq!(SoftwareError::check(0x87), Ok(Some(SoftwareError::AccessError)));
    let e = SoftwareError::check(0x7F).unwrap_err();
    assert_eq!(e.byte_without_msb(), 0x7F);
}

#[test]
fn byte_software_error_roundtrip() {
    for byte in 0..=255u8 {
        if let Ok(Some(e)) = SoftwareError::check(byte) {
            assert_eq!(e.byte(), byte & 0x7F);
        }
    }
}

#[test]
fn software_error_byte_roundtrip() {
    for e in [
        SoftwareError::ResultFail,
        SoftwareError::InstructionError,
        SoftwareError::CrcError,
        SoftwareError::DataRangeError,
        SoftwareError::DataLengthError,
        SoftwareError::DataLimitError,
        SoftwareError::AccessError,
    ] {
        assert_eq!(SoftwareError::check(e.byte()), Ok(Some(e)));
    }
}

#[test]
fn hardware_error_status_flags() {
    let s = HardwareErrorStatus::parse_byte(0b0011_0101);
    assert!(s.input_voltage() && s.overheat() && s.electric_shock() && s.overload());
    assert!(!s.unrecognized());
    let t = HardwareErrorStatus::parse_byte(0b0000_0010);
    assert!(!t.input_voltage() && !t.overheat() && !t.electric_shock() && !t.overload());
    assert!(t.unrecognized());
}

#[test]
fn hardware_error_status_describe() {
    assert_eq!(HardwareErrorStatus::parse_byte(0x04).describe(), "overheating");
    assert_eq!(
        HardwareErrorStatus::parse_byte(0x21).describe(),
        "input voltage out of safe range AND overload"
    );
    assert_eq!(HardwareErrorStatus::parse_byte(0x00).describe(), "[INTERNAL ERROR: no hardware errors]");
}

#[test]
fn parse_error_messages() {
    let state = WithCrc::<send::Ping>::new(());
    match state.push(0x00) {
        Err(e @ Error::Parsing(ParseError::WrongFirstHeaderByte(_))) => {
            assert_eq!(e.message(), "Parsing error: Wrong first header byte: Expected `xFF` but received `x0`");
            if let Error::Parsing(p) = e {
                assert_eq!(p.message(), "Wrong first header byte: Expected `xFF` but received `x0`");
            }
        },
        _ => panic!("a wrong first byte was accepted"),
    }
    let mut state = WithCrc::<send::Ping>::new(());
    for &byte in &[0xFF, 0xFF, 0xFD, 0x00, 0xFE] {
        state = match state.push(byte) {
            Ok(Status::Incomplete((next, ()))) => next,
            Err(Error::Parsing(p)) => {
                assert_eq!(p.message(), "Invalid ID: 254 (must be between 0 and 252, inclusive)");
                return;
            },
            _ => panic!(),
        };
    }
    panic!("an invalid ID was accepted");
}

#[test]
fn persistent_error_messages() {
    let e: PersistentError<Ping> = PersistentError::Software(SoftwareError::CrcError);
    assert_eq!(
        e.message(),
        "Software(Actuator disagrees about CRC calculation (likely a corrupted packet))"
    );
    let h: PersistentError<Ping> = PersistentError::Hardware(Ping { model_number: 0, firmware_version: 0 });
    assert_eq!(h.message(), "Hardware(..)");
    let invalid = SoftwareError::check(0x0C).unwrap_err();
    assert_eq!(invalid.message(), "InvalidSoftwareError { byte_without_msb: 12 }");
}

#[test]
fn persistent_skips_junk() {
    let mut stream = vec![0x00, 0x12, 0xFE, 0x55, 0xFD];
    stream.extend_from_slice(&PING_STATUS);
    assert_eq!(run_persistent(1, &stream), Some(Ok(Ping { model_number: 1030, firmware_version: 38 })));
}

fn run_with_crc(bytes: &[u8]) -> Option<Result<WithId<Ping>, Error<WithId<Ping>>>> {
    let mut state = WithCrc::<send::Ping>::new(());
    for &byte in bytes {
        state = match state.push(byte) {
            Ok(Status::Incomplete((next, ()))) => next,
            Ok(Status::Complete(with_id)) => return Some(Ok(with_id)),
            Err(e) => return Some(Err(e)),
        };
    }
    None
}

#[test]
fn each_malformed_byte_is_named() {
    let cases: [(usize, u8, &str); 6] = [
        (1, 0x00, "Wrong second header byte: Expected `xFF` but received `x0`"),
        (2, 0xFF, "Wrong third header byte: Expected `xFD` but received `xFF`"),
        (3, 0x01, "Wrong reserved byte: Expected `x0` but received `x1`"),
        (7, 0x56, "Wrong instruction: Expected `x55` but received `x56`"),
        (5, 0x08, "Wrong length: Expected `x7` but received `x8`"),
        (8, 0x08, "Invalid software error: InvalidSoftwareError { byte_without_msb: 8 }"),
    ];
    for (index, byte, message) in cases {
        let mut bytes = PING_STATUS;
        bytes[index] = byte;
        match run_with_crc(&bytes) {
            Some(Err(Error::Parsing(p))) => assert_eq!(p.message(), message),
            _ => panic!("byte {index} set to {byte:#X} was not refused"),
        }
    }
}

#[test]
fn with_crc_reports_crc_software_and_hardware_errors() {
    let mut corrupted = PING_STATUS;
    corrupted[13] = 0x00;
    match run_with_crc(&corrupted) {
        Some(Err(e @ Error::Crc(_))) => {
            assert_eq!(e.message(), "CRC error: Expected `x5D65` but received `x65`");
        },
        _ => panic!("a corrupted CRC was not refused"),
    }
    match run_with_crc(&with_error_byte(0x06)) {
        Some(Err(e @ Error::Software(SoftwareError::DataLimitError))) => {
            assert_eq!(e.message(), "Software error: Data out of range");
        },
        _ => panic!("a software error was not reported"),
    }
    match run_with_crc(&with_error_byte(0x80)) {
        Some(Err(e @ Error::Hardware(_))) => {
            assert_eq!(e.message(), "Hardware error (details require a separate request)");
        },
        _ => panic!("a hardware error was not reported"),
    }
}

#[test]
fn read_payload_parser_takes_one_byte_late() {
    let body = vec![0xFF, 0xFF, 0xFD, 0x00, 0x01, 0x08, 0x00, 0x55, 0x00, 0xA6, 0x00, 0x00, 0x00];
    let crc = dxl::crc::crc_of(&body);
    let [crc_lo, crc_hi] = crc.to_le_bytes();
    let mut packet = body.clone();
    packet.extend_from_slice(&[crc_lo, crc_hi]);
    let run = |bytes: &[u8]| {
        let mut state = WithCrc::<send::Read<dxl::proto::control_table::PresentPosition>>::new(());
        for &byte in bytes {
            state = match state.push(byte) {
                Ok(Status::Incomplete((next, ()))) => next,
                Ok(Status::Complete(with_id)) => return Some(Ok(with_id.output.bytes)),
                Err(e) => return Some(Err(e)),
            };
        }
        None
    };
    assert!(run(&packet).is_none());
    packet.push(0x00);
    let mut parsed = body.clone();
    parsed.push(crc_lo);
    match run(&packet) {
        Some(Err(Error::Crc(m))) => {
            assert_eq!(m.expected(), dxl::crc::crc_of(&parsed));
            assert_eq!(m.actual(), crc_hi as u16);
        },
        _ => panic!("the read answer was not refused on its CRC"),
    }
}
