use dxl::crc::{crc_of, recurse_over_bytes, Crc};

const PING_STATUS_BODY: [u8; 12] = [0xFF, 0xFF, 0xFD, 0x00, 0x01, 0x07, 0x00, 0x55, 0x00, 0x06, 0x04, 0x26];

#[test]
fn crc_of_ping_status() {
    assert_eq!(crc_of(&PING_STATUS_BODY), 0x5D65);
}

#[test]
fn crc_of_ping_instruction() {
    assert_eq!(crc_of(&[0xFF, 0xFF, 0xFD, 0x00, 0x01, 0x03, 0x00, 0x01]), 0x4E19);
}

#[test]
fn crc_of_nothing_is_zero() {
    assert_eq!(crc_of(&[]), 0);
}

#[test]
fn crc_pushed_byte_by_byte_equals_crc_of_whole() {
    let mut crc = Crc::new();
    for byte in PING_STATUS_BODY {
        crc.push(byte);
    }
    assert_eq!(crc.collapse(), crc_of(&PING_STATUS_BODY));
}

#[test]
fn crc_fed_in_two_parts_equals_crc_of_whole() {
    let mut crc = Crc::new();
    recurse_over_bytes(&mut crc, &PING_STATUS_BODY[..5]);
    crc.recurse_over_bytes(&PING_STATUS_BODY[5..]);
    assert_eq!(crc.collapse(), 0x5D65);
}
