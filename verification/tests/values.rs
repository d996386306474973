use dxl::driver::bus::IdError;
use dxl::constants::{parse_byte, C16, C8};
use dxl::parse::{Parse, Parsed};
use dxl::proto::control_table::{Baud, Item};
use dxl::proto::packet::{ControlTableAddress, Instruction};

#[test]
fn c8_holds_its_value() {
    assert_eq!(C8::<0xFD>::new().value(), 0xFD);
    assert_eq!(<C8<0x55> as Default>::default().value(), 0x55);
    assert_eq!(dxl::proto::constants::C8::<7>::new().value(), 7);
}

#[test]
fn c16_holds_its_value() {
    assert_eq!(C16::<0x1234>::new().value(), 0x1234);
    assert_eq!(<C16<7> as Default>::default().value(), 7);
    assert_eq!(dxl::proto::constants::C16::<0xABCD>::new().value(), 0xABCD);
}

#[test]
fn c8_parse() {
    assert!(matches!(<C8<0xFF> as Parse<u8>>::parse(&[0xFF, 0x00]), Parsed::Done((), 1)));
    assert!(matches!(<C8<0xFF> as Parse<u8>>::parse(&[]), Parsed::NeedMore));
    match <C8<0xFF> as Parse<u8>>::parse(&[0x12]) {
        Parsed::Failed(e, 1) => {
            assert_eq!(e.expected(), 0xFF);
            assert_eq!(e.actual(), 0x12);
        },
        _ => panic!("a wrong byte was accepted"),
    }
    assert!(matches!(parse_byte(3, &[3]), Parsed::Done((), 1)));
}

#[test]
fn c16_parse() {
    assert!(matches!(<C16<0x0007> as Parse<u8>>::parse(&[0x07, 0x00]), Parsed::Done((), 2)));
    assert!(matches!(<C16<0x0007> as Parse<u8>>::parse(&[0x07]), Parsed::NeedMore));
    assert!(matches!(<C16<0x0007> as Parse<u8>>::parse(&[0x08, 0x00]), Parsed::Failed(_, 1)));
    assert!(matches!(<C16<0x0007> as Parse<u8>>::parse(&[0x07, 0x01]), Parsed::Failed(_, 2)));
}

#[test]
fn u16_parse_is_little_endian() {
    assert!(matches!(<u16 as Parse<u8>>::parse(&[0x34, 0x12, 0xFF]), Parsed::Done(0x1234, 2)));
    assert!(matches!(<u16 as Parse<u8>>::parse(&[0x34]), Parsed::NeedMore));
}

#[test]
fn wrong_byte_message() {
    match parse_byte(0xFF, &[0x0A]) {
        Parsed::Failed(e, _) => assert_eq!(e.message(), "Expected `FF` but received `0A`"),
        _ => panic!(),
    }
}

#[test]
fn instruction_codes_roundtrip() {
    for x in 0..=255u8 {
        if let Some(i) = Instruction::from_repr(x) {
            assert_eq!(i.repr(), x);
        }
    }
    assert_eq!(Instruction::from_repr(0x55).map(|i| i.name()), Some("Status"));
    assert_eq!(Instruction::from_repr(0x07).map(|i| i.name()), None);
    assert_eq!(Instruction::from_repr(0x8A).map(|i| i.name()), Some("Fast Synchronized Read"));
}

#[test]
fn control_table_addresses_roundtrip() {
    let mut known = 0;
    for x in 0..=1000u16 {
        if let Some(a) = ControlTableAddress::from_repr(x) {
            assert_eq!(a.repr(), x);
            known += 1;
        }
    }
    assert!(known > 50);
    assert_eq!(ControlTableAddress::from_repr(116).map(|a| a.repr()), Some(116));
    assert_eq!(ControlTableAddress::from_repr(64).map(|a| a.name()), Some("Torque Enable"));
}

#[test]
fn control_table_items() {
    assert_eq!(<dxl::proto::control_table::GoalPosition as Item>::ADDRESS, 116);
    assert_eq!(<dxl::proto::control_table::GoalPosition as Item>::BYTES, 4);
    assert_eq!(<dxl::proto::control_table::TorqueEnable as Item>::DESCRIPTION, "Torque Enable");
    assert_eq!(<dxl::control_table::PresentPosition as dxl::control_table::Item>::ADDRESS, 132);
}

#[test]
fn baud_codes() {
    assert_eq!(Baud::Baud57600.byte(), 1);
    assert_eq!(Baud::Baud1000000.byte(), 3);
    assert_eq!(Baud::Baud4000000.byte(), 6);
}

#[test]
fn id_limits() {
    assert_eq!(dxl::proto::MIN_ID, 0);
    assert_eq!(dxl::proto::MAX_ID, 252);
    assert_eq!(dxl::proto::N_IDS, 253);
}

#[test]
fn numbers_as_text() {
    let mut s = String::new();
    dxl::text::append_hex(&mut s, 0x2A);
    s.push(' ');
    dxl::text::append_hex(&mut s, 0);
    s.push(' ');
    dxl::text::append_decimal(&mut s, 252);
    s.push(' ');
    dxl::text::append_decimal(&mut s, 0);
    assert_eq!(s, "2A 0 252 0");
}

#[test]
fn id_error_messages() {
    assert_eq!(IdError::InvalidId { id: 253 }.message(), "InvalidId { id: 253 }");
    assert_eq!(IdError::AlreadyInUse { id: 7 }.message(), "AlreadyInUse { id: 7 }");
}
