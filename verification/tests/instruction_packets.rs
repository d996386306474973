use dxl::compiletime;
use dxl::proto::{control_table, packet, send};

const GOAL_POSITION_512: [u8; 16] = [
    0xFF, 0xFF, 0xFD, 0x00, 0x01, 0x09, 0x00, 0x03, 0x74, 0x00, 0x00, 0x02, 0x00, 0x00, 0xCA, 0x89,
];

const TORQUE_ON: [u8; 13] = [0xFF, 0xFF, 0xFD, 0x00, 0x01, 0x06, 0x00, 0x03, 0x40, 0x00, 0x01, 0xDB, 0x66];

const PING: [u8; 10] = [0xFF, 0xFF, 0xFD, 0x00, 0x01, 0x03, 0x00, 0x01, 0x19, 0x4E];

#[test]
fn goal_position_512() {
    let p = packet::new(1, send::Write::<control_table::GoalPosition, 4>::new(512u32.to_le_bytes()));
    assert_eq!(p.as_buffer(), &GOAL_POSITION_512[..]);
}

#[test]
fn torque_on_packet_bytes() {
    let p = packet::new(1, send::Write::<control_table::TorqueEnable, 1>::new([1]));
    assert_eq!(p.as_buffer(), &TORQUE_ON[..]);
}

#[test]
fn ping_packet_bytes() {
    let p = packet::new(1, send::Ping::new());
    assert_eq!(p.as_buffer(), &PING[..]);
}

#[test]
fn read_packet_carries_address_and_length() {
    let p = packet::new(1, send::Read::<control_table::PresentPosition>::new());
    let bytes = p.as_buffer();
    assert_eq!(&bytes[..12], &[0xFF, 0xFF, 0xFD, 0x00, 0x01, 0x07, 0x00, 0x02, 0x84, 0x00, 0x04, 0x00][..]);
    assert_eq!(bytes.len(), 14);
    assert_eq!(u16::from_le_bytes([bytes[12], bytes[13]]), dxl::crc::crc_of(&bytes[..12]));
}

#[test]
fn other_id_changes_id_and_crc() {
    let p = packet::new(7, send::Ping::new());
    let bytes = p.as_buffer();
    assert_eq!(bytes[4], 7);
    assert_ne!(&bytes[8..], &PING[8..]);
    assert_eq!(u16::from_le_bytes([bytes[8], bytes[9]]), dxl::crc::crc_of(&bytes[..8]));
}

#[test]
fn compiletime_goal_position_512() {
    type Insn = compiletime::instruction::Write<dxl::control_table::GoalPosition, 4>;
    let p = compiletime::packet::new::<Insn, 1>(compiletime::instruction::send::Write::new(512u32.to_le_bytes()));
    assert_eq!(p.bytes(), GOAL_POSITION_512.to_vec());
}

#[test]
fn compiletime_torque_on_packet_bytes() {
    type Insn = compiletime::instruction::Write<dxl::control_table::TorqueEnable, 1>;
    let p = dxl::packet::new::<Insn, 1>(compiletime::instruction::send::Write::new([1]));
    assert_eq!(p.bytes(), TORQUE_ON.to_vec());
}

#[test]
fn compiletime_ping_packet_bytes() {
    let p = compiletime::packet::new::<compiletime::instruction::Ping, 1>(compiletime::instruction::send::Ping);
    assert_eq!(p.bytes(), PING.to_vec());
}

#[test]
fn compiletime_read_sends_address_alone() {
    type Insn = compiletime::instruction::Read<dxl::control_table::GoalPosition, 4>;
    let p = compiletime::packet::new::<Insn, 1>(compiletime::instruction::send::Read::new());
    assert_eq!(p.bytes(), vec![0xFF, 0xFF, 0xFD, 0x00, 0x01, 0x05, 0x00, 0x02, 0x74, 0x00, 0x79, 0x1D]);
}
