//! Whole packets: building instruction packets and parsing status packets.

pub mod describe;
pub mod recv;
pub mod send;

use vstd::prelude::*;

use crate::bytes::{hi, lo, u16_to_le};
use crate::crc::{crc16, crc_from, Crc};
use crate::proto::control_table::{self as ct, Item};

verus! {

/// The CRC register after the header and reserved byte.
pub open spec fn header_crc() -> u16 {
    crc16(seq![0xFFu8, 0xFFu8, 0xFDu8, 0x00u8])
}

/// The CRC register after the header and reserved byte.
pub(crate) fn crc_init() -> (r: Crc)
    ensures
        r.state() == header_crc(),
{
    let mut crc = Crc::new();
    crc.push(0xFF);
    crc.push(0xFF);
    crc.push(0xFD);
    crc.push(0x00);
    proof {
        crate::crc::lemma_crc_four(0, 0xFF, 0xFF, 0xFD, 0x00);
    }
    crc
}

/// An instruction packet up to its CRC: header, reserved byte, ID, length
/// (parameters plus three), instruction byte and parameters.
pub open spec fn instruction_body(id: u8, instruction: u8, params: Seq<u8>) -> Seq<u8> {
    let length = send::instruction_length(params.len());
    seq![0xFFu8, 0xFFu8, 0xFDu8, 0x00u8, id, lo(length), hi(length), instruction] + params
}

/// The instruction packet for actuator `id`, its CRC (little-endian) included.
pub open spec fn instruction_packet(id: u8, instruction: u8, params: Seq<u8>) -> Seq<u8> {
    let body = instruction_body(id, instruction, params);
    body + seq![lo(crc16(body)), hi(crc16(body))]
}

/// Builds the instruction packet that sends `instruction` to actuator `id`.
pub fn new<Insn: crate::proto::Instruction>(id: u8, instruction: Insn) -> (r: send::WithCrc<Insn>)
    ensures
        r.spec_bytes() == instruction_packet(id, Insn::BYTE, instruction.spec_parameters()),
{
    let params = instruction.parameters();
    let without_crc = send::WithoutCrc::new(id, instruction);
    let ghost body = instruction_body(id, Insn::BYTE, params@);
    let mut buffer: Vec<u8> = Vec::new();
    buffer.push(0xFF);
    buffer.push(0xFF);
    buffer.push(0xFD);
    buffer.push(0x00);
    let length = u16_to_le(send::instruction_length_of(params.len()));
    buffer.push(id);
    buffer.push(length[0]);
    buffer.push(length[1]);
    buffer.push(Insn::BYTE);
    let mut crc_state = send::WithoutCrc::<Insn>::crc_init();
    crc_state.push(id);
    crc_state.push(length[0]);
    crc_state.push(length[1]);
    crc_state.push(Insn::BYTE);
    proof {
        assert(buffer@ =~= body.take(8));
        let s = body.subrange(4, 8);
        assert(s =~= seq![id, length[0], length[1], Insn::BYTE]);
        crate::crc::lemma_crc_four(header_crc(), id, length[0], length[1], Insn::BYTE);
    }
    let mut i: usize = 0;
    while i < params.len()
        invariant
            i <= params@.len(),
            buffer@ == body.take(8 + i),
            body == instruction_body(id, Insn::BYTE, params@),
            body.len() == 8 + params@.len(),
            crc_state.state() == crc_from(header_crc(), body.subrange(4, 8 + i)),
        decreases params@.len() - i,
    {
        proof {
            crate::crc::lemma_crc_push(header_crc(), body.subrange(4, 8 + i), params@[i as int]);
            assert(body.subrange(4, 8 + i).push(params@[i as int]) =~= body.subrange(4, 8 + i + 1));
            assert(body.take(8 + i).push(params@[i as int]) =~= body.take(8 + i + 1));
        }
        buffer.push(params[i]);
        crc_state.push(params[i]);
        i = i + 1;
    }
    let crc = u16_to_le(crc_state.collapse());
    buffer.push(crc[0]);
    buffer.push(crc[1]);
    proof {
        let head = seq![0xFFu8, 0xFFu8, 0xFDu8, 0x00u8];
        assert(body =~= head + body.subrange(4, 8 + params@.len() as int));
        crate::crc::lemma_crc_concat(0, head, body.subrange(4, 8 + params@.len() as int));
        assert(body.take(8 + params@.len() as int) =~= body);
    }
    assert(buffer@ =~= without_crc.spec_bytes() + crc@);
    send::WithCrc::assemble(without_crc, crc, buffer)
}

/// The instruction bytes of the protocol.
#[derive(Debug, PartialEq, Eq, Clone, Copy)]
pub enum Instruction {
    Ping,
    Read,
    Write,
    RegWrite,
    Action,
    FactoryReset,
    Reboot,
    Clear,
    ControlTableBackup,
    Status,
    SyncRead,
    SyncWrite,
    FastSyncRead,
    BulkRead,
    BulkWrite,
    FastBulkRead,
}

/// The instruction byte of each instruction.
pub open spec fn instruction_code(x: Instruction) -> u8 {
    match x {
        Instruction::Ping => 0x01,
        Instruction::Read => 0x02,
        Instruction::Write => 0x03,
        Instruction::RegWrite => 0x04,
        Instruction::Action => 0x05,
        Instruction::FactoryReset => 0x06,
        Instruction::Reboot => 0x08,
        Instruction::Clear => 0x10,
        Instruction::ControlTableBackup => 0x20,
        Instruction::Status => 0x55,
        Instruction::SyncRead => 0x82,
        Instruction::SyncWrite => 0x83,
        Instruction::FastSyncRead => 0x8A,
        Instruction::BulkRead => 0x92,
        Instruction::BulkWrite => 0x93,
        Instruction::FastBulkRead => 0x9A,
    }
}

/// How each instruction is called.
pub open spec fn instruction_name(x: Instruction) -> Seq<char> {
    match x {
        Instruction::Ping => "Ping"@,
        Instruction::Read => "Read"@,
        Instruction::Write => "Write"@,
        Instruction::RegWrite => "Register-Write"@,
        Instruction::Action => "Action"@,
        Instruction::FactoryReset => "Factory Reset"@,
        Instruction::Reboot => "Reboot"@,
        Instruction::Clear => "Clear"@,
        Instruction::ControlTableBackup => "Control Table Backup"@,
        Instruction::Status => "Status"@,
        Instruction::SyncRead => "Synchronized Read"@,
        Instruction::SyncWrite => "Synchronized Write"@,
        Instruction::FastSyncRead => "Fast Synchronized Read"@,
        Instruction::BulkRead => "Bulk Read"@,
        Instruction::BulkWrite => "Bulk Write"@,
        Instruction::FastBulkRead => "Fast Bulk Read"@,
    }
}

/// The value whose code is `x`, if any.
pub open spec fn instruction_code_value(x: u8) -> Option<Instruction> {
    match x {
        0x01 => Some(Instruction::Ping),
        0x02 => Some(Instruction::Read),
        0x03 => Some(Instruction::Write),
        0x04 => Some(Instruction::RegWrite),
        0x05 => Some(Instruction::Action),
        0x06 => Some(Instruction::FactoryReset),
        0x08 => Some(Instruction::Reboot),
        0x10 => Some(Instruction::Clear),
        0x20 => Some(Instruction::ControlTableBackup),
        0x55 => Some(Instruction::Status),
        0x82 => Some(Instruction::SyncRead),
        0x83 => Some(Instruction::SyncWrite),
        0x8A => Some(Instruction::FastSyncRead),
        0x92 => Some(Instruction::BulkRead),
        0x93 => Some(Instruction::BulkWrite),
        0x9A => Some(Instruction::FastBulkRead),
        _ => None,
    }
}

impl Instruction {
    /// The code of this value on the wire.
    pub fn repr(&self) -> (r: u8)
        ensures
            r == instruction_code(*self),
    {
        match self {
            Instruction::Ping => 0x01,
            Instruction::Read => 0x02,
            Instruction::Write => 0x03,
            Instruction::RegWrite => 0x04,
            Instruction::Action => 0x05,
            Instruction::FactoryReset => 0x06,
            Instruction::Reboot => 0x08,
            Instruction::Clear => 0x10,
            Instruction::ControlTableBackup => 0x20,
            Instruction::Status => 0x55,
            Instruction::SyncRead => 0x82,
            Instruction::SyncWrite => 0x83,
            Instruction::FastSyncRead => 0x8A,
            Instruction::BulkRead => 0x92,
            Instruction::BulkWrite => 0x93,
            Instruction::FastBulkRead => 0x9A,
        }
    }

    /// The value with code `x`, if any.
    pub fn from_repr(x: u8) -> (r: Option<Self>)
        ensures
            r == instruction_code_value(x),
    {
        match x {
            0x01 => Some(Instruction::Ping),
            0x02 => Some(Instruction::Read),
            0x03 => Some(Instruction::Write),
            0x04 => Some(Instruction::RegWrite),
            0x05 => Some(Instruction::Action),
            0x06 => Some(Instruction::FactoryReset),
            0x08 => Some(Instruction::Reboot),
            0x10 => Some(Instruction::Clear),
            0x20 => Some(Instruction::ControlTableBackup),
            0x55 => Some(Instruction::Status),
            0x82 => Some(Instruction::SyncRead),
            0x83 => Some(Instruction::SyncWrite),
            0x8A => Some(Instruction::FastSyncRead),
            0x92 => Some(Instruction::BulkRead),
            0x93 => Some(Instruction::BulkWrite),
            0x9A => Some(Instruction::FastBulkRead),
            _ => None,
        }
    }

    /// The name of this value.
    pub fn name(&self) -> (r: &'static str)
        ensures
            r@ == instruction_name(*self),
    {
        match self {
            Instruction::Ping => "Ping",
            Instruction::Read => "Read",
            Instruction::Write => "Write",
            Instruction::RegWrite => "Register-Write",
            Instruction::Action => "Action",
            Instruction::FactoryReset => "Factory Reset",
            Instruction::Reboot => "Reboot",
            Instruction::Clear => "Clear",
            Instruction::ControlTableBackup => "Control Table Backup",
            Instruction::Status => "Status",
            Instruction::SyncRead => "Synchronized Read",
            Instruction::SyncWrite => "Synchronized Write",
            Instruction::FastSyncRead => "Fast Synchronized Read",
            Instruction::BulkRead => "Bulk Read",
            Instruction::BulkWrite => "Bulk Write",
            Instruction::FastBulkRead => "Fast Bulk Read",
        }
    }
}

/// Reading back the code of a value gives the value.
pub proof fn law_instruction_roundtrip(x: Instruction)
    ensures
        instruction_code_value(instruction_code(x)) == Some(x),
{
}

/// The addresses of the control table.
#[derive(Debug, PartialEq, Eq, Clone, Copy)]
pub enum ControlTableAddress {
    ModelNumber,
    ModelInfo,
    FirmwareVersion,
    Id,
    BaudRate,
    ReturnDelayTime,
    DriveMode,
    OperatingMode,
    ShadowId,
    ProtocolType,
    HomingOffset,
    MovingThreshold,
    TemperatureLimit,
    MaxVoltageLimit,
    PwmLimit,
    CurrentLimit,
    VelocityLimit,
    MaxPositionLimit,
    MinPositionLimit,
    ExternalPortMode1,
    ExternalPortMode2,
    ExternalPortMode3,
    StartupConfig,
    Shutdown,
    TorqueEnable,
    Led,
    StatusReturnLevel,
    RegisteredInstruction,
    HardwareErrorStatus,
    VelocityIGain,
    VelocityPGain,
    PositionDGain,
    PositionIGain,
    PositionPGain,
    Feedforward2ndGain,
    Feedforward1stGain,
    BusWatchdog,
    GoalPwm,
    GoalCurrent,
    GoalVelocity,
    ProfileAcceleration,
    ProfileVelocity,
    GoalPosition,
    RealtimeTick,
    Moving,
    MovingStatus,
    PresentPwm,
    PresentCurrent,
    PresentVelocity,
    PresentPosition,
    VelocityTrajectory,
    PositionTrajectory,
    PresentInputVoltage,
    PresentTemperature,
    BackupReady,
    ExternalPortData1,
    ExternalPortData2,
    ExternalPortData3,
    Unrecognized,
}

/// The address of each control-table entry.
pub open spec fn control_table_address(x: ControlTableAddress) -> u16 {
    match x {
        ControlTableAddress::ModelNumber => 0x00,
        ControlTableAddress::ModelInfo => 0x02,
        ControlTableAddress::FirmwareVersion => 0x06,
        ControlTableAddress::Id => 0x07,
        ControlTableAddress::BaudRate => 0x08,
        ControlTableAddress::ReturnDelayTime => 0x09,
        ControlTableAddress::DriveMode => 0x0A,
        ControlTableAddress::OperatingMode => 0x0B,
        ControlTableAddress::ShadowId => 0x0C,
        ControlTableAddress::ProtocolType => 0x0D,
        ControlTableAddress::HomingOffset => 0x14,
        ControlTableAddress::MovingThreshold => 0x18,
        ControlTableAddress::TemperatureLimit => 0x1F,
        ControlTableAddress::MaxVoltageLimit => 0x22,
        ControlTableAddress::PwmLimit => 0x24,
        ControlTableAddress::CurrentLimit => 0x26,
        ControlTableAddress::VelocityLimit => 0x2C,
        ControlTableAddress::MaxPositionLimit => 0x30,
        ControlTableAddress::MinPositionLimit => 0x34,
        ControlTableAddress::ExternalPortMode1 => 0x38,
        ControlTableAddress::ExternalPortMode2 => 0x39,
        ControlTableAddress::ExternalPortMode3 => 0x3A,
        ControlTableAddress::StartupConfig => 0x3C,
        ControlTableAddress::Shutdown => 0x3F,
        ControlTableAddress::TorqueEnable => 0x40,
        ControlTableAddress::Led => 0x41,
        ControlTableAddress::StatusReturnLevel => 0x44,
        ControlTableAddress::RegisteredInstruction => 0x45,
        ControlTableAddress::HardwareErrorStatus => 0x46,
        ControlTableAddress::VelocityIGain => 0x4C,
        ControlTableAddress::VelocityPGain => 0x4E,
        ControlTableAddress::PositionDGain => 0x50,
        ControlTableAddress::PositionIGain => 0x52,
        ControlTableAddress::PositionPGain => 0x54,
        ControlTableAddress::Feedforward2ndGain => 0x58,
        ControlTableAddress::Feedforward1stGain => 0x5A,
        ControlTableAddress::BusWatchdog => 0x62,
        ControlTableAddress::GoalPwm => 0x64,
        ControlTableAddress::GoalCurrent => 0x66,
        ControlTableAddress::GoalVelocity => 0x68,
        ControlTableAddress::ProfileAcceleration => 0x6C,
        ControlTableAddress::ProfileVelocity => 0x70,
        ControlTableAddress::GoalPosition => 0x74,
        ControlTableAddress::RealtimeTick => 0x78,
        ControlTableAddress::Moving => 0x7A,
        ControlTableAddress::MovingStatus => 0x7B,
        ControlTableAddress::PresentPwm => 0x7C,
        ControlTableAddress::PresentCurrent => 0x7E,
        ControlTableAddress::PresentVelocity => 0x80,
        ControlTableAddress::PresentPosition => 0x84,
        ControlTableAddress::VelocityTrajectory => 0x88,
        ControlTableAddress::PositionTrajectory => 0x8C,
        ControlTableAddress::PresentInputVoltage => 0x90,
        ControlTableAddress::PresentTemperature => 0x92,
        ControlTableAddress::BackupReady => 0x93,
        ControlTableAddress::ExternalPortData1 => 0x98,
        ControlTableAddress::ExternalPortData2 => 0x9A,
        ControlTableAddress::ExternalPortData3 => 0x9C,
        ControlTableAddress::Unrecognized => 0xFFFF,
    }
}

/// How each control-table entry is called.
pub open spec fn control_table_address_name(x: ControlTableAddress) -> Seq<char> {
    match x {
        ControlTableAddress::ModelNumber => "Model Number"@,
        ControlTableAddress::ModelInfo => "Model Info"@,
        ControlTableAddress::FirmwareVersion => "Firmware Version"@,
        ControlTableAddress::Id => "ID"@,
        ControlTableAddress::BaudRate => "Baud Rate"@,
        ControlTableAddress::ReturnDelayTime => "Return Delay Time"@,
        ControlTableAddress::DriveMode => "Drive Mode"@,
        ControlTableAddress::OperatingMode => "Operating Mode"@,
        ControlTableAddress::ShadowId => "Shadow ID"@,
        ControlTableAddress::ProtocolType => "Protocol Type"@,
        ControlTableAddress::HomingOffset => "Homing Offset"@,
        ControlTableAddress::MovingThreshold => "Moving Threshold"@,
        ControlTableAddress::TemperatureLimit => "Temperature Limit"@,
        ControlTableAddress::MaxVoltageLimit => "Max. Voltage Limit"@,
        ControlTableAddress::PwmLimit => "PWM Limit"@,
        ControlTableAddress::CurrentLimit => "Current Limit"@,
        ControlTableAddress::VelocityLimit => "Velocity Limit"@,
        ControlTableAddress::MaxPositionLimit => "Max. Position Limit"@,
        ControlTableAddress::MinPositionLimit => "Min. Position Limit"@,
        ControlTableAddress::ExternalPortMode1 => "External Port Mode #1"@,
        ControlTableAddress::ExternalPortMode2 => "External Port Mode #2"@,
        ControlTableAddress::ExternalPortMode3 => "External Port Mode #3"@,
        ControlTableAddress::StartupConfig => "Startup Configuration"@,
        ControlTableAddress::Shutdown => "Shutdown"@,
        ControlTableAddress::TorqueEnable => "Torque Enable"@,
        ControlTableAddress::Led => "LED"@,
        ControlTableAddress::StatusReturnLevel => "Status Return Level"@,
        ControlTableAddress::RegisteredInstruction => "Registered Instruction"@,
        ControlTableAddress::HardwareErrorStatus => "Hardware Error Status"@,
        ControlTableAddress::VelocityIGain => "Velocity I Gain"@,
        ControlTableAddress::VelocityPGain => "Velocity P Gain"@,
        ControlTableAddress::PositionDGain => "Position D Gain"@,
        ControlTableAddress::PositionIGain => "Position I Gain"@,
        ControlTableAddress::PositionPGain => "Position P Gain"@,
        ControlTableAddress::Feedforward2ndGain => "Feedforward2ndGain"@,
        ControlTableAddress::Feedforward1stGain => "Feedforward1stGain"@,
        ControlTableAddress::BusWatchdog => "Bus Watchdog"@,
        ControlTableAddress::GoalPwm => "Goal PWM"@,
        ControlTableAddress::GoalCurrent => "Goal Current"@,
        ControlTableAddress::GoalVelocity => "Goal Velocity"@,
        ControlTableAddress::ProfileAcceleration => "Profile Acceleration"@,
        ControlTableAddress::ProfileVelocity => "Profile Velocity"@,
        ControlTableAddress::GoalPosition => "Goal Position"@,
        ControlTableAddress::RealtimeTick => "Real-Time Tick"@,
        ControlTableAddress::Moving => "Moving"@,
        ControlTableAddress::MovingStatus => "Moving Status"@,
        ControlTableAddress::PresentPwm => "Present PWM"@,
        ControlTableAddress::PresentCurrent => "Present Current"@,
        ControlTableAddress::PresentVelocity => "Present Velocity"@,
        ControlTableAddress::PresentPosition => "Present Position"@,
        ControlTableAddress::VelocityTrajectory => "Velocity Trajectory"@,
        ControlTableAddress::PositionTrajectory => "Position Trajectory"@,
        ControlTableAddress::PresentInputVoltage => "Present Input Voltage"@,
        ControlTableAddress::PresentTemperature => "Present Temperature"@,
        ControlTableAddress::BackupReady => "Back-Up Ready"@,
        ControlTableAddress::ExternalPortData1 => "External Port Data #1"@,
        ControlTableAddress::ExternalPortData2 => "External Port Data #2"@,
        ControlTableAddress::ExternalPortData3 => "External Port Data #3"@,
        ControlTableAddress::Unrecognized => "[unrecognized control table address]"@,
    }
}

/// The value whose code is `x`, if any.
pub open spec fn control_table_address_value(x: u16) -> Option<ControlTableAddress> {
    match x {
        0x00 => Some(ControlTableAddress::ModelNumber),
        0x02 => Some(ControlTableAddress::ModelInfo),
        0x06 => Some(ControlTableAddress::FirmwareVersion),
        0x07 => Some(ControlTableAddress::Id),
        0x08 => Some(ControlTableAddress::BaudRate),
        0x09 => Some(ControlTableAddress::ReturnDelayTime),
        0x0A => Some(ControlTableAddress::DriveMode),
        0x0B => Some(ControlTableAddress::OperatingMode),
        0x0C => Some(ControlTableAddress::ShadowId),
        0x0D => Some(ControlTableAddress::ProtocolType),
        0x14 => Some(ControlTableAddress::HomingOffset),
        0x18 => Some(ControlTableAddress::MovingThreshold),
        0x1F => Some(ControlTableAddress::TemperatureLimit),
        0x22 => Some(ControlTableAddress::MaxVoltageLimit),
        0x24 => Some(ControlTableAddress::PwmLimit),
        0x26 => Some(ControlTableAddress::CurrentLimit),
        0x2C => Some(ControlTableAddress::VelocityLimit),
        0x30 => Some(ControlTableAddress::MaxPositionLimit),
        0x34 => Some(ControlTableAddress::MinPositionLimit),
        0x38 => Some(ControlTableAddress::ExternalPortMode1),
        0x39 => Some(ControlTableAddress::ExternalPortMode2),
        0x3A => Some(ControlTableAddress::ExternalPortMode3),
        0x3C => Some(ControlTableAddress::StartupConfig),
        0x3F => Some(ControlTableAddress::Shutdown),
        0x40 => Some(ControlTableAddress::TorqueEnable),
        0x41 => Some(ControlTableAddress::Led),
        0x44 => Some(ControlTableAddress::StatusReturnLevel),
        0x45 => Some(ControlTableAddress::RegisteredInstruction),
        0x46 => Some(ControlTableAddress::HardwareErrorStatus),
        0x4C => Some(ControlTableAddress::VelocityIGain),
        0x4E => Some(ControlTableAddress::VelocityPGain),
        0x50 => Some(ControlTableAddress::PositionDGain),
        0x52 => Some(ControlTableAddress::PositionIGain),
        0x54 => Some(ControlTableAddress::PositionPGain),
        0x58 => Some(ControlTableAddress::Feedforward2ndGain),
        0x5A => Some(ControlTableAddress::Feedforward1stGain),
        0x62 => Some(ControlTableAddress::BusWatchdog),
        0x64 => Some(ControlTableAddress::GoalPwm),
        0x66 => Some(ControlTableAddress::GoalCurrent),
        0x68 => Some(ControlTableAddress::GoalVelocity),
        0x6C => Some(ControlTableAddress::ProfileAcceleration),
        0x70 => Some(ControlTableAddress::ProfileVelocity),
        0x74 => Some(ControlTableAddress::GoalPosition),
        0x78 => Some(ControlTableAddress::RealtimeTick),
        0x7A => Some(ControlTableAddress::Moving),
        0x7B => Some(ControlTableAddress::MovingStatus),
        0x7C => Some(ControlTableAddress::PresentPwm),
        0x7E => Some(ControlTableAddress::PresentCurrent),
        0x80 => Some(ControlTableAddress::PresentVelocity),
        0x84 => Some(ControlTableAddress::PresentPosition),
        0x88 => Some(ControlTableAddress::VelocityTrajectory),
        0x8C => Some(ControlTableAddress::PositionTrajectory),
        0x90 => Some(ControlTableAddress::PresentInputVoltage),
        0x92 => Some(ControlTableAddress::PresentTemperature),
        0x93 => Some(ControlTableAddress::BackupReady),
        0x98 => Some(ControlTableAddress::ExternalPortData1),
        0x9A => Some(ControlTableAddress::ExternalPortData2),
        0x9C => Some(ControlTableAddress::ExternalPortData3),
        0xFFFF => Some(ControlTableAddress::Unrecognized),
        _ => None,
    }
}

impl ControlTableAddress {
    /// The code of this value on the wire.
    pub fn repr(&self) -> (r: u16)
        ensures
            r == control_table_address(*self),
    {
        match self {
            ControlTableAddress::ModelNumber => 0x00,
            ControlTableAddress::ModelInfo => 0x02,
            ControlTableAddress::FirmwareVersion => 0x06,
            ControlTableAddress::Id => 0x07,
            ControlTableAddress::BaudRate => 0x08,
            ControlTableAddress::ReturnDelayTime => 0x09,
            ControlTableAddress::DriveMode => 0x0A,
            ControlTableAddress::OperatingMode => 0x0B,
            ControlTableAddress::ShadowId => 0x0C,
            ControlTableAddress::ProtocolType => 0x0D,
            ControlTableAddress::HomingOffset => 0x14,
            ControlTableAddress::MovingThreshold => 0x18,
            ControlTableAddress::TemperatureLimit => 0x1F,
            ControlTableAddress::MaxVoltageLimit => 0x22,
            ControlTableAddress::PwmLimit => 0x24,
            ControlTableAddress::CurrentLimit => 0x26,
            ControlTableAddress::VelocityLimit => 0x2C,
            ControlTableAddress::MaxPositionLimit => 0x30,
            ControlTableAddress::MinPositionLimit => 0x34,
            ControlTableAddress::ExternalPortMode1 => 0x38,
            ControlTableAddress::ExternalPortMode2 => 0x39,
            ControlTableAddress::ExternalPortMode3 => 0x3A,
            ControlTableAddress::StartupConfig => 0x3C,
            ControlTableAddress::Shutdown => 0x3F,
            ControlTableAddress::TorqueEnable => 0x40,
            ControlTableAddress::Led => 0x41,
            ControlTableAddress::StatusReturnLevel => 0x44,
            ControlTableAddress::RegisteredInstruction => 0x45,
            ControlTableAddress::HardwareErrorStatus => 0x46,
            ControlTableAddress::VelocityIGain => 0x4C,
            ControlTableAddress::VelocityPGain => 0x4E,
            ControlTableAddress::PositionDGain => 0x50,
            ControlTableAddress::PositionIGain => 0x52,
            ControlTableAddress::PositionPGain => 0x54,
            ControlTableAddress::Feedforward2ndGain => 0x58,
            ControlTableAddress::Feedforward1stGain => 0x5A,
            ControlTableAddress::BusWatchdog => 0x62,
            ControlTableAddress::GoalPwm => 0x64,
            ControlTableAddress::GoalCurrent => 0x66,
            ControlTableAddress::GoalVelocity => 0x68,
            ControlTableAddress::ProfileAcceleration => 0x6C,
            ControlTableAddress::ProfileVelocity => 0x70,
            ControlTableAddress::GoalPosition => 0x74,
            ControlTableAddress::RealtimeTick => 0x78,
            ControlTableAddress::Moving => 0x7A,
            ControlTableAddress::MovingStatus => 0x7B,
            ControlTableAddress::PresentPwm => 0x7C,
            ControlTableAddress::PresentCurrent => 0x7E,
            ControlTableAddress::PresentVelocity => 0x80,
            ControlTableAddress::PresentPosition => 0x84,
            ControlTableAddress::VelocityTrajectory => 0x88,
            ControlTableAddress::PositionTrajectory => 0x8C,
            ControlTableAddress::PresentInputVoltage => 0x90,
            ControlTableAddress::PresentTemperature => 0x92,
            ControlTableAddress::BackupReady => 0x93,
            ControlTableAddress::ExternalPortData1 => 0x98,
            ControlTableAddress::ExternalPortData2 => 0x9A,
            ControlTableAddress::ExternalPortData3 => 0x9C,
            ControlTableAddress::Unrecognized => 0xFFFF,
        }
    }

    /// The value with code `x`, if any.
    pub fn from_repr(x: u16) -> (r: Option<Self>)
        ensures
            r == control_table_address_value(x),
    {
        match x {
            0x00 => Some(ControlTableAddress::ModelNumber),
            0x02 => Some(ControlTableAddress::ModelInfo),
            0x06 => Some(ControlTableAddress::FirmwareVersion),
            0x07 => Some(ControlTableAddress::Id),
            0x08 => Some(ControlTableAddress::BaudRate),
            0x09 => Some(ControlTableAddress::ReturnDelayTime),
            0x0A => Some(ControlTableAddress::DriveMode),
            0x0B => Some(ControlTableAddress::OperatingMode),
            0x0C => Some(ControlTableAddress::ShadowId),
            0x0D => Some(ControlTableAddress::ProtocolType),
            0x14 => Some(ControlTableAddress::HomingOffset),
            0x18 => Some(ControlTableAddress::MovingThreshold),
            0x1F => Some(ControlTableAddress::TemperatureLimit),
            0x22 => Some(ControlTableAddress::MaxVoltageLimit),
            0x24 => Some(ControlTableAddress::PwmLimit),
            0x26 => Some(ControlTableAddress::CurrentLimit),
            0x2C => Some(ControlTableAddress::VelocityLimit),
            0x30 => Some(ControlTableAddress::MaxPositionLimit),
            0x34 => Some(ControlTableAddress::MinPositionLimit),
            0x38 => Some(ControlTableAddress::ExternalPortMode1),
            0x39 => Some(ControlTableAddress::ExternalPortMode2),
            0x3A => Some(ControlTableAddress::ExternalPortMode3),
            0x3C => Some(ControlTableAddress::StartupConfig),
            0x3F => Some(ControlTableAddress::Shutdown),
            0x40 => Some(ControlTableAddress::TorqueEnable),
            0x41 => Some(ControlTableAddress::Led),
            0x44 => Some(ControlTableAddress::StatusReturnLevel),
            0x45 => Some(ControlTableAddress::RegisteredInstruction),
            0x46 => Some(ControlTableAddress::HardwareErrorStatus),
            0x4C => Some(ControlTableAddress::VelocityIGain),
            0x4E => Some(ControlTableAddress::VelocityPGain),
            0x50 => Some(ControlTableAddress::PositionDGain),
            0x52 => Some(ControlTableAddress::PositionIGain),
            0x54 => Some(ControlTableAddress::PositionPGain),
            0x58 => Some(ControlTableAddress::Feedforward2ndGain),
            0x5A => Some(ControlTableAddress::Feedforward1stGain),
            0x62 => Some(ControlTableAddress::BusWatchdog),
            0x64 => Some(ControlTableAddress::GoalPwm),
            0x66 => Some(ControlTableAddress::GoalCurrent),
            0x68 => Some(ControlTableAddress::GoalVelocity),
            0x6C => Some(ControlTableAddress::ProfileAcceleration),
            0x70 => Some(ControlTableAddress::ProfileVelocity),
            0x74 => Some(ControlTableAddress::GoalPosition),
            0x78 => Some(ControlTableAddress::RealtimeTick),
            0x7A => Some(ControlTableAddress::Moving),
            0x7B => Some(ControlTableAddress::MovingStatus),
            0x7C => Some(ControlTableAddress::PresentPwm),
            0x7E => Some(ControlTableAddress::PresentCurrent),
            0x80 => Some(ControlTableAddress::PresentVelocity),
            0x84 => Some(ControlTableAddress::PresentPosition),
            0x88 => Some(ControlTableAddress::VelocityTrajectory),
            0x8C => Some(ControlTableAddress::PositionTrajectory),
            0x90 => Some(ControlTableAddress::PresentInputVoltage),
            0x92 => Some(ControlTableAddress::PresentTemperature),
            0x93 => Some(ControlTableAddress::BackupReady),
            0x98 => Some(ControlTableAddress::ExternalPortData1),
            0x9A => Some(ControlTableAddress::ExternalPortData2),
            0x9C => Some(ControlTableAddress::ExternalPortData3),
            0xFFFF => Some(ControlTableAddress::Unrecognized),
            _ => None,
        }
    }

    /// The name of this value.
    pub fn name(&self) -> (r: &'static str)
        ensures
            r@ == control_table_address_name(*self),
    {
        match self {
            ControlTableAddress::ModelNumber => "Model Number",
            ControlTableAddress::ModelInfo => "Model Info",
            ControlTableAddress::FirmwareVersion => "Firmware Version",
            ControlTableAddress::Id => "ID",
            ControlTableAddress::BaudRate => "Baud Rate",
            ControlTableAddress::ReturnDelayTime => "Return Delay Time",
            ControlTableAddress::DriveMode => "Drive Mode",
            ControlTableAddress::OperatingMode => "Operating Mode",
            ControlTableAddress::ShadowId => "Shadow ID",
            ControlTableAddress::ProtocolType => "Protocol Type",
            ControlTableAddress::HomingOffset => "Homing Offset",
            ControlTableAddress::MovingThreshold => "Moving Threshold",
            ControlTableAddress::TemperatureLimit => "Temperature Limit",
            ControlTableAddress::MaxVoltageLimit => "Max. Voltage Limit",
            ControlTableAddress::PwmLimit => "PWM Limit",
            ControlTableAddress::CurrentLimit => "Current Limit",
            ControlTableAddress::VelocityLimit => "Velocity Limit",
            ControlTableAddress::MaxPositionLimit => "Max. Position Limit",
            ControlTableAddress::MinPositionLimit => "Min. Position Limit",
            ControlTableAddress::ExternalPortMode1 => "External Port Mode #1",
            ControlTableAddress::ExternalPortMode2 => "External Port Mode #2",
            ControlTableAddress::ExternalPortMode3 => "External Port Mode #3",
            ControlTableAddress::StartupConfig => "Startup Configuration",
            ControlTableAddress::Shutdown => "Shutdown",
            ControlTableAddress::TorqueEnable => "Torque Enable",
            ControlTableAddress::Led => "LED",
            ControlTableAddress::StatusReturnLevel => "Status Return Level",
            ControlTableAddress::RegisteredInstruction => "Registered Instruction",
            ControlTableAddress::HardwareErrorStatus => "Hardware Error Status",
            ControlTableAddress::VelocityIGain => "Velocity I Gain",
            ControlTableAddress::VelocityPGain => "Velocity P Gain",
            ControlTableAddress::PositionDGain => "Position D Gain",
            ControlTableAddress::PositionIGain => "Position I Gain",
            ControlTableAddress::PositionPGain => "Position P Gain",
            ControlTableAddress::Feedforward2ndGain => "Feedforward2ndGain",
            ControlTableAddress::Feedforward1stGain => "Feedforward1stGain",
            ControlTableAddress::BusWatchdog => "Bus Watchdog",
            ControlTableAddress::GoalPwm => "Goal PWM",
            ControlTableAddress::GoalCurrent => "Goal Current",
            ControlTableAddress::GoalVelocity => "Goal Velocity",
            ControlTableAddress::ProfileAcceleration => "Profile Acceleration",
            ControlTableAddress::ProfileVelocity => "Profile Velocity",
            ControlTableAddress::GoalPosition => "Goal Position",
            ControlTableAddress::RealtimeTick => "Real-Time Tick",
            ControlTableAddress::Moving => "Moving",
            ControlTableAddress::MovingStatus => "Moving Status",
            ControlTableAddress::PresentPwm => "Present PWM",
            ControlTableAddress::PresentCurrent => "Present Current",
            ControlTableAddress::PresentVelocity => "Present Velocity",
            ControlTableAddress::PresentPosition => "Present Position",
            ControlTableAddress::VelocityTrajectory => "Velocity Trajectory",
            ControlTableAddress::PositionTrajectory => "Position Trajectory",
            ControlTableAddress::PresentInputVoltage => "Present Input Voltage",
            ControlTableAddress::PresentTemperature => "Present Temperature",
            ControlTableAddress::BackupReady => "Back-Up Ready",
            ControlTableAddress::ExternalPortData1 => "External Port Data #1",
            ControlTableAddress::ExternalPortData2 => "External Port Data #2",
            ControlTableAddress::ExternalPortData3 => "External Port Data #3",
            ControlTableAddress::Unrecognized => "[unrecognized control table address]",
        }
    }
}

/// Reading back the code of a value gives the value.
pub proof fn law_control_table_address_roundtrip(x: ControlTableAddress)
    ensures
        control_table_address_value(control_table_address(x)) == Some(x),
{
}

/// Each named control-table address is the address of the control-table
/// item of the same name, as the item's own description gives it. The one
/// exception is `MaxVoltageLimit`, whose code (34) is the address of the
/// Min Voltage Limit item; the Max Voltage Limit item is at 32.
pub proof fn law_addresses_are_the_items_addresses()
    ensures
        control_table_address(ControlTableAddress::ModelNumber) == <ct::ModelNumber as Item>::ADDRESS as u16,
        control_table_address(ControlTableAddress::ModelInfo) == <ct::ModelInformation as Item>::ADDRESS as u16,
        control_table_address(ControlTableAddress::FirmwareVersion) == <ct::FirmwareVersion as Item>::ADDRESS as u16,
        control_table_address(ControlTableAddress::Id) == <ct::Id as Item>::ADDRESS as u16,
        control_table_address(ControlTableAddress::BaudRate) == <ct::BaudRate as Item>::ADDRESS as u16,
        control_table_address(ControlTableAddress::ReturnDelayTime) == <ct::ReturnDelayTime as Item>::ADDRESS as u16,
        control_table_address(ControlTableAddress::DriveMode) == <ct::DriveMode as Item>::ADDRESS as u16,
        control_table_address(ControlTableAddress::OperatingMode) == <ct::OperatingMode as Item>::ADDRESS as u16,
        control_table_address(ControlTableAddress::ShadowId) == <ct::SecondaryId as Item>::ADDRESS as u16,
        control_table_address(ControlTableAddress::ProtocolType) == <ct::ProtocolType as Item>::ADDRESS as u16,
        control_table_address(ControlTableAddress::HomingOffset) == <ct::HomingOffset as Item>::ADDRESS as u16,
        control_table_address(ControlTableAddress::MovingThreshold) == <ct::MovingThreshold as Item>::ADDRESS as u16,
        control_table_address(ControlTableAddress::TemperatureLimit) == <ct::TemperatureLimit as Item>::ADDRESS as u16,
        control_table_address(ControlTableAddress::MaxVoltageLimit) == <ct::MinVoltageLimit as Item>::ADDRESS as u16,
        control_table_address(ControlTableAddress::PwmLimit) == <ct::PwmLimit as Item>::ADDRESS as u16,
        control_table_address(ControlTableAddress::CurrentLimit) == <ct::CurrentLimit as Item>::ADDRESS as u16,
        control_table_address(ControlTableAddress::VelocityLimit) == <ct::VelocityLimit as Item>::ADDRESS as u16,
        control_table_address(ControlTableAddress::MaxPositionLimit) == <ct::MaxPositionLimit as Item>::ADDRESS as u16,
        control_table_address(ControlTableAddress::MinPositionLimit) == <ct::MinPositionLimit as Item>::ADDRESS as u16,
        control_table_address(ControlTableAddress::StartupConfig) == <ct::StartupConfiguration as Item>::ADDRESS as u16,
        control_table_address(ControlTableAddress::Shutdown) == <ct::Shutdown as Item>::ADDRESS as u16,
        control_table_address(ControlTableAddress::TorqueEnable) == <ct::TorqueEnable as Item>::ADDRESS as u16,
        control_table_address(ControlTableAddress::Led) == <ct::Led as Item>::ADDRESS as u16,
        control_table_address(ControlTableAddress::StatusReturnLevel) == <ct::StatusReturnLevel as Item>::ADDRESS as u16,
        control_table_address(ControlTableAddress::RegisteredInstruction) == <ct::RegisteredInstruction as Item>::ADDRESS as u16,
        control_table_address(ControlTableAddress::HardwareErrorStatus) == <ct::HardwareErrorStatus as Item>::ADDRESS as u16,
        control_table_address(ControlTableAddress::VelocityIGain) == <ct::VelocityIGain as Item>::ADDRESS as u16,
        control_table_address(ControlTableAddress::VelocityPGain) == <ct::VelocityPGain as Item>::ADDRESS as u16,
        control_table_address(ControlTableAddress::PositionDGain) == <ct::PositionDGain as Item>::ADDRESS as u16,
        control_table_address(ControlTableAddress::PositionIGain) == <ct::PositionIGain as Item>::ADDRESS as u16,
        control_table_address(ControlTableAddress::PositionPGain) == <ct::PositionPGain as Item>::ADDRESS as u16,
        control_table_address(ControlTableAddress::Feedforward2ndGain) == <ct::Feedforward2ndGain as Item>::ADDRESS as u16,
        control_table_address(ControlTableAddress::Feedforward1stGain) == <ct::Feedforward1stGain as Item>::ADDRESS as u16,
        control_table_address(ControlTableAddress::BusWatchdog) == <ct::BusWatchdog as Item>::ADDRESS as u16,
        control_table_address(ControlTableAddress::GoalPwm) == <ct::GoalPwm as Item>::ADDRESS as u16,
        control_table_address(ControlTableAddress::GoalCurrent) == <ct::GoalCurrent as Item>::ADDRESS as u16,
        control_table_address(ControlTableAddress::GoalVelocity) == <ct::GoalVelocity as Item>::ADDRESS as u16,
        control_table_address(ControlTableAddress::ProfileAcceleration) == <ct::ProfileAcceleration as Item>::ADDRESS as u16,
        control_table_address(ControlTableAddress::ProfileVelocity) == <ct::ProfileVelocity as Item>::ADDRESS as u16,
        control_table_address(ControlTableAddress::GoalPosition) == <ct::GoalPosition as Item>::ADDRESS as u16,
        control_table_address(ControlTableAddress::RealtimeTick) == <ct::RealtimeTick as Item>::ADDRESS as u16,
        control_table_address(ControlTableAddress::Moving) == <ct::Moving as Item>::ADDRESS as u16,
        control_table_address(ControlTableAddress::MovingStatus) == <ct::MovingStatus as Item>::ADDRESS as u16,
        control_table_address(ControlTableAddress::PresentPwm) == <ct::PresentPwm as Item>::ADDRESS as u16,
        control_table_address(ControlTableAddress::PresentCurrent) == <ct::PresentCurrent as Item>::ADDRESS as u16,
        control_table_address(ControlTableAddress::PresentVelocity) == <ct::PresentVelocity as Item>::ADDRESS as u16,
        control_table_address(ControlTableAddress::PresentPosition) == <ct::PresentPosition as Item>::ADDRESS as u16,
        control_table_address(ControlTableAddress::VelocityTrajectory) == <ct::VelocityTrajectory as Item>::ADDRESS as u16,
        control_table_address(ControlTableAddress::PositionTrajectory) == <ct::PositionTrajectory as Item>::ADDRESS as u16,
        control_table_address(ControlTableAddress::PresentInputVoltage) == <ct::PresentInputVoltage as Item>::ADDRESS as u16,
        control_table_address(ControlTableAddress::PresentTemperature) == <ct::PresentTemperature as Item>::ADDRESS as u16,
        control_table_address(ControlTableAddress::BackupReady) == <ct::BackupReady as Item>::ADDRESS as u16,
{
    ct::lemma_items();
}

/// Different control-table addresses have different codes, so that a code
/// names at most one of them.
pub proof fn law_control_table_address_codes_distinct(x: ControlTableAddress, y: ControlTableAddress)
    requires
        x != y,
    ensures
        control_table_address(x) != control_table_address(y),
{
    law_control_table_address_roundtrip(x);
    law_control_table_address_roundtrip(y);
}

} // verus!
