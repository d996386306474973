//! The control table of an actuator: the address, size and name of each item.

use vstd::prelude::*;

use crate::proto::recv::{Read, Receive};

verus! {

/// An item of the control table.
pub trait Item {
    /// The address of the item.
    const ADDRESS: u8;
    /// The number of bytes of the item.
    const BYTES: u16;
    /// What the item is called.
    const DESCRIPTION: &'static str;

    /// The payload of the answer to a read of this item.
    type Reply: Receive;
}

pub struct ModelNumber;

impl Item for ModelNumber {
    const ADDRESS: u8 = 0;
    const BYTES: u16 = 2;
    const DESCRIPTION: &'static str = "Model Number";

    type Reply = Read<2>;
}

pub struct ModelInformation;

impl Item for ModelInformation {
    const ADDRESS: u8 = 2;
    const BYTES: u16 = 4;
    const DESCRIPTION: &'static str = "Model Information";

    type Reply = Read<4>;
}

pub struct FirmwareVersion;

impl Item for FirmwareVersion {
    const ADDRESS: u8 = 6;
    const BYTES: u16 = 1;
    const DESCRIPTION: &'static str = "Firmware Version";

    type Reply = Read<1>;
}

pub struct Id;

impl Item for Id {
    const ADDRESS: u8 = 7;
    const BYTES: u16 = 1;
    const DESCRIPTION: &'static str = "ID";

    type Reply = Read<1>;
}

pub struct BaudRate;

impl Item for BaudRate {
    const ADDRESS: u8 = 8;
    const BYTES: u16 = 1;
    const DESCRIPTION: &'static str = "Baud Rate";

    type Reply = Read<1>;
}

pub struct ReturnDelayTime;

impl Item for ReturnDelayTime {
    const ADDRESS: u8 = 9;
    const BYTES: u16 = 1;
    const DESCRIPTION: &'static str = "Return Delay Time";

    type Reply = Read<1>;
}

pub struct DriveMode;

impl Item for DriveMode {
    const ADDRESS: u8 = 10;
    const BYTES: u16 = 1;
    const DESCRIPTION: &'static str = "Drive Mode";

    type Reply = Read<1>;
}

pub struct OperatingMode;

impl Item for OperatingMode {
    const ADDRESS: u8 = 11;
    const BYTES: u16 = 1;
    const DESCRIPTION: &'static str = "Operating Mode";

    type Reply = Read<1>;
}

pub struct SecondaryId;

impl Item for SecondaryId {
    const ADDRESS: u8 = 12;
    const BYTES: u16 = 1;
    const DESCRIPTION: &'static str = "Secondary ID";

    type Reply = Read<1>;
}

pub struct ProtocolType;

impl Item for ProtocolType {
    const ADDRESS: u8 = 13;
    const BYTES: u16 = 1;
    const DESCRIPTION: &'static str = "Protocol Type";

    type Reply = Read<1>;
}

pub struct HomingOffset;

impl Item for HomingOffset {
    const ADDRESS: u8 = 20;
    const BYTES: u16 = 4;
    const DESCRIPTION: &'static str = "Homing Offset";

    type Reply = Read<4>;
}

pub struct MovingThreshold;

impl Item for MovingThreshold {
    const ADDRESS: u8 = 24;
    const BYTES: u16 = 4;
    const DESCRIPTION: &'static str = "Moving Threshold";

    type Reply = Read<4>;
}

pub struct TemperatureLimit;

impl Item for TemperatureLimit {
    const ADDRESS: u8 = 31;
    const BYTES: u16 = 1;
    const DESCRIPTION: &'static str = "Temperature Limit";

    type Reply = Read<1>;
}

pub struct MaxVoltageLimit;

impl Item for MaxVoltageLimit {
    const ADDRESS: u8 = 32;
    const BYTES: u16 = 2;
    const DESCRIPTION: &'static str = "Max Voltage Limit";

    type Reply = Read<2>;
}

pub struct MinVoltageLimit;

impl Item for MinVoltageLimit {
    const ADDRESS: u8 = 34;
    const BYTES: u16 = 2;
    const DESCRIPTION: &'static str = "Min Voltage Limit";

    type Reply = Read<2>;
}

pub struct PwmLimit;

impl Item for PwmLimit {
    const ADDRESS: u8 = 36;
    const BYTES: u16 = 2;
    const DESCRIPTION: &'static str = "PWM Limit";

    type Reply = Read<2>;
}

pub struct CurrentLimit;

impl Item for CurrentLimit {
    const ADDRESS: u8 = 38;
    const BYTES: u16 = 2;
    const DESCRIPTION: &'static str = "Current Limit";

    type Reply = Read<2>;
}

pub struct VelocityLimit;

impl Item for VelocityLimit {
    const ADDRESS: u8 = 44;
    const BYTES: u16 = 4;
    const DESCRIPTION: &'static str = "Velocity Limit";

    type Reply = Read<4>;
}

pub struct MaxPositionLimit;

impl Item for MaxPositionLimit {
    const ADDRESS: u8 = 48;
    const BYTES: u16 = 4;
    const DESCRIPTION: &'static str = "Max Position Limit";

    type Reply = Read<4>;
}

pub struct MinPositionLimit;

impl Item for MinPositionLimit {
    const ADDRESS: u8 = 52;
    const BYTES: u16 = 4;
    const DESCRIPTION: &'static str = "Min Position Limit";

    type Reply = Read<4>;
}

pub struct StartupConfiguration;

impl Item for StartupConfiguration {
    const ADDRESS: u8 = 60;
    const BYTES: u16 = 1;
    const DESCRIPTION: &'static str = "Startup Configuration";

    type Reply = Read<1>;
}

pub struct PwmSlope;

impl Item for PwmSlope {
    const ADDRESS: u8 = 62;
    const BYTES: u16 = 1;
    const DESCRIPTION: &'static str = "PWM Slope";

    type Reply = Read<1>;
}

pub struct Shutdown;

impl Item for Shutdown {
    const ADDRESS: u8 = 63;
    const BYTES: u16 = 1;
    const DESCRIPTION: &'static str = "Shutdown";

    type Reply = Read<1>;
}

pub struct TorqueEnable;

impl Item for TorqueEnable {
    const ADDRESS: u8 = 64;
    const BYTES: u16 = 1;
    const DESCRIPTION: &'static str = "Torque Enable";

    type Reply = Read<1>;
}

pub struct Led;

impl Item for Led {
    const ADDRESS: u8 = 65;
    const BYTES: u16 = 1;
    const DESCRIPTION: &'static str = "LED";

    type Reply = Read<1>;
}

pub struct StatusReturnLevel;

impl Item for StatusReturnLevel {
    const ADDRESS: u8 = 68;
    const BYTES: u16 = 1;
    const DESCRIPTION: &'static str = "Status Return Level";

    type Reply = Read<1>;
}

pub struct RegisteredInstruction;

impl Item for RegisteredInstruction {
    const ADDRESS: u8 = 69;
    const BYTES: u16 = 1;
    const DESCRIPTION: &'static str = "Registered Instruction";

    type Reply = Read<1>;
}

pub struct HardwareErrorStatus;

impl Item for HardwareErrorStatus {
    const ADDRESS: u8 = 70;
    const BYTES: u16 = 1;
    const DESCRIPTION: &'static str = "Hardware Error Status";

    type Reply = Read<1>;
}

pub struct VelocityIGain;

impl Item for VelocityIGain {
    const ADDRESS: u8 = 76;
    const BYTES: u16 = 2;
    const DESCRIPTION: &'static str = "Velocity I Gain";

    type Reply = Read<2>;
}

pub struct VelocityPGain;

impl Item for VelocityPGain {
    const ADDRESS: u8 = 78;
    const BYTES: u16 = 2;
    const DESCRIPTION: &'static str = "Velocity P Gain";

    type Reply = Read<2>;
}

pub struct PositionDGain;

impl Item for PositionDGain {
    const ADDRESS: u8 = 80;
    const BYTES: u16 = 2;
    const DESCRIPTION: &'static str = "Position D Gain";

    type Reply = Read<2>;
}

pub struct PositionIGain;

impl Item for PositionIGain {
    const ADDRESS: u8 = 82;
    const BYTES: u16 = 2;
    const DESCRIPTION: &'static str = "Position I Gain";

    type Reply = Read<2>;
}

pub struct PositionPGain;

impl Item for PositionPGain {
    const ADDRESS: u8 = 84;
    const BYTES: u16 = 2;
    const DESCRIPTION: &'static str = "Position P Gain";

    type Reply = Read<2>;
}

pub struct Feedforward2ndGain;

impl Item for Feedforward2ndGain {
    const ADDRESS: u8 = 88;
    const BYTES: u16 = 2;
    const DESCRIPTION: &'static str = "Feedforward Second Gain";

    type Reply = Read<2>;
}

pub struct Feedforward1stGain;

impl Item for Feedforward1stGain {
    const ADDRESS: u8 = 90;
    const BYTES: u16 = 2;
    const DESCRIPTION: &'static str = "Feedforward First Gain";

    type Reply = Read<2>;
}

pub struct BusWatchdog;

impl Item for BusWatchdog {
    const ADDRESS: u8 = 98;
    const BYTES: u16 = 1;
    const DESCRIPTION: &'static str = "Bus Watchdog";

    type Reply = Read<1>;
}

pub struct GoalPwm;

impl Item for GoalPwm {
    const ADDRESS: u8 = 100;
    const BYTES: u16 = 2;
    const DESCRIPTION: &'static str = "Goal PWM";

    type Reply = Read<2>;
}

pub struct GoalCurrent;

impl Item for GoalCurrent {
    const ADDRESS: u8 = 102;
    const BYTES: u16 = 2;
    const DESCRIPTION: &'static str = "Goal Current";

    type Reply = Read<2>;
}

pub struct GoalVelocity;

impl Item for GoalVelocity {
    const ADDRESS: u8 = 104;
    const BYTES: u16 = 4;
    const DESCRIPTION: &'static str = "Goal Velocity";

    type Reply = Read<4>;
}

pub struct ProfileAcceleration;

impl Item for ProfileAcceleration {
    const ADDRESS: u8 = 108;
    const BYTES: u16 = 4;
    const DESCRIPTION: &'static str = "Profile Acceleration";

    type Reply = Read<4>;
}

pub struct ProfileVelocity;

impl Item for ProfileVelocity {
    const ADDRESS: u8 = 112;
    const BYTES: u16 = 4;
    const DESCRIPTION: &'static str = "Profile Velocity";

    type Reply = Read<4>;
}

pub struct GoalPosition;

impl Item for GoalPosition {
    const ADDRESS: u8 = 116;
    const BYTES: u16 = 4;
    const DESCRIPTION: &'static str = "Goal Position";

    type Reply = Read<4>;
}

pub struct RealtimeTick;

impl Item for RealtimeTick {
    const ADDRESS: u8 = 120;
    const BYTES: u16 = 2;
    const DESCRIPTION: &'static str = "Real-Time Tick";

    type Reply = Read<2>;
}

pub struct Moving;

impl Item for Moving {
    const ADDRESS: u8 = 122;
    const BYTES: u16 = 1;
    const DESCRIPTION: &'static str = "Moving";

    type Reply = Read<1>;
}

pub struct MovingStatus;

impl Item for MovingStatus {
    const ADDRESS: u8 = 123;
    const BYTES: u16 = 1;
    const DESCRIPTION: &'static str = "Moving Status";

    type Reply = Read<1>;
}

pub struct PresentPwm;

impl Item for PresentPwm {
    const ADDRESS: u8 = 124;
    const BYTES: u16 = 2;
    const DESCRIPTION: &'static str = "Present PWM";

    type Reply = Read<2>;
}

pub struct PresentCurrent;

impl Item for PresentCurrent {
    const ADDRESS: u8 = 126;
    const BYTES: u16 = 2;
    const DESCRIPTION: &'static str = "Present Current";

    type Reply = Read<2>;
}

pub struct PresentVelocity;

impl Item for PresentVelocity {
    const ADDRESS: u8 = 128;
    const BYTES: u16 = 4;
    const DESCRIPTION: &'static str = "Present Velocity";

    type Reply = Read<4>;
}

pub struct PresentPosition;

impl Item for PresentPosition {
    const ADDRESS: u8 = 132;
    const BYTES: u16 = 4;
    const DESCRIPTION: &'static str = "Present Position";

    type Reply = Read<4>;
}

pub struct VelocityTrajectory;

impl Item for VelocityTrajectory {
    const ADDRESS: u8 = 136;
    const BYTES: u16 = 4;
    const DESCRIPTION: &'static str = "Velocity Trajectory";

    type Reply = Read<4>;
}

pub struct PositionTrajectory;

impl Item for PositionTrajectory {
    const ADDRESS: u8 = 140;
    const BYTES: u16 = 4;
    const DESCRIPTION: &'static str = "Position Trajectory";

    type Reply = Read<4>;
}

pub struct PresentInputVoltage;

impl Item for PresentInputVoltage {
    const ADDRESS: u8 = 144;
    const BYTES: u16 = 2;
    const DESCRIPTION: &'static str = "Present Input Voltage";

    type Reply = Read<2>;
}

pub struct PresentTemperature;

impl Item for PresentTemperature {
    const ADDRESS: u8 = 146;
    const BYTES: u16 = 1;
    const DESCRIPTION: &'static str = "Present Temperature";

    type Reply = Read<1>;
}

pub struct BackupReady;

impl Item for BackupReady {
    const ADDRESS: u8 = 147;
    const BYTES: u16 = 1;
    const DESCRIPTION: &'static str = "Backup Ready";

    type Reply = Read<1>;
}

/// The baud rates an actuator can be set to.
#[derive(Debug, PartialEq, Eq, Clone, Copy)]
pub enum Baud {
    Baud9600,
    Baud57600,
    Baud115200,
    Baud1000000,
    Baud2000000,
    Baud3000000,
    Baud4000000,
}

/// The value of the Baud Rate item that selects each baud rate.
pub open spec fn baud_code(b: Baud) -> u8 {
    match b {
        Baud::Baud9600 => 0,
        Baud::Baud57600 => 1,
        Baud::Baud115200 => 2,
        Baud::Baud1000000 => 3,
        Baud::Baud2000000 => 4,
        Baud::Baud3000000 => 5,
        Baud::Baud4000000 => 6,
    }
}

impl Baud {
    /// The value of the Baud Rate item that selects this baud rate.
    pub fn byte(&self) -> (r: u8)
        ensures
            r == baud_code(*self),
    {
        match self {
            Baud::Baud9600 => 0,
            Baud::Baud57600 => 1,
            Baud::Baud115200 => 2,
            Baud::Baud1000000 => 3,
            Baud::Baud2000000 => 4,
            Baud::Baud3000000 => 5,
            Baud::Baud4000000 => 6,
        }
    }
}

/// The address and size of each item of the control table.
pub proof fn lemma_items()
    ensures
        <ModelNumber as Item>::ADDRESS == 0,
        <ModelNumber as Item>::BYTES == 2,
        <ModelInformation as Item>::ADDRESS == 2,
        <ModelInformation as Item>::BYTES == 4,
        <FirmwareVersion as Item>::ADDRESS == 6,
        <FirmwareVersion as Item>::BYTES == 1,
        <Id as Item>::ADDRESS == 7,
        <Id as Item>::BYTES == 1,
        <BaudRate as Item>::ADDRESS == 8,
        <BaudRate as Item>::BYTES == 1,
        <ReturnDelayTime as Item>::ADDRESS == 9,
        <ReturnDelayTime as Item>::BYTES == 1,
        <DriveMode as Item>::ADDRESS == 10,
        <DriveMode as Item>::BYTES == 1,
        <OperatingMode as Item>::ADDRESS == 11,
        <OperatingMode as Item>::BYTES == 1,
        <SecondaryId as Item>::ADDRESS == 12,
        <SecondaryId as Item>::BYTES == 1,
        <ProtocolType as Item>::ADDRESS == 13,
        <ProtocolType as Item>::BYTES == 1,
        <HomingOffset as Item>::ADDRESS == 20,
        <HomingOffset as Item>::BYTES == 4,
        <MovingThreshold as Item>::ADDRESS == 24,
        <MovingThreshold as Item>::BYTES == 4,
        <TemperatureLimit as Item>::ADDRESS == 31,
        <TemperatureLimit as Item>::BYTES == 1,
        <MaxVoltageLimit as Item>::ADDRESS == 32,
        <MaxVoltageLimit as Item>::BYTES == 2,
        <MinVoltageLimit as Item>::ADDRESS == 34,
        <MinVoltageLimit as Item>::BYTES == 2,
        <PwmLimit as Item>::ADDRESS == 36,
        <PwmLimit as Item>::BYTES == 2,
        <CurrentLimit as Item>::ADDRESS == 38,
        <CurrentLimit as Item>::BYTES == 2,
        <VelocityLimit as Item>::ADDRESS == 44,
        <VelocityLimit as Item>::BYTES == 4,
        <MaxPositionLimit as Item>::ADDRESS == 48,
        <MaxPositionLimit as Item>::BYTES == 4,
        <MinPositionLimit as Item>::ADDRESS == 52,
        <MinPositionLimit as Item>::BYTES == 4,
        <StartupConfiguration as Item>::ADDRESS == 60,
        <StartupConfiguration as Item>::BYTES == 1,
        <PwmSlope as Item>::ADDRESS == 62,
        <PwmSlope as Item>::BYTES == 1,
        <Shutdown as Item>::ADDRESS == 63,
        <Shutdown as Item>::BYTES == 1,
        <TorqueEnable as Item>::ADDRESS == 64,
        <TorqueEnable as Item>::BYTES == 1,
        <Led as Item>::ADDRESS == 65,
        <Led as Item>::BYTES == 1,
        <StatusReturnLevel as Item>::ADDRESS == 68,
        <StatusReturnLevel as Item>::BYTES == 1,
        <RegisteredInstruction as Item>::ADDRESS == 69,
        <RegisteredInstruction as Item>::BYTES == 1,
        <HardwareErrorStatus as Item>::ADDRESS == 70,
        <HardwareErrorStatus as Item>::BYTES == 1,
        <VelocityIGain as Item>::ADDRESS == 76,
        <VelocityIGain as Item>::BYTES == 2,
        <VelocityPGain as Item>::ADDRESS == 78,
        <VelocityPGain as Item>::BYTES == 2,
        <PositionDGain as Item>::ADDRESS == 80,
        <PositionDGain as Item>::BYTES == 2,
        <PositionIGain as Item>::ADDRESS == 82,
        <PositionIGain as Item>::BYTES == 2,
        <PositionPGain as Item>::ADDRESS == 84,
        <PositionPGain as Item>::BYTES == 2,
        <Feedforward2ndGain as Item>::ADDRESS == 88,
        <Feedforward2ndGain as Item>::BYTES == 2,
        <Feedforward1stGain as Item>::ADDRESS == 90,
        <Feedforward1stGain as Item>::BYTES == 2,
        <BusWatchdog as Item>::ADDRESS == 98,
        <BusWatchdog as Item>::BYTES == 1,
        <GoalPwm as Item>::ADDRESS == 100,
        <GoalPwm as Item>::BYTES == 2,
        <GoalCurrent as Item>::ADDRESS == 102,
        <GoalCurrent as Item>::BYTES == 2,
        <GoalVelocity as Item>::ADDRESS == 104,
        <GoalVelocity as Item>::BYTES == 4,
        <ProfileAcceleration as Item>::ADDRESS == 108,
        <ProfileAcceleration as Item>::BYTES == 4,
        <ProfileVelocity as Item>::ADDRESS == 112,
        <ProfileVelocity as Item>::BYTES == 4,
        <GoalPosition as Item>::ADDRESS == 116,
        <GoalPosition as Item>::BYTES == 4,
        <RealtimeTick as Item>::ADDRESS == 120,
        <RealtimeTick as Item>::BYTES == 2,
        <Moving as Item>::ADDRESS == 122,
        <Moving as Item>::BYTES == 1,
        <MovingStatus as Item>::ADDRESS == 123,
        <MovingStatus as Item>::BYTES == 1,
        <PresentPwm as Item>::ADDRESS == 124,
        <PresentPwm as Item>::BYTES == 2,
        <PresentCurrent as Item>::ADDRESS == 126,
        <PresentCurrent as Item>::BYTES == 2,
        <PresentVelocity as Item>::ADDRESS == 128,
        <PresentVelocity as Item>::BYTES == 4,
        <PresentPosition as Item>::ADDRESS == 132,
        <PresentPosition as Item>::BYTES == 4,
        <VelocityTrajectory as Item>::ADDRESS == 136,
        <VelocityTrajectory as Item>::BYTES == 4,
        <PositionTrajectory as Item>::ADDRESS == 140,
        <PositionTrajectory as Item>::BYTES == 4,
        <PresentInputVoltage as Item>::ADDRESS == 144,
        <PresentInputVoltage as Item>::BYTES == 2,
        <PresentTemperature as Item>::ADDRESS == 146,
        <PresentTemperature as Item>::BYTES == 1,
        <BackupReady as Item>::ADDRESS == 147,
        <BackupReady as Item>::BYTES == 1,
{
}

/// The baud rate, in bits per second, that each variant names.
pub open spec fn bits_per_second(b: Baud) -> nat {
    match b {
        Baud::Baud9600 => 9600,
        Baud::Baud57600 => 57600,
        Baud::Baud115200 => 115200,
        Baud::Baud1000000 => 1000000,
        Baud::Baud2000000 => 2000000,
        Baud::Baud3000000 => 3000000,
        Baud::Baud4000000 => 4000000,
    }
}

/// The Baud Rate values of the protocol: 9600 bps is 0, 57600 is 1, 115200
/// is 2, 1 Mbps is 3, 2 Mbps is 4, 3 Mbps is 5 and 4 Mbps is 6, so that a
/// faster rate has a larger value and every value fits below 7.
pub proof fn law_baud_codes(a: Baud, b: Baud)
    ensures
        baud_code(Baud::Baud9600) == 0,
        baud_code(Baud::Baud57600) == 1,
        baud_code(Baud::Baud115200) == 2,
        baud_code(Baud::Baud1000000) == 3,
        baud_code(Baud::Baud2000000) == 4,
        baud_code(Baud::Baud3000000) == 5,
        baud_code(Baud::Baud4000000) == 6,
        bits_per_second(a) < bits_per_second(b) <==> baud_code(a) < baud_code(b),
        baud_code(a) == baud_code(b) ==> a == b,
        baud_code(a) < 7,
{
}

} // verus!
