use dxl::driver::actuator::{
    after_enable_torque, after_hardware_read, after_profile_velocity_write, after_reboot,
    start_recovery, Error, MaxVelocity, Recovery,
};
use dxl::driver::bus::{receive_byte, Bus, Error as BusExchangeError, Exchange, IdError};
use dxl::driver::comm::Comm;
use dxl::driver::mutex::Mutex;
use dxl::driver::{ActuatorError, BusError, IoError};
use dxl::proto::packet::recv::{Persistent, PersistentConfig, PersistentError, SoftwareError};
use dxl::proto::recv::{Ping, Read};
use dxl::proto::{send, New};

struct Link {
    baud: u32,
}

impl Comm for Link {
    type SendError = &'static str;
    type RecvError = &'static str;

    fn baud(&self) -> u32 {
        self.baud
    }

    fn set_baud(&mut self, baud: u32) {
        self.baud = baud;
    }
}

struct Lock<T>(T);

impl<T> Mutex for Lock<T> {
    type Item = T;
    type Error = &'static str;

    fn new(item: T) -> Self {
        Lock(item)
    }
}

type L = Lock<Bus<Link>>;

const PING_STATUS: [u8; 14] = [
    0xFF, 0xFF, 0xFD, 0x00, 0x01, 0x07, 0x00, 0x55, 0x00, 0x06, 0x04, 0x26, 0x65, 0x5D,
];

#[test]
fn check_duplicate_id() {
    let mut bus = Bus::new(Link { baud: 57_600 });
    assert_eq!(bus.check_duplicate_id(1), Ok(()));
    assert_eq!(bus.check_duplicate_id(1), Err(IdError::AlreadyInUse { id: 1 }));
    assert_eq!(bus.check_duplicate_id(252), Ok(()));
    assert_eq!(bus.check_duplicate_id(253), Err(IdError::InvalidId { id: 253 }));
    assert_eq!(bus.check_duplicate_id(255), Err(IdError::InvalidId { id: 255 }));
    assert_eq!(bus.check_duplicate_id(0), Ok(()));
}

#[test]
fn set_baud_reaches_the_link() {
    let mut bus = Bus::new(Link { baud: 57_600 });
    bus.set_baud(1_000_000);
    assert_eq!(bus.link().baud, 1_000_000);
    assert_eq!(bus.check_duplicate_id(3), Ok(()));
}

#[test]
fn mutex_guards_a_bus() {
    let lock: L = Mutex::new(Bus::new(Link { baud: 9_600 }));
    let mut bus = lock.0;
    assert_eq!(bus.link().baud, 9_600);
}

#[test]
fn exchange_reads_ping() {
    let mut state = Persistent::<send::Ping>::new(PersistentConfig { expected_id: 1 });
    for (i, &byte) in PING_STATUS.iter().enumerate() {
        match receive_byte::<Link, send::Ping>(state, Ok(byte)) {
            Exchange::Continue(next) => state = next,
            Exchange::Finished(Ok(ping)) => {
                assert_eq!(i, PING_STATUS.len() - 1);
                assert_eq!(ping, Ping { model_number: 1030, firmware_version: 38 });
                return;
            },
            Exchange::Finished(Err(_)) => panic!("the exchange failed"),
        }
    }
    panic!("the exchange did not finish");
}

#[test]
fn exchange_stops_on_receive_error() {
    let state = Persistent::<send::Ping>::new(PersistentConfig { expected_id: 1 });
    match receive_byte::<Link, send::Ping>(state, Err("timed out")) {
        Exchange::Finished(Err(BusExchangeError::Io(IoError::Recv(e)))) => assert_eq!(e, "timed out"),
        _ => panic!("a receive error did not stop the exchange"),
    }
}

#[test]
fn exchange_reports_software_error() {
    let mut bytes = PING_STATUS[..12].to_vec();
    bytes[8] = 0x02;
    let crc = dxl::crc::crc_of(&bytes);
    bytes.extend_from_slice(&crc.to_le_bytes());
    let mut state = Persistent::<send::Ping>::new(PersistentConfig { expected_id: 1 });
    for &byte in bytes.iter() {
        match receive_byte::<Link, send::Ping>(state, Ok(byte)) {
            Exchange::Continue(next) => state = next,
            Exchange::Finished(Err(BusExchangeError::Packet(PersistentError::Software(e)))) => {
                assert_eq!(e, SoftwareError::InstructionError);
                return;
            },
            Exchange::Finished(_) => panic!("wrong outcome"),
        }
    }
    panic!("the exchange did not finish");
}

#[test]
fn recovery_starts() {
    let io: BusExchangeError<Link, ()> = BusExchangeError::Io(IoError::Send("busy"));
    assert!(matches!(start_recovery(io), Recovery::Done(Error::Io(IoError::Send("busy")))));
    let sw: BusExchangeError<Link, ()> = BusExchangeError::Packet(PersistentError::Software(SoftwareError::CrcError));
    assert!(matches!(start_recovery(sw), Recovery::Done(Error::Software(SoftwareError::CrcError))));
    let hw: BusExchangeError<Link, ()> = BusExchangeError::Packet(PersistentError::Hardware(()));
    assert!(matches!(start_recovery(hw), Recovery::ReadHardwareErrorStatus));
}

#[test]
fn hardware_error_is_read_then_actuator_rebooted() {
    let read: Result<Read<1>, BusError<Link, L, Read<1>>> = Ok(Read { bytes: [0x04] });
    match after_hardware_read(read) {
        Recovery::Reboot(Error::Hardware(s)) => assert!(s.overheat() && !s.overload()),
        _ => panic!("the hardware error was not read"),
    }
    let reported: Result<Read<1>, BusError<Link, L, Read<1>>> = Err(BusError::Packet(
        BusExchangeError::Packet(PersistentError::Hardware(Read { bytes: [0x20] })),
    ));
    match after_hardware_read(reported) {
        Recovery::Reboot(Error::Hardware(s)) => assert!(s.overload()),
        _ => panic!("the hardware error in the answer was not read"),
    }
    let failed: Result<Read<1>, BusError<Link, L, Read<1>>> = Err(BusError::Mutex("poisoned"));
    assert!(matches!(after_hardware_read(failed), Recovery::Reboot(Error::HardwareUnknown)));
}

#[test]
fn reboot_then_torque_until_enabled() {
    let ok: Result<(), BusError<Link, L, ()>> = Ok(());
    assert!(matches!(
        after_reboot::<Link, L>(Error::HardwareUnknown, ok),
        Recovery::EnableTorque(Error::HardwareUnknown)
    ));
    let failed: Result<(), BusError<Link, L, ()>> = Err(BusError::Mutex("poisoned"));
    assert!(matches!(after_reboot::<Link, L>(Error::HardwareUnknown, failed), Recovery::Done(Error::HardwareUnknown)));
    let again: Result<(), BusError<Link, L, ()>> = Err(BusError::Packet(BusExchangeError::Io(IoError::Recv("timed out"))));
    assert!(matches!(
        after_enable_torque::<Link, L>(Error::HardwareUnknown, again),
        Recovery::EnableTorque(Error::HardwareUnknown)
    ));
    let done: Result<(), BusError<Link, L, ()>> = Ok(());
    assert!(matches!(after_enable_torque::<Link, L>(Error::HardwareUnknown, done), Recovery::Done(Error::HardwareUnknown)));
}

#[test]
fn max_velocity_is_halved_while_out_of_range() {
    let out_of_range: Result<(), ActuatorError<Link, L>> =
        Err(ActuatorError::Packet(Error::Software(SoftwareError::DataRangeError)));
    assert!(matches!(after_profile_velocity_write(u32::MAX, out_of_range), MaxVelocity::Retry(0x7FFF_FFFF)));
    let written: Result<(), ActuatorError<Link, L>> = Ok(());
    assert!(matches!(after_profile_velocity_write(1023, written), MaxVelocity::Written));
    let other: Result<(), ActuatorError<Link, L>> = Err(ActuatorError::Packet(Error::Software(SoftwareError::AccessError)));
    assert!(matches!(
        after_profile_velocity_write(1023, other),
        MaxVelocity::Failed(ActuatorError::Packet(Error::Software(SoftwareError::AccessError)))
    ));
}
