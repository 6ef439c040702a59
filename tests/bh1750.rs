use embedded_drivers::bh1750::bus::{I2cBus, ReceiveLog, TransferLog};
use embedded_drivers::bh1750::config::{Config, MeasurementMode};
use embedded_drivers::bh1750::register::Register;
use embedded_drivers::bh1750::result::Error;
use embedded_drivers::bh1750::Bh1750;

#[derive(Debug, PartialEq)]
struct BusFault;

struct MockBus {
    writes: Vec<(u8, Vec<u8>)>,
    fail_write_at: Option<usize>,
    input: Vec<u8>,
}

impl MockBus {
    fn new(input: Vec<u8>) -> Self {
        MockBus { writes: Vec::new(), fail_write_at: None, input }
    }
}

impl I2cBus for MockBus {
    type Error = BusFault;

    // The logs describe the bus to the verifier only; they are never called.
    fn writes(&self) -> TransferLog {
        unreachable!()
    }

    fn reads(&self) -> ReceiveLog {
        unreachable!()
    }

    fn write(&mut self, address: u8, bytes: &[u8]) -> Result<(), BusFault> {
        if self.fail_write_at == Some(self.writes.len()) {
            return Err(BusFault);
        }
        self.writes.push((address, bytes.to_vec()));
        Ok(())
    }

    fn read(&mut self, _address: u8, buffer: &mut [u8]) -> Result<(), BusFault> {
        if self.input.len() < buffer.len() {
            return Err(BusFault);
        }
        let rest = self.input.split_off(buffer.len());
        buffer.copy_from_slice(&self.input);
        self.input = rest;
        Ok(())
    }
}

#[test]
fn new_sends_default_mode_and_time() {
    let mut bus = MockBus::new(vec![]);
    let b = Bh1750::new(0x23, &mut bus).unwrap();
    assert_eq!(
        bus.writes,
        vec![(0x23, vec![0x10]), (0x23, vec![0x42]), (0x23, vec![0x65])]
    );
    assert_eq!(b.measurement_mode(), MeasurementMode::ContinuouslyHighResolution);
    assert_eq!(b.raw_light_level(), 0);
}

#[test]
fn invalid_time_is_refused_after_mode() {
    let mut bus = MockBus::new(vec![]);
    let cfg = Config::default().measurement_time(30);
    let r = Bh1750::with_configuration(0x5C, &mut bus, cfg);
    assert!(matches!(r, Err(Error::InvalidMeasurementTime(30))));
    assert_eq!(bus.writes, vec![(0x5C, vec![0x10])]);
}

#[test]
fn time_bounds() {
    let mut bus = MockBus::new(vec![]);
    let mut b = Bh1750::new(0x23, &mut bus).unwrap();
    assert!(matches!(b.set_measurement_time(&mut bus, 255), Err(Error::InvalidMeasurementTime(255))));
    assert!(b.set_measurement_time(&mut bus, 31).is_ok());
    assert!(b.set_measurement_time(&mut bus, 254).is_ok());
    assert_eq!(bus.writes[3..], [(0x23, vec![0x40]), (0x23, vec![0x7F]), (0x23, vec![0x47]), (0x23, vec![0x7E])]);
}

#[test]
fn bus_failure_keeps_mode() {
    let mut bus = MockBus::new(vec![]);
    let mut b = Bh1750::new(0x23, &mut bus).unwrap();
    bus.fail_write_at = Some(3);
    let r = b.set_measurement_mode(&mut bus, MeasurementMode::OneTimeLowResolution);
    assert!(matches!(r, Err(Error::I2cError(BusFault))));
    assert_eq!(b.measurement_mode(), MeasurementMode::ContinuouslyHighResolution);
}

#[test]
fn reading_high_resolution() {
    let mut bus = MockBus::new(vec![0x01, 0x2C]);
    let mut b = Bh1750::new(0x23, &mut bus).unwrap();
    assert!(b.read(&mut bus).is_ok());
    assert_eq!(b.raw_light_level(), 300);
    assert_eq!(b.light_level_fraction(), (300 * 690, 12 * 69));
    assert_eq!(bus.writes.last(), Some(&(0x23, vec![0x10])));
}

#[test]
fn reading_other_modes() {
    let mut bus = MockBus::new(vec![0x00, 0x0C, 0x00, 0x0C]);
    let cfg = Config::default().measurement_mode(MeasurementMode::OneTimeHighResolution2).measurement_time(100);
    let mut b = Bh1750::with_configuration(0x23, &mut bus, cfg).unwrap();
    assert!(b.read(&mut bus).is_ok());
    assert_eq!(b.light_level_fraction(), (12 * 690, 24 * 100));
    assert!(b.set_measurement_mode(&mut bus, MeasurementMode::ContinuouslyLowResolution).is_ok());
    assert!(b.read(&mut bus).is_ok());
    assert_eq!(b.light_level_fraction(), (120, 12));
    assert!(matches!(b.read(&mut bus), Err(Error::I2cError(BusFault))));
    assert_eq!(b.raw_light_level(), 12);
}

#[test]
fn register_and_mode_codes() {
    assert_eq!(Register::RESET.code(), 0b0000_0111);
    assert_eq!(Register::ONE_TIME_L_RES_MODE.code(), 0b0010_0011);
    assert_eq!(MeasurementMode::ContinuouslyLowResolution.opcode(), 0b0001_0011);
    assert_eq!(MeasurementMode::default(), MeasurementMode::ContinuouslyHighResolution);
}
