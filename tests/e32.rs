use embedded_drivers::e32::config::{
    AirDataRate, IoDriveMode, ParameterSettings, TransmissionMode, TxPower, UartBaudRate,
    UartParity, WirelessWakeUpTime,
};
use embedded_drivers::e32::frame::Frame;
use embedded_drivers::e32::op::{OperationCode, OperationMode};
use embedded_drivers::e32::port::{LevelLog, OutputPin, ReadLog, SerialPort, WriteLog};
use embedded_drivers::e32::result::{Error, ParseConfigurationError};
use embedded_drivers::e32::E32;

#[derive(Debug, PartialEq)]
struct Fault;

/// A channel that accepts writes until `fail_write_at` and delivers `input`.
struct MockSerial {
    attempts: Vec<u8>,
    accepted: Vec<u8>,
    fail_write_at: Option<usize>,
    input: Vec<u8>,
    pos: usize,
}

impl MockSerial {
    fn new(input: Vec<u8>) -> Self {
        MockSerial { attempts: Vec::new(), accepted: Vec::new(), fail_write_at: None, input, pos: 0 }
    }
}

impl SerialPort for MockSerial {
    type Error = Fault;

    // The logs describe the channel to the verifier only; they are never called.
    fn writes(&self) -> WriteLog {
        unreachable!()
    }

    fn reads(&self) -> ReadLog {
        unreachable!()
    }

    fn read_byte(&mut self) -> Result<u8, Fault> {
        if self.pos < self.input.len() {
            self.pos += 1;
            Ok(self.input[self.pos - 1])
        } else {
            Err(Fault)
        }
    }

    fn write_byte(&mut self, b: u8) -> Result<(), Fault> {
        let n = self.attempts.len();
        self.attempts.push(b);
        if self.fail_write_at == Some(n) {
            Err(Fault)
        } else {
            self.accepted.push(b);
            Ok(())
        }
    }
}

#[derive(Default)]
struct MockPin {
    levels: Vec<bool>,
}

impl OutputPin for MockPin {
    type Error = Fault;

    fn commanded(&self) -> LevelLog {
        unreachable!()
    }

    fn set_low(&mut self) -> Result<(), Fault> {
        self.levels.push(false);
        Ok(())
    }

    fn set_high(&mut self) -> Result<(), Fault> {
        self.levels.push(true);
        Ok(())
    }
}

fn ready_driver() -> E32<MockSerial> {
    let mut e = E32::<MockSerial>::new();
    e.set_uart_data_rate(9600);
    e
}

const VALID: [u8; 6] = [0xC0, 0x12, 0x34, 0b00_011_010, 0x17, 0b1_1_010_1_00];

#[test]
fn new_driver_has_zero_rate() {
    let e = E32::<MockSerial>::new();
    assert_eq!(e.uart_data_rate(), 0);
}

#[test]
fn set_mode_drives_documented_levels() {
    let e = ready_driver();
    let cases = [
        (OperationMode::Normal, false, false),
        (OperationMode::WakeUp, true, false),
        (OperationMode::PowerSaving, false, true),
        (OperationMode::Sleep, true, true),
    ];
    for (mode, l0, l1) in cases {
        let mut m0 = MockPin::default();
        let mut m1 = MockPin::default();
        assert!(e.set_mode(mode, &mut m0, &mut m1).is_ok());
        assert_eq!(m0.levels, vec![l0]);
        assert_eq!(m1.levels, vec![l1]);
        assert_eq!(mode.pin_levels(), (l0, l1));
    }
}

#[test]
fn set_mode_refused_at_other_rates() {
    for rate in [0u16, 1200, 9599, 9601, 115200u32 as u16] {
        let mut e = E32::<MockSerial>::new();
        e.set_uart_data_rate(rate);
        let mut m0 = MockPin::default();
        let mut m1 = MockPin::default();
        match e.set_mode(OperationMode::Sleep, &mut m0, &mut m1) {
            Err(Error::InvalidBaudRate(r)) => assert_eq!(r, rate),
            other => panic!("unexpected {:?}", other),
        }
        assert!(m0.levels.is_empty());
        assert!(m1.levels.is_empty());
    }
}

#[test]
fn read_cfg_on_fresh_driver_is_refused() {
    let mut e = E32::<MockSerial>::new();
    let mut s = MockSerial::new(vec![]);
    let mut m0 = MockPin::default();
    let mut m1 = MockPin::default();
    assert!(matches!(e.read_cfg(&mut s, &mut m0, &mut m1), Err(Error::InvalidBaudRate(0))));
    assert!(s.attempts.is_empty());
    assert!(m0.levels.is_empty() && m1.levels.is_empty());
}

#[test]
fn read_cfg_sleeps_and_sends_command_three_times() {
    let mut e = ready_driver();
    let mut s = MockSerial::new(vec![]);
    let mut m0 = MockPin::default();
    let mut m1 = MockPin::default();
    assert!(e.read_cfg(&mut s, &mut m0, &mut m1).is_ok());
    assert_eq!(m0.levels, vec![true]);
    assert_eq!(m1.levels, vec![true]);
    assert_eq!(s.accepted, vec![0xC1, 0xC1, 0xC1]);
}

#[test]
fn write_op_stops_at_second_write_failure() {
    let e = ready_driver();
    let mut s = MockSerial::new(vec![]);
    s.fail_write_at = Some(1);
    let r = e.write_op(&mut s, OperationCode::ReadCfg);
    assert!(matches!(r, Err(Error::SerialError(Fault))));
    assert_eq!(s.accepted, vec![0xC1]);
    assert_eq!(s.attempts.len(), 2);
}

#[test]
fn operation_codes() {
    assert_eq!(OperationCode::SaveCfg.code(), 0xC0);
    assert_eq!(OperationCode::ReadCfg.code(), 0xC1);
    assert_eq!(OperationCode::WriteTemporaryCfg.code(), 0xC2);
    assert_eq!(OperationCode::ReadVersion.code(), 0xC3);
    assert_eq!(OperationCode::Reset.code(), 0xC4);
}

#[test]
fn parse_valid_frame() {
    let p = ParameterSettings::parse(VALID).unwrap();
    assert_eq!(p.address, 0x1234);
    assert_eq!(p.channel, 0x17);
    assert_eq!(p.uart_parity, UartParity::EightNoneOne);
    assert_eq!(p.uart_baud_rate, UartBaudRate::Bps9600);
    assert_eq!(p.air_data_rate, AirDataRate::Kbps2_4);
    assert_eq!(p.transmission_mode, TransmissionMode::Fixed);
    assert_eq!(p.io_drive_mode, IoDriveMode::PushPull);
    assert_eq!(p.wake_up_time, WirelessWakeUpTime::Ms750);
    assert!(p.fec);
    assert_eq!(p.tx_power, TxPower::Dbm30);
}

#[test]
fn parse_wrong_head_is_refused_first() {
    let mut raw = VALID;
    raw[0] = 0xC2;
    raw[3] = 0xFF;
    assert_eq!(ParameterSettings::parse(raw), Err(ParseConfigurationError::InvalidHead(0xC2)));
}

#[test]
fn parse_single_invalid_parity() {
    let mut raw = VALID;
    raw[3] = 0b11_011_010;
    assert_eq!(
        ParameterSettings::parse(raw),
        Err(ParseConfigurationError::InvalidUartParity(0b11_011_010))
    );
}

#[test]
fn parse_single_invalid_air_rate() {
    for bits in [0b110u8, 0b111] {
        let mut raw = VALID;
        raw[3] = 0b00_011_000 | bits;
        assert_eq!(
            ParameterSettings::parse(raw),
            Err(ParseConfigurationError::InvalidAirDataRate(raw[3]))
        );
    }
}

#[test]
fn parse_first_invalid_field_wins() {
    let mut raw = VALID;
    raw[3] = 0b11_011_111;
    assert_eq!(
        ParameterSettings::parse(raw),
        Err(ParseConfigurationError::InvalidUartParity(0b11_011_111))
    );
}

#[test]
fn settings_round_trip() {
    let p = ParameterSettings::parse(VALID).unwrap();
    let bytes = p.to_bytes();
    assert_eq!(bytes, VALID);
    assert_eq!(ParameterSettings::parse(bytes), Ok(p));
}

#[test]
fn settings_round_trip_masks_channel_reserved_bits() {
    let mut raw = VALID;
    raw[4] = 0xE5;
    let p = ParameterSettings::parse(raw).unwrap();
    assert_eq!(p.channel, 0x05);
    assert_eq!(p.to_bytes()[4], 0x05);
    assert_eq!(ParameterSettings::parse(p.to_bytes()), Ok(p));
}

#[test]
fn write_fills_capacity_exactly() {
    let mut e = ready_driver();
    let mut s = MockSerial::new(vec![]);
    let data = [1u8, 2, 3, 4, 5];
    assert!(e.write::<8>(&mut s, &data, 0x1234, 5).is_ok());
    assert_eq!(s.accepted, vec![0x12, 0x34, 0x05, 1, 2, 3, 4, 5]);
}

#[test]
fn write_one_byte_too_many_is_refused() {
    let mut e = ready_driver();
    let mut s = MockSerial::new(vec![]);
    let data = [1u8, 2, 3, 4, 5, 6];
    assert!(matches!(e.write::<8>(&mut s, &data, 0x1234, 5), Err(Error::InvalidWriteSize(8))));
    assert!(s.attempts.is_empty());
}

#[test]
fn write_capacity_below_header_is_refused() {
    let mut e = ready_driver();
    let mut s = MockSerial::new(vec![]);
    assert!(matches!(e.write::<2>(&mut s, &[], 1, 1), Err(Error::InvalidWriteSize(2))));
    assert!(e.write::<3>(&mut s, &[], 0xABCD, 9).is_ok());
    assert_eq!(s.accepted, vec![0xAB, 0xCD, 9]);
}

#[test]
fn write_stops_at_failed_byte() {
    let mut e = ready_driver();
    let mut s = MockSerial::new(vec![]);
    s.fail_write_at = Some(3);
    let r = e.write::<16>(&mut s, &[7, 8, 9], 0x0102, 3);
    assert!(matches!(r, Err(Error::SerialError(Fault))));
    assert_eq!(s.attempts, vec![0x01, 0x02, 3, 7]);
    assert_eq!(s.accepted, vec![0x01, 0x02, 3]);
}

#[test]
fn frame_layout() {
    let f = Frame::<6>::build(&[0xAA, 0xBB], 0x1234, 5).unwrap();
    assert_eq!(f.len(), 5);
    assert_eq!(f.as_slice(), &[0x12, 0x34, 0x05, 0xAA, 0xBB]);
    assert!(Frame::<4>::build(&[0xAA, 0xBB], 0x1234, 5).is_none());
}

#[test]
fn read_cfg_callback_parses_frame() {
    let mut e = ready_driver();
    let mut s = MockSerial::new(VALID.to_vec());
    let p = e.read_cfg_callback(&mut s).unwrap();
    assert_eq!(Ok(p), ParameterSettings::parse(VALID));
    assert_eq!(s.pos, 6);
}

#[test]
fn read_cfg_callback_bad_head_leaves_driver() {
    let mut e = ready_driver();
    let mut raw = VALID;
    raw[0] = 0x00;
    let mut s = MockSerial::new(raw.to_vec());
    let r = e.read_cfg_callback(&mut s);
    assert!(matches!(
        r,
        Err(Error::ParseConfigurationError(ParseConfigurationError::InvalidHead(0x00)))
    ));
    assert_eq!(e.uart_data_rate(), 9600);
}

#[test]
fn read_cfg_callback_short_stream() {
    let mut e = ready_driver();
    let mut s = MockSerial::new(vec![0xC0, 0, 0]);
    assert!(matches!(e.read_cfg_callback(&mut s), Err(Error::SerialError(Fault))));
    assert_eq!(s.pos, 3);
}

#[test]
fn read_single_byte() {
    let mut e = ready_driver();
    let mut s = MockSerial::new(vec![0x42]);
    assert_eq!(e.read(&mut s).unwrap(), 0x42);
    assert!(matches!(e.read(&mut s), Err(Error::SerialError(Fault))));
}

#[test]
fn write_cfg_selects_normal_mode_only() {
    let mut e = ready_driver();
    let mut s = MockSerial::new(vec![]);
    let mut m0 = MockPin::default();
    let mut m1 = MockPin::default();
    let cfg = ParameterSettings::parse(VALID).unwrap();
    assert!(e.write_cfg(&mut s, cfg, &mut m0, &mut m1).is_ok());
    assert_eq!(m0.levels, vec![false]);
    assert_eq!(m1.levels, vec![false]);
    assert!(s.attempts.is_empty());
}

#[test]
fn parse_error_messages() {
    assert_eq!(ParseConfigurationError::CouldNotParse.message(), "Could not parse configuration.");
    assert_eq!(ParseConfigurationError::InvalidHead(193).message(), "Invalid head 193");
    assert_eq!(ParseConfigurationError::InvalidHead(0).message(), "Invalid head 0");
    assert_eq!(
        ParseConfigurationError::InvalidUartParity(0b1101_1010).message(),
        "Invalid uart parity 0b11011010"
    );
    assert_eq!(
        ParseConfigurationError::InvalidAirDataRate(0b110).message(),
        "Invalid air data rate 0b00000110"
    );
    assert_eq!(ParseConfigurationError::InvalidTxPower(3).message(), "Invalid tx power 0b00000011");
}

#[test]
fn driver_error_messages() {
    let e: Error<Fault> = Error::InvalidBaudRate(1200);
    assert_eq!(
        e.message().unwrap(),
        "Could not configure module because of an invalid baud rate. Value: 1200."
    );
    let e: Error<Fault> = Error::InvalidWriteSize(8);
    assert_eq!(
        e.message().unwrap(),
        "To transmit data, the buffer capacity needs to be at least 4 bytes long. Current capacity: 8."
    );
    let e: Error<Fault> = Error::ParseConfigurationError(ParseConfigurationError::InvalidHead(7));
    assert_eq!(e.message().unwrap(), "Invalid head 7");
    let e: Error<Fault> = Error::SerialError(Fault);
    assert!(e.message().is_none());
}
