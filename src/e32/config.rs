//! The module's configuration frame: six bytes, a head byte followed by the
//! address (high, low), the SPED byte (UART parity, UART baud rate, air data
//! rate), the channel, and the OPTION byte (transmission mode, I/O drive
//! mode, wake-up time, FEC, transmit power).
use vstd::prelude::*;

use crate::e32::result::ParseConfigurationError;

verus! {

/// Head byte of a configuration frame as the module reports it.
pub const CONFIG_HEAD: u8 = 0xC0;

/// Parity of the UART link between host and module.
#[derive(Debug, Clone, Copy, PartialEq, Eq, Structural)]
pub enum UartParity {
    /// 8 data bits, no parity, 1 stop bit.
    EightNoneOne,
    /// 8 data bits, odd parity, 1 stop bit.
    EightOddOne,
    /// 8 data bits, even parity, 1 stop bit.
    EightEvenOne,
}

impl UartParity {
    /// The setting that the 2-bit pattern `b` stands for, if any.
    pub open spec fn decode(b: u8) -> Option<Self> {
        if b == 0 {
            Some(UartParity::EightNoneOne)
        } else if b == 1 {
            Some(UartParity::EightOddOne)
        } else if b == 2 {
            Some(UartParity::EightEvenOne)
        } else {
            None
        }
    }

    /// The bit pattern of this setting.
    pub open spec fn spec_bits(self) -> u8 {
        match self {
            UartParity::EightNoneOne => 0,
            UartParity::EightOddOne => 1,
            UartParity::EightEvenOne => 2,
        }
    }

    /// Reads a setting from its bit pattern.
    pub fn from_bits(b: u8) -> (r: Option<Self>)
        ensures
            r == Self::decode(b),
    {
        match b {
            0 => Some(UartParity::EightNoneOne),
            1 => Some(UartParity::EightOddOne),
            2 => Some(UartParity::EightEvenOne),
            _ => None,
        }
    }

    /// The bit pattern written to the module for this setting.
    pub fn bits(self) -> (r: u8)
        ensures
            r == self.spec_bits(),
    {
        match self {
            UartParity::EightNoneOne => 0,
            UartParity::EightOddOne => 1,
            UartParity::EightEvenOne => 2,
        }
    }

    /// Decoding the bit pattern of a setting gives the setting back.
    pub proof fn lemma_decode_bits(self)
        ensures
            self.spec_bits() < 4,
            Self::decode(self.spec_bits()) == Some(self),
    {
    }
}

/// Baud rate of the UART link between host and module.
#[derive(Debug, Clone, Copy, PartialEq, Eq, Structural)]
pub enum UartBaudRate {
    Bps1200,
    Bps2400,
    Bps4800,
    Bps9600,
    Bps19200,
    Bps38400,
    Bps57600,
    Bps115200,
}

impl UartBaudRate {
    /// The setting that the 3-bit pattern `b` stands for, if any.
    pub open spec fn decode(b: u8) -> Option<Self> {
        if b == 0 {
            Some(UartBaudRate::Bps1200)
        } else if b == 1 {
            Some(UartBaudRate::Bps2400)
        } else if b == 2 {
            Some(UartBaudRate::Bps4800)
        } else if b == 3 {
            Some(UartBaudRate::Bps9600)
        } else if b == 4 {
            Some(UartBaudRate::Bps19200)
        } else if b == 5 {
            Some(UartBaudRate::Bps38400)
        } else if b == 6 {
            Some(UartBaudRate::Bps57600)
        } else if b == 7 {
            Some(UartBaudRate::Bps115200)
        } else {
            None
        }
    }

    /// The bit pattern of this setting.
    pub open spec fn spec_bits(self) -> u8 {
        match self {
            UartBaudRate::Bps1200 => 0,
            UartBaudRate::Bps2400 => 1,
            UartBaudRate::Bps4800 => 2,
            UartBaudRate::Bps9600 => 3,
            UartBaudRate::Bps19200 => 4,
            UartBaudRate::Bps38400 => 5,
            UartBaudRate::Bps57600 => 6,
            UartBaudRate::Bps115200 => 7,
        }
    }

    /// Reads a setting from its bit pattern.
    pub fn from_bits(b: u8) -> (r: Option<Self>)
        ensures
            r == Self::decode(b),
    {
        match b {
            0 => Some(UartBaudRate::Bps1200),
            1 => Some(UartBaudRate::Bps2400),
            2 => Some(UartBaudRate::Bps4800),
            3 => Some(UartBaudRate::Bps9600),
            4 => Some(UartBaudRate::Bps19200),
            5 => Some(UartBaudRate::Bps38400),
            6 => Some(UartBaudRate::Bps57600),
            7 => Some(UartBaudRate::Bps115200),
            _ => None,
        }
    }

    /// The bit pattern written to the module for this setting.
    pub fn bits(self) -> (r: u8)
        ensures
            r == self.spec_bits(),
    {
        match self {
            UartBaudRate::Bps1200 => 0,
            UartBaudRate::Bps2400 => 1,
            UartBaudRate::Bps4800 => 2,
            UartBaudRate::Bps9600 => 3,
            UartBaudRate::Bps19200 => 4,
            UartBaudRate::Bps38400 => 5,
            UartBaudRate::Bps57600 => 6,
            UartBaudRate::Bps115200 => 7,
        }
    }

    /// Decoding the bit pattern of a setting gives the setting back.
    pub proof fn lemma_decode_bits(self)
        ensures
            self.spec_bits() < 8,
            Self::decode(self.spec_bits()) == Some(self),
    {
    }
}

/// Over-the-air data rate.
#[derive(Debug, Clone, Copy, PartialEq, Eq, Structural)]
pub enum AirDataRate {
    /// 0.3 kbps.
    Kbps0_3,
    /// 1.2 kbps.
    Kbps1_2,
    /// 2.4 kbps.
    Kbps2_4,
    /// 4.8 kbps.
    Kbps4_8,
    /// 9.6 kbps.
    Kbps9_6,
    /// 19.2 kbps.
    Kbps19_2,
}

impl AirDataRate {
    /// The setting that the 3-bit pattern `b` stands for, if any.
    pub open spec fn decode(b: u8) -> Option<Self> {
        if b == 0 {
            Some(AirDataRate::Kbps0_3)
        } else if b == 1 {
            Some(AirDataRate::Kbps1_2)
        } else if b == 2 {
            Some(AirDataRate::Kbps2_4)
        } else if b == 3 {
            Some(AirDataRate::Kbps4_8)
        } else if b == 4 {
            Some(AirDataRate::Kbps9_6)
        } else if b == 5 {
            Some(AirDataRate::Kbps19_2)
        } else {
            None
        }
    }

    /// The bit pattern of this setting.
    pub open spec fn spec_bits(self) -> u8 {
        match self {
            AirDataRate::Kbps0_3 => 0,
            AirDataRate::Kbps1_2 => 1,
            AirDataRate::Kbps2_4 => 2,
            AirDataRate::Kbps4_8 => 3,
            AirDataRate::Kbps9_6 => 4,
            AirDataRate::Kbps19_2 => 5,
        }
    }

    /// Reads a setting from its bit pattern.
    pub fn from_bits(b: u8) -> (r: Option<Self>)
        ensures
            r == Self::decode(b),
    {
        match b {
            0 => Some(AirDataRate::Kbps0_3),
            1 => Some(AirDataRate::Kbps1_2),
            2 => Some(AirDataRate::Kbps2_4),
            3 => Some(AirDataRate::Kbps4_8),
            4 => Some(AirDataRate::Kbps9_6),
            5 => Some(AirDataRate::Kbps19_2),
            _ => None,
        }
    }

    /// The bit pattern written to the module for this setting.
    pub fn bits(self) -> (r: u8)
        ensures
            r == self.spec_bits(),
    {
        match self {
            AirDataRate::Kbps0_3 => 0,
            AirDataRate::Kbps1_2 => 1,
            AirDataRate::Kbps2_4 => 2,
            AirDataRate::Kbps4_8 => 3,
            AirDataRate::Kbps9_6 => 4,
            AirDataRate::Kbps19_2 => 5,
        }
    }

    /// Decoding the bit pattern of a setting gives the setting back.
    pub proof fn lemma_decode_bits(self)
        ensures
            self.spec_bits() < 8,
            Self::decode(self.spec_bits()) == Some(self),
    {
    }
}

/// How the module addresses what it sends.
#[derive(Debug, Clone, Copy, PartialEq, Eq, Structural)]
pub enum TransmissionMode {
    /// Every module on the channel receives the payload.
    Transparent,
    /// The first three bytes of a payload name the receiver's address and channel.
    Fixed,
}

impl TransmissionMode {
    /// The setting that the 1-bit pattern `b` stands for, if any.
    pub open spec fn decode(b: u8) -> Option<Self> {
        if b == 0 {
            Some(TransmissionMode::Transparent)
        } else if b == 1 {
            Some(TransmissionMode::Fixed)
        } else {
            None
        }
    }

    /// The bit pattern of this setting.
    pub open spec fn spec_bits(self) -> u8 {
        match self {
            TransmissionMode::Transparent => 0,
            TransmissionMode::Fixed => 1,
        }
    }

    /// Reads a setting from its bit pattern.
    pub fn from_bits(b: u8) -> (r: Option<Self>)
        ensures
            r == Self::decode(b),
    {
        match b {
            0 => Some(TransmissionMode::Transparent),
            1 => Some(TransmissionMode::Fixed),
            _ => None,
        }
    }

    /// The bit pattern written to the module for this setting.
    pub fn bits(self) -> (r: u8)
        ensures
            r == self.spec_bits(),
    {
        match self {
            TransmissionMode::Transparent => 0,
            TransmissionMode::Fixed => 1,
        }
    }

    /// Decoding the bit pattern of a setting gives the setting back.
    pub proof fn lemma_decode_bits(self)
        ensures
            self.spec_bits() < 2,
            Self::decode(self.spec_bits()) == Some(self),
    {
    }
}

/// Interval at which a module in power-saving mode listens for a wake-up preamble.
#[derive(Debug, Clone, Copy, PartialEq, Eq, Structural)]
pub enum WirelessWakeUpTime {
    Ms250,
    Ms500,
    Ms750,
    Ms1000,
    Ms1250,
    Ms1500,
    Ms1750,
    Ms2000,
}

impl WirelessWakeUpTime {
    /// The setting that the 3-bit pattern `b` stands for, if any.
    pub open spec fn decode(b: u8) -> Option<Self> {
        if b == 0 {
            Some(WirelessWakeUpTime::Ms250)
        } else if b == 1 {
            Some(WirelessWakeUpTime::Ms500)
        } else if b == 2 {
            Some(WirelessWakeUpTime::Ms750)
        } else if b == 3 {
            Some(WirelessWakeUpTime::Ms1000)
        } else if b == 4 {
            Some(WirelessWakeUpTime::Ms1250)
        } else if b == 5 {
            Some(WirelessWakeUpTime::Ms1500)
        } else if b == 6 {
            Some(WirelessWakeUpTime::Ms1750)
        } else if b == 7 {
            Some(WirelessWakeUpTime::Ms2000)
        } else {
            None
        }
    }

    /// The bit pattern of this setting.
    pub open spec fn spec_bits(self) -> u8 {
        match self {
            WirelessWakeUpTime::Ms250 => 0,
            WirelessWakeUpTime::Ms500 => 1,
            WirelessWakeUpTime::Ms750 => 2,
            WirelessWakeUpTime::Ms1000 => 3,
            WirelessWakeUpTime::Ms1250 => 4,
            WirelessWakeUpTime::Ms1500 => 5,
            WirelessWakeUpTime::Ms1750 => 6,
            WirelessWakeUpTime::Ms2000 => 7,
        }
    }

    /// Reads a setting from its bit pattern.
    pub fn from_bits(b: u8) -> (r: Option<Self>)
        ensures
            r == Self::decode(b),
    {
        match b {
            0 => Some(WirelessWakeUpTime::Ms250),
            1 => Some(WirelessWakeUpTime::Ms500),
            2 => Some(WirelessWakeUpTime::Ms750),
            3 => Some(WirelessWakeUpTime::Ms1000),
            4 => Some(WirelessWakeUpTime::Ms1250),
            5 => Some(WirelessWakeUpTime::Ms1500),
            6 => Some(WirelessWakeUpTime::Ms1750),
            7 => Some(WirelessWakeUpTime::Ms2000),
            _ => None,
        }
    }

    /// The bit pattern written to the module for this setting.
    pub fn bits(self) -> (r: u8)
        ensures
            r == self.spec_bits(),
    {
        match self {
            WirelessWakeUpTime::Ms250 => 0,
            WirelessWakeUpTime::Ms500 => 1,
            WirelessWakeUpTime::Ms750 => 2,
            WirelessWakeUpTime::Ms1000 => 3,
            WirelessWakeUpTime::Ms1250 => 4,
            WirelessWakeUpTime::Ms1500 => 5,
            WirelessWakeUpTime::Ms1750 => 6,
            WirelessWakeUpTime::Ms2000 => 7,
        }
    }

    /// Decoding the bit pattern of a setting gives the setting back.
    pub proof fn lemma_decode_bits(self)
        ensures
            self.spec_bits() < 8,
            Self::decode(self.spec_bits()) == Some(self),
    {
    }
}

/// Drive of the TXD and AUX lines.
#[derive(Debug, Clone, Copy, PartialEq, Eq, Structural)]
pub enum IoDriveMode {
    OpenCollector,
    /// Push-pull outputs with pull-up on RXD.
    PushPull,
}

impl IoDriveMode {
    /// The setting that the 1-bit pattern `b` stands for, if any.
    pub open spec fn decode(b: u8) -> Option<Self> {
        if b == 0 {
            Some(IoDriveMode::OpenCollector)
        } else if b == 1 {
            Some(IoDriveMode::PushPull)
        } else {
            None
        }
    }

    /// The bit pattern of this setting.
    pub open spec fn spec_bits(self) -> u8 {
        match self {
            IoDriveMode::OpenCollector => 0,
            IoDriveMode::PushPull => 1,
        }
    }

    /// Reads a setting from its bit pattern.
    pub fn from_bits(b: u8) -> (r: Option<Self>)
        ensures
            r == Self::decode(b),
    {
        match b {
            0 => Some(IoDriveMode::OpenCollector),
            1 => Some(IoDriveMode::PushPull),
            _ => None,
        }
    }

    /// The bit pattern written to the module for this setting.
    pub fn bits(self) -> (r: u8)
        ensures
            r == self.spec_bits(),
    {
        match self {
            IoDriveMode::OpenCollector => 0,
            IoDriveMode::PushPull => 1,
        }
    }

    /// Decoding the bit pattern of a setting gives the setting back.
    pub proof fn lemma_decode_bits(self)
        ensures
            self.spec_bits() < 2,
            Self::decode(self.spec_bits()) == Some(self),
    {
    }
}

/// Transmit power.
#[derive(Debug, Clone, Copy, PartialEq, Eq, Structural)]
pub enum TxPower {
    Dbm30,
    Dbm27,
    Dbm24,
    Dbm21,
}

impl TxPower {
    /// The setting that the 2-bit pattern `b` stands for, if any.
    pub open spec fn decode(b: u8) -> Option<Self> {
        if b == 0 {
            Some(TxPower::Dbm30)
        } else if b == 1 {
            Some(TxPower::Dbm27)
        } else if b == 2 {
            Some(TxPower::Dbm24)
        } else if b == 3 {
            Some(TxPower::Dbm21)
        } else {
            None
        }
    }

    /// The bit pattern of this setting.
    pub open spec fn spec_bits(self) -> u8 {
        match self {
            TxPower::Dbm30 => 0,
            TxPower::Dbm27 => 1,
            TxPower::Dbm24 => 2,
            TxPower::Dbm21 => 3,
        }
    }

    /// Reads a setting from its bit pattern.
    pub fn from_bits(b: u8) -> (r: Option<Self>)
        ensures
            r == Self::decode(b),
    {
        match b {
            0 => Some(TxPower::Dbm30),
            1 => Some(TxPower::Dbm27),
            2 => Some(TxPower::Dbm24),
            3 => Some(TxPower::Dbm21),
            _ => None,
        }
    }

    /// The bit pattern written to the module for this setting.
    pub fn bits(self) -> (r: u8)
        ensures
            r == self.spec_bits(),
    {
        match self {
            TxPower::Dbm30 => 0,
            TxPower::Dbm27 => 1,
            TxPower::Dbm24 => 2,
            TxPower::Dbm21 => 3,
        }
    }

    /// Decoding the bit pattern of a setting gives the setting back.
    pub proof fn lemma_decode_bits(self)
        ensures
            self.spec_bits() < 4,
            Self::decode(self.spec_bits()) == Some(self),
    {
    }
}
/// A configuration that the module can hold.
#[derive(Debug, Clone, Copy, PartialEq, Eq, Structural)]
pub struct ParameterSettings {
    pub address: u16,
    /// Radio channel, 0 to 31.
    pub channel: u8,
    pub uart_parity: UartParity,
    pub uart_baud_rate: UartBaudRate,
    pub air_data_rate: AirDataRate,
    pub transmission_mode: TransmissionMode,
    pub io_drive_mode: IoDriveMode,
    pub wake_up_time: WirelessWakeUpTime,
    /// Forward error correction switched on.
    pub fec: bool,
    pub tx_power: TxPower,
}

/// The SPED byte of a frame.
pub open spec fn sped(raw: Seq<u8>) -> u8 {
    raw[3]
}

/// The OPTION byte of a frame.
pub open spec fn option(raw: Seq<u8>) -> u8 {
    raw[5]
}

/// What a six-byte frame `raw` is read as.
///
/// The head is checked first; then the fields are checked in the order
/// UART parity, UART baud rate, air data rate, transmission mode, wake-up
/// time, I/O drive mode, transmit power, and the first one refused decides
/// the error, which carries the byte the field sits in.
pub open spec fn parse_frame(raw: Seq<u8>) -> Result<ParameterSettings, ParseConfigurationError> {
    let s = sped(raw);
    let o = option(raw);
    if raw[0] != CONFIG_HEAD {
        Err(ParseConfigurationError::InvalidHead(raw[0]))
    } else if UartParity::decode(s >> 6u8) is None {
        Err(ParseConfigurationError::InvalidUartParity(s))
    } else if UartBaudRate::decode((s >> 3u8) & 7u8) is None {
        Err(ParseConfigurationError::InvalidUartBaudRate(s))
    } else if AirDataRate::decode(s & 7u8) is None {
        Err(ParseConfigurationError::InvalidAirDataRate(s))
    } else if TransmissionMode::decode(o >> 7u8) is None {
        Err(ParseConfigurationError::InvalidTransmission(o))
    } else if WirelessWakeUpTime::decode((o >> 3u8) & 7u8) is None {
        Err(ParseConfigurationError::InvalidWirelessWakeUpTime(o))
    } else if IoDriveMode::decode((o >> 6u8) & 1u8) is None {
        Err(ParseConfigurationError::InvalidIoDriveMode(o))
    } else if TxPower::decode(o & 3u8) is None {
        Err(ParseConfigurationError::InvalidTxPower(o))
    } else {
        Ok(
            ParameterSettings {
                address: ((raw[1] as u16) << 8u16) | (raw[2] as u16),
                channel: raw[4] & 0x1Fu8,
                uart_parity: UartParity::decode(s >> 6u8)->Some_0,
                uart_baud_rate: UartBaudRate::decode((s >> 3u8) & 7u8)->Some_0,
                air_data_rate: AirDataRate::decode(s & 7u8)->Some_0,
                transmission_mode: TransmissionMode::decode(o >> 7u8)->Some_0,
                io_drive_mode: IoDriveMode::decode((o >> 6u8) & 1u8)->Some_0,
                wake_up_time: WirelessWakeUpTime::decode((o >> 3u8) & 7u8)->Some_0,
                fec: (o >> 2u8) & 1u8 == 1u8,
                tx_power: TxPower::decode(o & 3u8)->Some_0,
            },
        )
    }
}

/// The six bytes that describe `p`.
pub open spec fn encode_frame(p: ParameterSettings) -> Seq<u8> {
    seq![
        CONFIG_HEAD,
        (p.address >> 8u16) as u8,
        (p.address & 0xFFu16) as u8,
        (p.uart_parity.spec_bits() << 6u8) | (p.uart_baud_rate.spec_bits() << 3u8)
            | p.air_data_rate.spec_bits(),
        p.channel & 0x1Fu8,
        (p.transmission_mode.spec_bits() << 7u8) | (p.io_drive_mode.spec_bits() << 6u8) | (
        p.wake_up_time.spec_bits() << 3u8) | ((if p.fec { 1u8 } else { 0u8 }) << 2u8)
            | p.tx_power.spec_bits(),
    ]
}

/// The error that field `f` of `raw` gives when its bit pattern is refused,
/// the fields counted in checking order from 0 (UART parity) to 6 (transmit
/// power); `None` when the field holds a valid pattern.
pub open spec fn field_error(raw: Seq<u8>, f: int) -> Option<ParseConfigurationError> {
    let s = sped(raw);
    let o = option(raw);
    if f == 0 && UartParity::decode(s >> 6u8) is None {
        Some(ParseConfigurationError::InvalidUartParity(s))
    } else if f == 1 && UartBaudRate::decode((s >> 3u8) & 7u8) is None {
        Some(ParseConfigurationError::InvalidUartBaudRate(s))
    } else if f == 2 && AirDataRate::decode(s & 7u8) is None {
        Some(ParseConfigurationError::InvalidAirDataRate(s))
    } else if f == 3 && TransmissionMode::decode(o >> 7u8) is None {
        Some(ParseConfigurationError::InvalidTransmission(o))
    } else if f == 4 && WirelessWakeUpTime::decode((o >> 3u8) & 7u8) is None {
        Some(ParseConfigurationError::InvalidWirelessWakeUpTime(o))
    } else if f == 5 && IoDriveMode::decode((o >> 6u8) & 1u8) is None {
        Some(ParseConfigurationError::InvalidIoDriveMode(o))
    } else if f == 6 && TxPower::decode(o & 3u8) is None {
        Some(ParseConfigurationError::InvalidTxPower(o))
    } else {
        None
    }
}

/// A frame whose head byte is wrong is refused for its head, whatever the
/// other bytes hold.
pub proof fn lemma_head_checked_first(raw: Seq<u8>)
    requires
        raw.len() == 6,
        raw[0] != CONFIG_HEAD,
    ensures
        parse_frame(raw) == Err::<ParameterSettings, ParseConfigurationError>(
            ParseConfigurationError::InvalidHead(raw[0]),
        ),
{
}

/// A frame with a good head in which exactly one field holds a refused
/// pattern is refused with that field's own error.
pub proof fn lemma_single_invalid_field(raw: Seq<u8>, f: int)
    requires
        raw.len() == 6,
        raw[0] == CONFIG_HEAD,
        0 <= f < 7,
        field_error(raw, f) is Some,
        forall|g: int| 0 <= g < 7 && g != f ==> (#[trigger] field_error(raw, g)) is None,
    ensures
        parse_frame(raw) == Err::<ParameterSettings, ParseConfigurationError>(
            field_error(raw, f)->Some_0,
        ),
{
    assert(field_error(raw, 0) is None || f == 0);
    assert(field_error(raw, 1) is None || f == 1);
    assert(field_error(raw, 2) is None || f == 2);
    assert(field_error(raw, 3) is None || f == 3);
    assert(field_error(raw, 4) is None || f == 4);
    assert(field_error(raw, 5) is None || f == 5);
}

/// Encoding a valid configuration and reading the frame back gives the same
/// configuration.
pub proof fn lemma_encode_parse(p: ParameterSettings)
    requires
        p.wf(),
    ensures
        encode_frame(p).len() == 6,
        parse_frame(encode_frame(p)) == Ok::<ParameterSettings, ParseConfigurationError>(p),
{
    p.uart_parity.lemma_decode_bits();
    p.uart_baud_rate.lemma_decode_bits();
    p.air_data_rate.lemma_decode_bits();
    p.transmission_mode.lemma_decode_bits();
    p.io_drive_mode.lemma_decode_bits();
    p.wake_up_time.lemma_decode_bits();
    p.tx_power.lemma_decode_bits();
    let a = p.uart_parity.spec_bits();
    let b = p.uart_baud_rate.spec_bits();
    let c = p.air_data_rate.spec_bits();
    let s: u8 = (a << 6u8) | (b << 3u8) | c;
    assert(s >> 6u8 == a && (s >> 3u8) & 7u8 == b && s & 7u8 == c) by (bit_vector)
        requires
            a < 4,
            b < 8,
            c < 8,
            s == (a << 6u8) | (b << 3u8) | c,
    ;
    let t = p.transmission_mode.spec_bits();
    let i = p.io_drive_mode.spec_bits();
    let w = p.wake_up_time.spec_bits();
    let f: u8 = if p.fec { 1u8 } else { 0u8 };
    let x = p.tx_power.spec_bits();
    let o: u8 = (t << 7u8) | (i << 6u8) | (w << 3u8) | (f << 2u8) | x;
    assert(o >> 7u8 == t && (o >> 6u8) & 1u8 == i && (o >> 3u8) & 7u8 == w && (o >> 2u8) & 1u8
        == f && o & 3u8 == x) by (bit_vector)
        requires
            t < 2,
            i < 2,
            w < 8,
            f < 2,
            x < 4,
            o == (t << 7u8) | (i << 6u8) | (w << 3u8) | (f << 2u8) | x,
    ;
    let ad = p.address;
    let hi = (ad >> 8u16) as u8;
    let lo = (ad & 0xFFu16) as u8;
    assert(((hi as u16) << 8u16) | (lo as u16) == ad) by (bit_vector)
        requires
            hi == (ad >> 8u16) as u8,
            lo == (ad & 0xFFu16) as u8,
    ;
    let ch = p.channel;
    assert((ch & 0x1Fu8) & 0x1Fu8 == ch) by (bit_vector)
        requires
            ch <= 31,
    ;
    let raw = encode_frame(p);
    assert(sped(raw) == s);
    assert(option(raw) == o);
    let q = parse_frame(raw)->Ok_0;
    assert(q == p);
}

/// A configuration read from a frame is valid, and encoding it and reading
/// the result back gives it again.
pub proof fn lemma_parse_encode_parse(raw: Seq<u8>)
    requires
        raw.len() == 6,
        parse_frame(raw) is Ok,
    ensures
        parse_frame(raw)->Ok_0.wf(),
        parse_frame(encode_frame(parse_frame(raw)->Ok_0)) == parse_frame(raw),
{
    let c = raw[4];
    assert(c & 0x1Fu8 <= 31) by (bit_vector);
    lemma_encode_parse(parse_frame(raw)->Ok_0);
}

impl ParameterSettings {
    /// Every field holds a value the module can hold.
    pub open spec fn wf(self) -> bool {
        self.channel <= 31
    }

    /// Reads a configuration frame as the module sends it.
    pub fn parse(raw: [u8; 6]) -> (r: Result<Self, ParseConfigurationError>)
        ensures
            r == parse_frame(raw@),
            r is Ok ==> r->Ok_0.wf(),
    {
        let s = raw[3];
        let o = raw[5];
        if raw[0] != CONFIG_HEAD {
            return Err(ParseConfigurationError::InvalidHead(raw[0]));
        }
        let uart_parity = match UartParity::from_bits(s >> 6) {
            Some(v) => v,
            None => return Err(ParseConfigurationError::InvalidUartParity(s)),
        };
        let uart_baud_rate = match UartBaudRate::from_bits((s >> 3) & 7) {
            Some(v) => v,
            None => return Err(ParseConfigurationError::InvalidUartBaudRate(s)),
        };
        let air_data_rate = match AirDataRate::from_bits(s & 7) {
            Some(v) => v,
            None => return Err(ParseConfigurationError::InvalidAirDataRate(s)),
        };
        let transmission_mode = match TransmissionMode::from_bits(o >> 7) {
            Some(v) => v,
            None => return Err(ParseConfigurationError::InvalidTransmission(o)),
        };
        let wake_up_time = match WirelessWakeUpTime::from_bits((o >> 3) & 7) {
            Some(v) => v,
            None => return Err(ParseConfigurationError::InvalidWirelessWakeUpTime(o)),
        };
        let io_drive_mode = match IoDriveMode::from_bits((o >> 6) & 1) {
            Some(v) => v,
            None => return Err(ParseConfigurationError::InvalidIoDriveMode(o)),
        };
        let tx_power = match TxPower::from_bits(o & 3) {
            Some(v) => v,
            None => return Err(ParseConfigurationError::InvalidTxPower(o)),
        };
        let c = raw[4];
        let channel = c & 0x1F;
        assert(channel <= 31) by (bit_vector)
            requires
                channel == c & 0x1Fu8,
        ;
        Ok(
            ParameterSettings {
                address: ((raw[1] as u16) << 8) | (raw[2] as u16),
                channel,
                uart_parity,
                uart_baud_rate,
                air_data_rate,
                transmission_mode,
                io_drive_mode,
                wake_up_time,
                fec: (o >> 2) & 1 == 1,
                tx_power,
            },
        )
    }

    /// The configuration frame that describes this configuration.
    pub fn to_bytes(&self) -> (r: [u8; 6])
        ensures
            r@ == encode_frame(*self),
    {
        let fec: u8 = if self.fec {
            1
        } else {
            0
        };
        let r = [
            CONFIG_HEAD,
            (self.address >> 8) as u8,
            (self.address & 0xFF) as u8,
            (self.uart_parity.bits() << 6) | (self.uart_baud_rate.bits() << 3)
                | self.air_data_rate.bits(),
            self.channel & 0x1F,
            (self.transmission_mode.bits() << 7) | (self.io_drive_mode.bits() << 6) | (
            self.wake_up_time.bits() << 3) | (fec << 2) | self.tx_power.bits(),
        ];
        assert(r@ =~= encode_frame(*self));
        r
    }
}

} // verus!
