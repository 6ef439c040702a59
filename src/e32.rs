//! Driver for the E32 radio module: mode selection through two GPIO lines,
//! command exchange and data transmission over a serial channel.
use vstd::prelude::*;

pub mod config;
pub mod frame;
pub mod op;
pub mod port;
pub mod result;

use core::marker::PhantomData;

use crate::e32::config::{lemma_head_checked_first, parse_frame, ParameterSettings, CONFIG_HEAD};
use crate::e32::frame::{fits, frame_bytes, Frame};
use crate::e32::op::{OperationCode, OperationMode};
use crate::e32::port::{
    only_read, only_wrote, reads_since, send_all, sent_all, sent_until_failure, writes_since,
    OutputPin, SerialPort,
};
use crate::e32::result::{Error, ParseConfigurationError};

verus! {

/// UART rate, in baud, at which the module takes mode changes and commands.
pub const COMMAND_BAUD_RATE: u16 = 9600;

/// What reading a configuration frame returns, given the bytes `got` that
/// the channel delivered meanwhile: the checked frame once six bytes came,
/// the channel's error if it failed before.
pub open spec fn config_read_outcome<S: SerialPort>(
    got: Seq<u8>,
    r: Result<ParameterSettings, Error<S::Error>>,
) -> bool {
    match r {
        Ok(p) => got.len() == 6 && parse_frame(got) == Ok::<
            ParameterSettings,
            ParseConfigurationError,
        >(p),
        Err(Error::ParseConfigurationError(e)) => got.len() == 6 && parse_frame(got) == Err::<
            ParameterSettings,
            ParseConfigurationError,
        >(e),
        Err(Error::SerialError(_)) => got.len() < 6,
        Err(_) => false,
    }
}

/// Once six bytes have come and the first is not the head byte, the read
/// reports the head, and nothing else.
pub proof fn lemma_bad_head_read<S: SerialPort>(
    got: Seq<u8>,
    r: Result<ParameterSettings, Error<S::Error>>,
)
    requires
        got.len() == 6,
        got[0] != CONFIG_HEAD,
        config_read_outcome::<S>(got, r),
    ensures
        r == Err::<ParameterSettings, Error<S::Error>>(
            Error::ParseConfigurationError(ParseConfigurationError::InvalidHead(got[0])),
        ),
{
    lemma_head_checked_first(got);
}

/// Driver state for one E32 module on a channel of type `S`.
///
/// The driver keeps the module's last known settings; it borrows the channel
/// and the mode lines for the length of each call only.
#[derive(Debug)]
pub struct E32<S> {
    air_data_rate: u8,
    uart_data_rate: u16,
    parity_bit: u8,
    speed: u8,
    _serial: PhantomData<S>,
}

impl<S: SerialPort> E32<S> {
    pub closed spec fn spec_air_data_rate(&self) -> u8 {
        self.air_data_rate
    }

    pub closed spec fn spec_uart_data_rate(&self) -> u16 {
        self.uart_data_rate
    }

    pub closed spec fn spec_parity_bit(&self) -> u8 {
        self.parity_bit
    }

    pub closed spec fn spec_speed(&self) -> u8 {
        self.speed
    }

    /// A driver whose settings are all zero.
    pub fn new() -> (r: Self)
        ensures
            r.spec_air_data_rate() == 0,
            r.spec_uart_data_rate() == 0,
            r.spec_parity_bit() == 0,
            r.spec_speed() == 0,
    {
        E32 { air_data_rate: 0, uart_data_rate: 0, parity_bit: 0, speed: 0, _serial: PhantomData }
    }

    /// The UART rate the driver takes the module to run at.
    pub fn uart_data_rate(&self) -> (r: u16)
        ensures
            r == self.spec_uart_data_rate(),
    {
        self.uart_data_rate
    }

    /// Records the UART rate the module runs at; the other settings stay.
    pub fn set_uart_data_rate(&mut self, rate: u16)
        ensures
            final(self).spec_uart_data_rate() == rate,
            final(self).spec_air_data_rate() == old(self).spec_air_data_rate(),
            final(self).spec_parity_bit() == old(self).spec_parity_bit(),
            final(self).spec_speed() == old(self).spec_speed(),
    {
        self.uart_data_rate = rate;
    }

    /// Drives the mode lines to select `op_mode`.
    ///
    /// Refused with `InvalidBaudRate` unless the UART rate is 9600 baud, and
    /// then no line is touched. A line that fails to take its level does not
    /// fail the call.
    pub fn set_mode<M0: OutputPin, M1: OutputPin>(
        &self,
        op_mode: OperationMode,
        m0_pin: &mut M0,
        m1_pin: &mut M1,
    ) -> (r: Result<(), Error<S::Error>>)
        ensures
            self.spec_uart_data_rate() != COMMAND_BAUD_RATE ==> {
                &&& r == Err::<(), Error<S::Error>>(
                    Error::InvalidBaudRate(self.spec_uart_data_rate()),
                )
                &&& *final(m0_pin) == *old(m0_pin)
                &&& *final(m1_pin) == *old(m1_pin)
            },
            self.spec_uart_data_rate() == COMMAND_BAUD_RATE ==> {
                &&& r is Ok
                &&& final(m0_pin).commanded() == old(m0_pin).commanded().push(op_mode.levels().0)
                &&& final(m1_pin).commanded() == old(m1_pin).commanded().push(op_mode.levels().1)
            },
    {
        if self.uart_data_rate != COMMAND_BAUD_RATE {
            return Err(Error::InvalidBaudRate(self.uart_data_rate));
        }
        let (m0_high, m1_high) = op_mode.pin_levels();
        let _ = if m0_high {
            m0_pin.set_high()
        } else {
            m0_pin.set_low()
        };
        let _ = if m1_high {
            m1_pin.set_high()
        } else {
            m1_pin.set_low()
        };
        Ok(())
    }

    /// Sends the byte of `op_code` three times, stopping at the first write
    /// the channel refuses.
    pub fn write_op(&self, serial: &mut S, op_code: OperationCode) -> (r: Result<
        (),
        Error<S::Error>,
    >)
        ensures
            only_wrote(*old(serial), *final(serial)),
            r is Ok ==> sent_all(
                writes_since(*old(serial), *final(serial)),
                seq![op_code.spec_code(), op_code.spec_code(), op_code.spec_code()],
            ),
            r is Err ==> r->Err_0 is SerialError && sent_until_failure(
                writes_since(*old(serial), *final(serial)),
                seq![op_code.spec_code(), op_code.spec_code(), op_code.spec_code()],
            ),
    {
        let code = op_code.code();
        let bytes = [code, code, code];
        assert(bytes@ =~= seq![code, code, code]);
        match send_all(serial, bytes.as_slice()) {
            Ok(()) => Ok(()),
            Err(e) => Err(Error::SerialError(e)),
        }
    }

    /// Puts the module to sleep and asks it for its configuration; the
    /// answer is read by [`E32::read_cfg_callback`].
    pub fn read_cfg<M0: OutputPin, M1: OutputPin>(
        &mut self,
        serial: &mut S,
        m0_pin: &mut M0,
        m1_pin: &mut M1,
    ) -> (r: Result<(), Error<S::Error>>)
        ensures
            *final(self) == *old(self),
            old(self).spec_uart_data_rate() != COMMAND_BAUD_RATE ==> {
                &&& r == Err::<(), Error<S::Error>>(
                    Error::InvalidBaudRate(old(self).spec_uart_data_rate()),
                )
                &&& *final(serial) == *old(serial)
                &&& *final(m0_pin) == *old(m0_pin)
                &&& *final(m1_pin) == *old(m1_pin)
            },
            old(self).spec_uart_data_rate() == COMMAND_BAUD_RATE ==> {
                let code = OperationCode::ReadCfg.spec_code();
                &&& final(m0_pin).commanded() == old(m0_pin).commanded().push(true)
                &&& final(m1_pin).commanded() == old(m1_pin).commanded().push(true)
                &&& only_wrote(*old(serial), *final(serial))
                &&& r is Ok ==> sent_all(
                    writes_since(*old(serial), *final(serial)),
                    seq![code, code, code],
                )
                &&& r is Err ==> r->Err_0 is SerialError && sent_until_failure(
                    writes_since(*old(serial), *final(serial)),
                    seq![code, code, code],
                )
            },
    {
        self.set_mode(OperationMode::Sleep, m0_pin, m1_pin)?;
        self.write_op(serial, OperationCode::ReadCfg)
    }

    /// Reads the six-byte configuration frame the module sends after
    /// [`E32::read_cfg`] and checks it.
    ///
    /// Stops at the first read the channel fails. The driver's own settings
    /// are left as they were, whatever the frame holds.
    pub fn read_cfg_callback(&mut self, serial: &mut S) -> (r: Result<
        ParameterSettings,
        Error<S::Error>,
    >)
        ensures
            *final(self) == *old(self),
            only_read(*old(serial), *final(serial)),
            config_read_outcome::<S>(reads_since(*old(serial), *final(serial)), r),
    {
        let mut buf = [0u8; 6];
        let mut i: usize = 0;
        let ghost start = serial.reads().len() as int;
        assert(serial.reads().subrange(0, start) =~= serial.reads());
        assert(serial.reads().skip(start) =~= buf@.take(0));
        while i < 6
            invariant
                0 <= i <= 6,
                buf@.len() == 6,
                start == old(serial).reads().len(),
                only_read(*old(serial), *serial),
                serial.reads().len() == start + i,
                serial.reads().skip(start) =~= buf@.take(i as int),
            decreases 6 - i,
        {
            let ghost prev = serial.reads();
            match serial.read_byte() {
                Ok(v) => {
                    let ghost before = buf@;
                    buf[i] = v;
                    assert(serial.reads().skip(start) =~= prev.skip(start).push(v));
                    assert(buf@.take(i as int) =~= before.take(i as int));
                    assert(buf@.take(i + 1) =~= buf@.take(i as int).push(v));
                    assert(serial.reads().subrange(0, start) =~= prev.subrange(0, start));
                    i = i + 1;
                },
                Err(e) => {
                    return Err(Error::SerialError(e));
                },
            }
        }
        assert(buf@.take(6) =~= buf@);
        match ParameterSettings::parse(buf) {
            Ok(v) => Ok(v),
            Err(e) => Err(Error::ParseConfigurationError(e)),
        }
    }

    /// Selects normal mode for a configuration write.
    ///
    /// The configuration itself is not sent: the call changes the mode only,
    /// and nothing is written to the channel.
    pub fn write_cfg<M0: OutputPin, M1: OutputPin>(
        &mut self,
        serial: &mut S,
        cfg: ParameterSettings,
        m0_pin: &mut M0,
        m1_pin: &mut M1,
    ) -> (r: Result<(), Error<S::Error>>)
        ensures
            *final(self) == *old(self),
            *final(serial) == *old(serial),
            old(self).spec_uart_data_rate() != COMMAND_BAUD_RATE ==> {
                &&& r == Err::<(), Error<S::Error>>(
                    Error::InvalidBaudRate(old(self).spec_uart_data_rate()),
                )
                &&& *final(m0_pin) == *old(m0_pin)
                &&& *final(m1_pin) == *old(m1_pin)
            },
            old(self).spec_uart_data_rate() == COMMAND_BAUD_RATE ==> {
                &&& r is Ok
                &&& final(m0_pin).commanded() == old(m0_pin).commanded().push(false)
                &&& final(m1_pin).commanded() == old(m1_pin).commanded().push(false)
            },
    {
        self.set_mode(OperationMode::Normal, m0_pin, m1_pin)?;
        Ok(())
    }

    /// Reads one byte from the channel.
    pub fn read(&mut self, serial: &mut S) -> (r: Result<u8, Error<S::Error>>)
        ensures
            *final(self) == *old(self),
            final(serial).writes() == old(serial).writes(),
            match r {
                Ok(v) => final(serial).reads() == old(serial).reads().push(v),
                Err(Error::SerialError(_)) => final(serial).reads() == old(serial).reads(),
                Err(_) => false,
            },
    {
        match serial.read_byte() {
            Ok(v) => Ok(v),
            Err(e) => Err(Error::SerialError(e)),
        }
    }

    /// Sends `data` to `addr` on `channel` in a frame of at most `N` bytes.
    ///
    /// Refused with `InvalidWriteSize(N)`, before anything is written, when
    /// the payload does not fit after the 3-byte header. Otherwise the frame
    /// is written byte by byte and the first byte the channel refuses ends
    /// the call; bytes already sent stay sent.
    pub fn write<const N: usize>(
        &mut self,
        serial: &mut S,
        data: &[u8],
        addr: u16,
        channel: u8,
    ) -> (r: Result<(), Error<S::Error>>)
        ensures
            *final(self) == *old(self),
            !fits(data@.len(), N as nat) ==> {
                &&& r == Err::<(), Error<S::Error>>(Error::InvalidWriteSize(N))
                &&& *final(serial) == *old(serial)
            },
            fits(data@.len(), N as nat) ==> {
                &&& only_wrote(*old(serial), *final(serial))
                &&& r is Ok ==> sent_all(
                    writes_since(*old(serial), *final(serial)),
                    frame_bytes(data@, addr, channel),
                )
                &&& r is Err ==> r->Err_0 is SerialError && sent_until_failure(
                    writes_since(*old(serial), *final(serial)),
                    frame_bytes(data@, addr, channel),
                )
            },
    {
        let frame = match Frame::<N>::build(data, addr, channel) {
            Some(f) => f,
            None => return Err(Error::InvalidWriteSize(N)),
        };
        match send_all(serial, frame.as_slice()) {
            Ok(()) => Ok(()),
            Err(e) => Err(Error::SerialError(e)),
        }
    }
}

} // verus!
