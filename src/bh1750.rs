//! Driver for the BH1750 ambient light sensor on an I2C bus.
use vstd::prelude::*;

pub mod bus;
pub mod config;
pub mod register;
pub mod result;

use core::marker::PhantomData;

use crate::bh1750::bus::{reads_since, writes_since, I2cBus};
use crate::bh1750::config::{Config, MeasurementMode};
use crate::bh1750::result::Error;

verus! {

/// Whether `t` is a measurement time the sensor takes.
pub open spec fn valid_time(t: u8) -> bool {
    31 <= t <= 254
}

/// The instruction that sets the high three bits of the measurement time.
pub open spec fn time_high_cmd(t: u8) -> u8 {
    0x40u8 | (t >> 5u8)
}

/// The instruction that sets the low five bits of the measurement time.
pub open spec fn time_low_cmd(t: u8) -> u8 {
    0x60u8 | (t & 0x1Fu8)
}

/// A one-byte write of `c` to `addr`, with its outcome.
pub open spec fn cmd(addr: u8, c: u8, ok: bool) -> (u8, Seq<u8>, bool) {
    (addr, seq![c], ok)
}

/// The light level, in lux, of a raw reading taken in `mode` with
/// measurement time `t`, as numerator and denominator: the reading divided
/// by 1.2 and, at high resolution, scaled by 69 / `t` (and halved at high
/// resolution 2).
pub open spec fn lux_fraction(mode: MeasurementMode, t: u8, raw: u16) -> (nat, nat) {
    match mode {
        MeasurementMode::ContinuouslyHighResolution | MeasurementMode::OneTimeHighResolution => (
            raw as nat * 690,
            12 * t as nat,
        ),
        MeasurementMode::ContinuouslyHighResolution2
        | MeasurementMode::OneTimeHighResolution2 => (raw as nat * 690, 24 * t as nat),
        MeasurementMode::ContinuouslyLowResolution | MeasurementMode::OneTimeLowResolution => (
            raw as nat * 10,
            12,
        ),
    }
}

/// A BH1750 at address `addr` on a bus of type `I`, with its settings and
/// its last reading.
pub struct Bh1750<I> {
    addr: u8,
    cfg: Config,
    raw_level: u16,
    _i2c: PhantomData<I>,
}

impl<I> Bh1750<I> {
    #[verifier::type_invariant]
    spec fn inv(self) -> bool {
        valid_time(self.cfg.measurement_time)
    }
}

impl<I: I2cBus> Bh1750<I> {
    pub closed spec fn spec_addr(&self) -> u8 {
        self.addr
    }

    pub closed spec fn spec_measurement_mode(&self) -> MeasurementMode {
        self.cfg.measurement_mode
    }

    pub closed spec fn spec_measurement_time(&self) -> u8 {
        self.cfg.measurement_time
    }

    /// The last raw reading, 0 before the first.
    pub closed spec fn spec_raw_level(&self) -> u16 {
        self.raw_level
    }

    /// Brings up the sensor at `addr` with the default settings.
    pub fn new(addr: u8, i2c: &mut I) -> (r: Result<Self, Error<I::Error>>)
        ensures
            Self::brought_up(
                addr,
                MeasurementMode::ContinuouslyHighResolution,
                69,
                *old(i2c),
                *final(i2c),
                r,
            ),
    {
        Self::with_configuration(addr, i2c, Config::default())
    }

    /// What bringing up a sensor at `addr` with mode `m` and time `t` gives,
    /// for each outcome of the three instruction writes it makes: the mode,
    /// then the two halves of the time, once the time has been checked.
    pub open spec fn brought_up(
        addr: u8,
        m: MeasurementMode,
        t: u8,
        before: I,
        after: I,
        r: Result<Self, Error<I::Error>>,
    ) -> bool {
        let w = writes_since(before, after);
        &&& after.reads() == before.reads()
        &&& after.writes().len() >= before.writes().len()
        &&& after.writes().subrange(0, before.writes().len() as int) == before.writes()
        &&& match r {
            Ok(b) => {
                &&& valid_time(t)
                &&& w == seq![
                    cmd(addr, m.spec_opcode(), true),
                    cmd(addr, time_high_cmd(t), true),
                    cmd(addr, time_low_cmd(t), true),
                ]
                &&& b.spec_addr() == addr
                &&& b.spec_measurement_mode() == m
                &&& b.spec_measurement_time() == t
                &&& b.spec_raw_level() == 0
            },
            Err(Error::InvalidMeasurementTime(v)) => {
                &&& v == t
                &&& !valid_time(t)
                &&& w == seq![cmd(addr, m.spec_opcode(), true)]
            },
            Err(Error::I2cError(_)) => {
                ||| w == seq![cmd(addr, m.spec_opcode(), false)]
                ||| valid_time(t) && w == seq![
                    cmd(addr, m.spec_opcode(), true),
                    cmd(addr, time_high_cmd(t), false),
                ]
                ||| valid_time(t) && w == seq![
                    cmd(addr, m.spec_opcode(), true),
                    cmd(addr, time_high_cmd(t), true),
                    cmd(addr, time_low_cmd(t), false),
                ]
            },
        }
    }

    /// Brings up the sensor at `addr` with `cfg`: selects its measurement
    /// mode, then checks and sets its measurement time.
    pub fn with_configuration(addr: u8, i2c: &mut I, cfg: Config) -> (r: Result<
        Self,
        Error<I::Error>,
    >)
        ensures
            Self::brought_up(
                addr,
                cfg.spec_measurement_mode(),
                cfg.spec_measurement_time(),
                *old(i2c),
                *final(i2c),
                r,
            ),
    {
        let ghost before = *i2c;
        let mode = cfg.measurement_mode;
        let t = cfg.measurement_time;
        let res = Self::write_register(addr, i2c, mode.opcode());
        assert(i2c.writes().subrange(0, before.writes().len() as int) =~= before.writes());
        assert(writes_since(before, *i2c) =~= seq![cmd(addr, mode.spec_opcode(), res is Ok)]);
        if let Err(e) = res {
            return Err(e);
        }
        let ghost middle = *i2c;
        let res = Self::write_time(addr, i2c, t);
        assert(i2c.writes().subrange(0, before.writes().len() as int) =~= before.writes());
        let ghost m = cmd(addr, mode.spec_opcode(), true);
        let ghost hi = cmd(addr, time_high_cmd(t), true);
        let ghost lo = cmd(addr, time_low_cmd(t), true);
        match res {
            Ok(()) => {
                assert(writes_since(middle, *i2c) =~= seq![hi, lo]);
                assert(writes_since(before, *i2c) =~= seq![m, hi, lo]);
            },
            Err(e) => {
                proof {
                    let high_failed = cmd(addr, time_high_cmd(t), false);
                    let low_failed = cmd(addr, time_low_cmd(t), false);
                    if i2c.writes().len() == middle.writes().len() {
                        assert(writes_since(middle, *i2c) =~= seq![]);
                        assert(writes_since(before, *i2c) =~= seq![m]);
                    } else if i2c.writes().len() == middle.writes().len() + 1 {
                        assert(writes_since(middle, *i2c) =~= seq![high_failed]);
                        assert(writes_since(before, *i2c) =~= seq![m, high_failed]);
                    } else {
                        assert(writes_since(middle, *i2c) =~= seq![hi, low_failed]);
                        assert(writes_since(before, *i2c) =~= seq![m, hi, low_failed]);
                    }
                }
                return Err(e);
            },
        }
        Ok(Bh1750 { addr, cfg, raw_level: 0, _i2c: PhantomData })
    }

    /// The measurement mode in use.
    pub fn measurement_mode(&self) -> (r: MeasurementMode)
        ensures
            r == self.spec_measurement_mode(),
    {
        self.cfg.measurement_mode
    }

    /// Selects `measurement_mode`; the setting is kept only when the write
    /// succeeds.
    pub fn set_measurement_mode(&mut self, i2c: &mut I, measurement_mode: MeasurementMode) -> (r:
        Result<(), Error<I::Error>>)
        ensures
            final(i2c).reads() == old(i2c).reads(),
            final(i2c).writes() == old(i2c).writes().push(
                cmd(old(self).spec_addr(), measurement_mode.spec_opcode(), r is Ok),
            ),
            r is Err ==> r->Err_0 is I2cError && *final(self) == *old(self),
            r is Ok ==> {
                &&& final(self).spec_measurement_mode() == measurement_mode
                &&& final(self).spec_addr() == old(self).spec_addr()
                &&& final(self).spec_measurement_time() == old(self).spec_measurement_time()
                &&& final(self).spec_raw_level() == old(self).spec_raw_level()
            },
    {
        proof {
            use_type_invariant(&*self);
        }
        Self::write_register(self.addr, i2c, measurement_mode.opcode())?;
        self.cfg.measurement_mode = measurement_mode;
        Ok(())
    }

    /// The measurement mode in use (the time itself is not reported).
    pub fn measurement_time(&self) -> (r: MeasurementMode)
        ensures
            r == self.spec_measurement_mode(),
    {
        self.cfg.measurement_mode
    }

    /// Checks `measurement_time` and sends it in two instructions; the
    /// setting is kept only when both writes succeed.
    pub fn set_measurement_time(&mut self, i2c: &mut I, measurement_time: u8) -> (r: Result<
        (),
        Error<I::Error>,
    >)
        ensures
            final(i2c).reads() == old(i2c).reads(),
            final(i2c).writes().len() >= old(i2c).writes().len(),
            final(i2c).writes().subrange(0, old(i2c).writes().len() as int) == old(i2c).writes(),
            r is Err ==> *final(self) == *old(self),
            !valid_time(measurement_time) ==> {
                &&& r == Err::<(), Error<I::Error>>(Error::InvalidMeasurementTime(measurement_time))
                &&& *final(i2c) == *old(i2c)
            },
            valid_time(measurement_time) ==> ({
                let w = writes_since(*old(i2c), *final(i2c));
                let a = old(self).spec_addr();
                match r {
                    Ok(()) => {
                        &&& w == seq![
                            cmd(a, time_high_cmd(measurement_time), true),
                            cmd(a, time_low_cmd(measurement_time), true),
                        ]
                        &&& final(self).spec_measurement_time() == measurement_time
                        &&& final(self).spec_addr() == a
                        &&& final(self).spec_measurement_mode() == old(self).spec_measurement_mode()
                        &&& final(self).spec_raw_level() == old(self).spec_raw_level()
                    },
                    Err(Error::I2cError(_)) => {
                        ||| w == seq![cmd(a, time_high_cmd(measurement_time), false)]
                        ||| w == seq![
                            cmd(a, time_high_cmd(measurement_time), true),
                            cmd(a, time_low_cmd(measurement_time), false),
                        ]
                    },
                    Err(_) => false,
                }
            }),
    {
        proof {
            use_type_invariant(&*self);
        }
        let ghost before = *i2c;
        let res = Self::write_time(self.addr, i2c, measurement_time);
        assert(i2c.writes().subrange(0, before.writes().len() as int) =~= before.writes());
        assert(writes_since(before, *i2c) =~= seq![] || writes_since(before, *i2c) =~= seq![
            cmd(self.addr, time_high_cmd(measurement_time), false),
        ] || writes_since(before, *i2c) =~= seq![
            cmd(self.addr, time_high_cmd(measurement_time), true),
            cmd(self.addr, time_low_cmd(measurement_time), false),
        ] || writes_since(before, *i2c) =~= seq![
            cmd(self.addr, time_high_cmd(measurement_time), true),
            cmd(self.addr, time_low_cmd(measurement_time), true),
        ]);
        if let Err(e) = res {
            return Err(e);
        }
        self.cfg.measurement_time = measurement_time;
        Ok(())
    }

    /// The last raw reading, 0 before the first.
    pub fn raw_light_level(&self) -> (r: u16)
        ensures
            r == self.spec_raw_level(),
    {
        self.raw_level
    }

    /// The light level of the last reading, in lux, as numerator and
    /// denominator.
    pub fn light_level_fraction(&self) -> (r: (u32, u32))
        ensures
            (r.0 as nat, r.1 as nat) == lux_fraction(
                self.spec_measurement_mode(),
                self.spec_measurement_time(),
                self.spec_raw_level(),
            ),
            r.1 > 0,
    {
        proof {
            use_type_invariant(self);
        }
        let raw = self.raw_level as u32;
        let t = self.cfg.measurement_time as u32;
        match self.cfg.measurement_mode {
            MeasurementMode::ContinuouslyHighResolution | MeasurementMode::OneTimeHighResolution => (
                raw * 690,
                12 * t,
            ),
            MeasurementMode::ContinuouslyHighResolution2
            | MeasurementMode::OneTimeHighResolution2 => (raw * 690, 24 * t),
            MeasurementMode::ContinuouslyLowResolution | MeasurementMode::OneTimeLowResolution => (
                raw * 10,
                12,
            ),
        }
    }

    /// Takes a reading: sends the measurement mode's instruction, then reads
    /// two bytes, high byte first. The reading is kept only when both
    /// transfers succeed.
    pub fn read(&mut self, i2c: &mut I) -> (r: Result<(), Error<I::Error>>)
        ensures
            ({
                let a = old(self).spec_addr();
                let op = old(self).spec_measurement_mode().spec_opcode();
                match r {
                    Ok(()) => {
                        let got = final(i2c).reads().last();
                        &&& final(i2c).writes() == old(i2c).writes().push(cmd(a, op, true))
                        &&& final(i2c).reads().len() == old(i2c).reads().len() + 1
                        &&& final(i2c).reads().drop_last() == old(i2c).reads()
                        &&& got.0 == a
                        &&& got.1.len() == 2
                        &&& final(self).spec_raw_level() == got.1[0] as nat * 256 + got.1[1] as nat
                        &&& final(self).spec_addr() == a
                        &&& final(self).spec_measurement_mode() == old(self).spec_measurement_mode()
                        &&& final(self).spec_measurement_time() == old(self).spec_measurement_time()
                    },
                    Err(Error::I2cError(_)) => {
                        &&& *final(self) == *old(self)
                        &&& final(i2c).reads() == old(i2c).reads()
                        &&& {
                            ||| final(i2c).writes() == old(i2c).writes().push(cmd(a, op, false))
                            ||| final(i2c).writes() == old(i2c).writes().push(cmd(a, op, true))
                        }
                    },
                    Err(_) => false,
                }
            }),
    {
        proof {
            use_type_invariant(&*self);
        }
        let mut buf = [0u8; 2];
        Self::read_register(self.addr, i2c, self.cfg.measurement_mode.opcode(), &mut buf)?;
        let raw = (buf[0] as u16) * 256 + (buf[1] as u16);
        self.raw_level = raw;
        Ok(())
    }

    /// Writes the instruction `reg`, then fills `buf` from the sensor.
    fn read_register(addr: u8, i2c: &mut I, reg: u8, buf: &mut [u8; 2]) -> (r: Result<
        (),
        Error<I::Error>,
    >)
        ensures
            final(buf)@.len() == 2,
            match r {
                Ok(()) => {
                    &&& final(i2c).writes() == old(i2c).writes().push(cmd(addr, reg, true))
                    &&& final(i2c).reads() == old(i2c).reads().push((addr, final(buf)@))
                },
                Err(Error::I2cError(_)) => {
                    &&& final(i2c).reads() == old(i2c).reads()
                    &&& {
                        ||| final(i2c).writes() == old(i2c).writes().push(cmd(addr, reg, false))
                        ||| final(i2c).writes() == old(i2c).writes().push(cmd(addr, reg, true))
                    }
                },
                Err(_) => false,
            },
    {
        Self::write_register(addr, i2c, reg)?;
        let res = i2c.read(addr, buf);
        match res {
            Ok(()) => Ok(()),
            Err(e) => Err(Error::I2cError(e)),
        }
    }

    /// Checks `t` and sends it in two instructions, stopping at the first
    /// write that fails.
    fn write_time(addr: u8, i2c: &mut I, t: u8) -> (r: Result<(), Error<I::Error>>)
        ensures
            final(i2c).reads() == old(i2c).reads(),
            !valid_time(t) ==> r == Err::<(), Error<I::Error>>(Error::InvalidMeasurementTime(t))
                && *final(i2c) == *old(i2c),
            valid_time(t) ==> match r {
                Ok(()) => final(i2c).writes() == old(i2c).writes().push(
                    cmd(addr, time_high_cmd(t), true),
                ).push(cmd(addr, time_low_cmd(t), true)),
                Err(Error::I2cError(_)) => {
                    ||| final(i2c).writes() == old(i2c).writes().push(
                        cmd(addr, time_high_cmd(t), false),
                    )
                    ||| final(i2c).writes() == old(i2c).writes().push(
                        cmd(addr, time_high_cmd(t), true),
                    ).push(cmd(addr, time_low_cmd(t), false))
                },
                Err(_) => false,
            },
    {
        if t < 31 || t > 254 {
            return Err(Error::InvalidMeasurementTime(t));
        }
        Self::write_register(addr, i2c, 0x40 | (t >> 5))?;
        Self::write_register(addr, i2c, 0x60 | (t & 0x1F))?;
        Ok(())
    }

    /// Writes the one-byte instruction `reg` to the sensor.
    fn write_register(addr: u8, i2c: &mut I, reg: u8) -> (r: Result<(), Error<I::Error>>)
        ensures
            final(i2c).reads() == old(i2c).reads(),
            final(i2c).writes() == old(i2c).writes().push(cmd(addr, reg, r is Ok)),
            r is Err ==> r->Err_0 is I2cError,
    {
        let bytes = [reg];
        assert(bytes@ =~= seq![reg]);
        match i2c.write(addr, bytes.as_slice()) {
            Ok(()) => Ok(()),
            Err(e) => Err(Error::I2cError(e)),
        }
    }
}

} // verus!
