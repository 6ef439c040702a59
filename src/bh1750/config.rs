use vstd::prelude::*;

verus! {

/// Settings a BH1750 is brought up with.
#[derive(Debug, Clone, Copy)]
pub struct Config {
    pub(crate) measurement_mode: MeasurementMode,
    pub(crate) measurement_time: u8,
}

/// Measurement time the sensor starts with, in its own units.
pub const DEFAULT_MEASUREMENT_TIME: u8 = 69;

impl Config {
    pub open(crate) spec fn spec_measurement_mode(&self) -> MeasurementMode {
        self.measurement_mode
    }

    pub open(crate) spec fn spec_measurement_time(&self) -> u8 {
        self.measurement_time
    }

    /// The same settings with `measurement_mode` in place.
    pub fn measurement_mode(self, measurement_mode: MeasurementMode) -> (r: Self)
        ensures
            r.spec_measurement_mode() == measurement_mode,
            r.spec_measurement_time() == self.spec_measurement_time(),
    {
        Config { measurement_mode, measurement_time: self.measurement_time }
    }

    /// The same settings with `measurement_time` in place; the value is
    /// checked when a sensor is brought up with it.
    pub fn measurement_time(self, measurement_time: u8) -> (r: Self)
        ensures
            r.spec_measurement_mode() == self.spec_measurement_mode(),
            r.spec_measurement_time() == measurement_time,
    {
        Config { measurement_mode: self.measurement_mode, measurement_time }
    }
}

impl Default for Config {
    fn default() -> (r: Self)
        ensures
            r.spec_measurement_mode() == MeasurementMode::ContinuouslyHighResolution,
            r.spec_measurement_time() == DEFAULT_MEASUREMENT_TIME,
    {
        Config {
            measurement_mode: MeasurementMode::default(),
            measurement_time: DEFAULT_MEASUREMENT_TIME,
        }
    }
}

/// How the sensor measures: continuously or once, at high resolution
/// (1 lx), high resolution 2 (0.5 lx) or low resolution (4 lx).
#[derive(Debug, Clone, Copy, PartialEq, Eq, Structural)]
pub enum MeasurementMode {
    ContinuouslyHighResolution,
    ContinuouslyHighResolution2,
    ContinuouslyLowResolution,
    OneTimeHighResolution,
    OneTimeHighResolution2,
    OneTimeLowResolution,
}

impl MeasurementMode {
    /// The instruction byte that selects this mode.
    pub open spec fn spec_opcode(self) -> u8 {
        match self {
            MeasurementMode::ContinuouslyHighResolution => 0b0001_0000,
            MeasurementMode::ContinuouslyHighResolution2 => 0b0001_0001,
            MeasurementMode::ContinuouslyLowResolution => 0b0001_0011,
            MeasurementMode::OneTimeHighResolution => 0b0010_0000,
            MeasurementMode::OneTimeHighResolution2 => 0b0010_0001,
            MeasurementMode::OneTimeLowResolution => 0b0010_0011,
        }
    }

    pub fn opcode(self) -> (r: u8)
        ensures
            r == self.spec_opcode(),
    {
        match self {
            MeasurementMode::ContinuouslyHighResolution => 0b0001_0000,
            MeasurementMode::ContinuouslyHighResolution2 => 0b0001_0001,
            MeasurementMode::ContinuouslyLowResolution => 0b0001_0011,
            MeasurementMode::OneTimeHighResolution => 0b0010_0000,
            MeasurementMode::OneTimeHighResolution2 => 0b0010_0001,
            MeasurementMode::OneTimeLowResolution => 0b0010_0011,
        }
    }
}

impl Default for MeasurementMode {
    fn default() -> (r: Self)
        ensures
            r == MeasurementMode::ContinuouslyHighResolution,
    {
        MeasurementMode::ContinuouslyHighResolution
    }
}

} // verus!
