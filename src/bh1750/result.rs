use vstd::prelude::*;

verus! {

/// What a BH1750 operation can fail with; `E` is the bus's error.
#[derive(Debug)]
pub enum Error<E> {
    /// The bus failed a transfer.
    I2cError(E),
    /// A measurement time outside 31 to 254 was asked for.
    InvalidMeasurementTime(u8),
}

} // verus!
