use vstd::prelude::*;

verus! {

/// Log of write transfers on a bus: address, bytes, and whether it succeeded.
pub type TransferLog = Seq<(u8, Seq<u8>, bool)>;

/// Log of successful read transfers on a bus: address and bytes received.
pub type ReceiveLog = Seq<(u8, Seq<u8>)>;

/// A blocking I2C bus, as a controller sees it.
///
/// Its state is modelled by two logs: every write transfer, with whether it
/// succeeded, and every read transfer that succeeded, with what it brought.
pub trait I2cBus {
    type Error;

    /// Every write transfer so far: address, bytes, and whether it succeeded.
    spec fn writes(&self) -> TransferLog;

    /// Every read transfer that succeeded: address and the bytes received.
    spec fn reads(&self) -> ReceiveLog;

    /// Writes `bytes` to the device at `address`.
    fn write(&mut self, address: u8, bytes: &[u8]) -> (r: Result<(), Self::Error>)
        ensures
            final(self).reads() == old(self).reads(),
            final(self).writes() == old(self).writes().push((address, bytes@, r is Ok)),
    ;

    /// Fills `buffer` from the device at `address`.
    fn read(&mut self, address: u8, buffer: &mut [u8]) -> (r: Result<(), Self::Error>)
        ensures
            final(self).writes() == old(self).writes(),
            final(buffer)@.len() == old(buffer)@.len(),
            r is Ok ==> final(self).reads() == old(self).reads().push((address, final(buffer)@)),
            r is Err ==> final(self).reads() == old(self).reads(),
    ;
}

/// The write transfers made between two states of a bus.
pub open spec fn writes_since<I: I2cBus>(before: I, after: I) -> Seq<(u8, Seq<u8>, bool)> {
    after.writes().skip(before.writes().len() as int)
}

/// The read transfers made between two states of a bus.
pub open spec fn reads_since<I: I2cBus>(before: I, after: I) -> Seq<(u8, Seq<u8>)> {
    after.reads().skip(before.reads().len() as int)
}

} // verus!
