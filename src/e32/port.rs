use vstd::prelude::*;

verus! {

/// Log of writes to a channel: each byte offered, and whether it was taken.
pub type WriteLog = Seq<(u8, bool)>;

/// Log of the bytes a channel delivered.
pub type ReadLog = Seq<u8>;

/// Log of the levels commanded on a line; `true` stands for high.
pub type LevelLog = Seq<bool>;

/// A blocking byte channel to the module (a UART).
///
/// Its state is modelled by two logs: every byte offered for writing, with
/// whether the channel accepted it, and every byte the channel delivered.
pub trait SerialPort {
    type Error;

    /// Every write so far: the byte and whether the channel accepted it.
    spec fn writes(&self) -> WriteLog;

    /// Every byte delivered by a read so far.
    spec fn reads(&self) -> ReadLog;

    /// Blocks until a byte arrives or the channel fails.
    fn read_byte(&mut self) -> (r: Result<u8, Self::Error>)
        ensures
            final(self).writes() == old(self).writes(),
            match r {
                Ok(v) => final(self).reads() == old(self).reads().push(v),
                Err(_) => final(self).reads() == old(self).reads(),
            },
    ;

    /// Blocks until the channel has taken `b` or has failed.
    fn write_byte(&mut self, b: u8) -> (r: Result<(), Self::Error>)
        ensures
            final(self).reads() == old(self).reads(),
            final(self).writes() == old(self).writes().push((b, r is Ok)),
    ;
}

/// A digital output line.
pub trait OutputPin {
    type Error;

    /// Every level commanded so far; `true` stands for high.
    spec fn commanded(&self) -> LevelLog;

    fn set_low(&mut self) -> (r: Result<(), Self::Error>)
        ensures
            final(self).commanded() == old(self).commanded().push(false),
    ;

    fn set_high(&mut self) -> (r: Result<(), Self::Error>)
        ensures
            final(self).commanded() == old(self).commanded().push(true),
    ;
}

/// `log` records that every byte of `bytes` was offered in order and
/// accepted.
pub open spec fn sent_all(log: Seq<(u8, bool)>, bytes: Seq<u8>) -> bool {
    &&& log.len() == bytes.len()
    &&& forall|i: int| 0 <= i < log.len() ==> #[trigger] log[i] == (bytes[i], true)
}

/// `log` records that the bytes of `bytes` were offered in order, each
/// accepted, until one was refused, after which nothing more was offered.
pub open spec fn sent_until_failure(log: Seq<(u8, bool)>, bytes: Seq<u8>) -> bool {
    &&& 0 < log.len() <= bytes.len()
    &&& forall|i: int| 0 <= i < log.len() ==> (#[trigger] log[i]).0 == bytes[i]
    &&& forall|i: int| 0 <= i < log.len() - 1 ==> (#[trigger] log[i]).1
    &&& !log.last().1
}

/// The bytes written to a channel between two of its states.
pub open spec fn writes_since<S: SerialPort>(before: S, after: S) -> Seq<(u8, bool)> {
    after.writes().skip(before.writes().len() as int)
}

/// The bytes read from a channel between two of its states.
pub open spec fn reads_since<S: SerialPort>(before: S, after: S) -> Seq<u8> {
    after.reads().skip(before.reads().len() as int)
}

/// `after` is `before` with more writes appended and nothing read.
pub open spec fn only_wrote<S: SerialPort>(before: S, after: S) -> bool {
    &&& after.reads() == before.reads()
    &&& after.writes().len() >= before.writes().len()
    &&& after.writes().subrange(0, before.writes().len() as int) == before.writes()
}

/// `after` is `before` with more reads appended and nothing written.
pub open spec fn only_read<S: SerialPort>(before: S, after: S) -> bool {
    &&& after.writes() == before.writes()
    &&& after.reads().len() >= before.reads().len()
    &&& after.reads().subrange(0, before.reads().len() as int) == before.reads()
}

/// Offers the bytes of `bytes` to `serial` one by one and stops at the first
/// one refused.
pub fn send_all<S: SerialPort>(serial: &mut S, bytes: &[u8]) -> (r: Result<(), S::Error>)
    ensures
        only_wrote(*old(serial), *final(serial)),
        r is Ok ==> sent_all(writes_since(*old(serial), *final(serial)), bytes@),
        r is Err ==> sent_until_failure(writes_since(*old(serial), *final(serial)), bytes@),
{
    let ghost start = serial.writes().len() as int;
    let mut i: usize = 0;
    assert(serial.writes().subrange(0, start) =~= serial.writes());
    assert(serial.writes().skip(start) =~= Seq::<(u8, bool)>::empty());
    while i < bytes.len()
        invariant
            0 <= i <= bytes@.len(),
            serial.reads() == old(serial).reads(),
            start == old(serial).writes().len(),
            serial.writes().len() == start + i,
            serial.writes().subrange(0, start) == old(serial).writes(),
            sent_all(serial.writes().skip(start), bytes@.take(i as int)),
        decreases bytes@.len() - i,
    {
        let ghost before = serial.writes();
        let res = serial.write_byte(bytes[i]);
        proof {
            assert(serial.writes().skip(start) =~= before.skip(start).push((bytes@[i as int], res is Ok)));
            assert(serial.writes().subrange(0, start) =~= before.subrange(0, start));
        }
        match res {
            Ok(()) => {
                assert(bytes@.take(i + 1) =~= bytes@.take(i as int).push(bytes@[i as int]));
                i = i + 1;
            },
            Err(e) => {
                return Err(e);
            },
        }
    }
    Ok(())
}

} // verus!
