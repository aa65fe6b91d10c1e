use vstd::prelude::*;

verus! {

pub const NANOS_PER_SEC: u64 = 1_000_000_000;

pub const NANOS_PER_MILLI: u64 = 1_000_000;

/// A wait duration, counted in nanoseconds.
#[derive(Debug, Clone, Copy, PartialEq, Eq, Structural, Hash)]
pub struct Delay {
    pub nanos: u64,
}

impl Delay {
    pub fn from_nanos(nanos: u64) -> (r: Delay)
        ensures
            r.nanos == nanos,
    {
        Delay { nanos }
    }

    pub fn zero() -> (r: Delay)
        ensures
            r.nanos == 0,
    {
        Delay { nanos: 0 }
    }

    pub fn as_nanos(&self) -> (r: u64)
        ensures
            r == self.nanos,
    {
        self.nanos
    }

    /// The whole seconds of this delay.
    pub fn secs(&self) -> (r: u64)
        ensures
            r == self.nanos / NANOS_PER_SEC,
    {
        self.nanos / NANOS_PER_SEC
    }

    /// The nanoseconds left over after the whole seconds.
    pub fn subsec_nanos(&self) -> (r: u32)
        ensures
            r == self.nanos % NANOS_PER_SEC,
    {
        (self.nanos % NANOS_PER_SEC) as u32
    }
}

/// Conversion of a count of time units into a `Delay`.
pub trait ToDuration: Sized {
    /// The count that this value stands for.
    spec fn units(self) -> int;

    /// This many seconds.
    fn s(self) -> (r: Delay)
        requires
            self.units() * NANOS_PER_SEC <= u64::MAX,
        ensures
            r.nanos == self.units() * NANOS_PER_SEC,
    ;

    /// This many milliseconds.
    fn ms(self) -> (r: Delay)
        requires
            self.units() * NANOS_PER_MILLI <= u64::MAX,
        ensures
            r.nanos == self.units() * NANOS_PER_MILLI,
    ;

    /// This many nanoseconds.
    fn ns(self) -> (r: Delay)
        requires
            self.units() <= u64::MAX,
        ensures
            r.nanos == self.units(),
    ;
}

impl ToDuration for u64 {
    open spec fn units(self) -> int {
        self as int
    }

    fn s(self) -> (r: Delay) {
        Delay { nanos: self * NANOS_PER_SEC }
    }

    fn ms(self) -> (r: Delay) {
        Delay { nanos: self * NANOS_PER_MILLI }
    }

    fn ns(self) -> (r: Delay) {
        Delay { nanos: self }
    }
}

} // verus!
