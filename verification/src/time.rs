//! Monotonic clock advanced by the timer interrupt, and the timestamps read
//! from it.

use vstd::prelude::*;

verus! {

/// Nanoseconds in one second.
pub const NANOS_PER_SEC: u64 = 1_000_000_000;

/// Nanoseconds that pass between two timer interrupts.
pub const PIT_RATE: u64 = 2_250_286;

/// A point in time: whole seconds and nanoseconds on top of them, counted
/// from boot.
#[derive(Clone, Copy, Debug, PartialEq, Eq, Structural)]
pub struct Timestamp {
    pub secs: u64,
    pub nanos: u32,
}

impl Timestamp {
    /// The time as one number of nanoseconds.
    pub open spec fn as_nanos(self) -> int {
        self.secs * 1_000_000_000 + self.nanos
    }

    pub fn new(secs: u64, nanos: u32) -> (t: Timestamp)
        ensures
            t.secs == secs,
            t.nanos == nanos,
    {
        Timestamp { secs, nanos }
    }

    /// The epoch: the moment of boot.
    pub fn zero() -> (t: Timestamp)
        ensures
            t.secs == 0,
            t.nanos == 0,
            t.as_nanos() == 0,
    {
        Timestamp { secs: 0, nanos: 0 }
    }

    pub fn from_millis(millis: u64) -> (t: Timestamp)
        ensures
            t.as_nanos() == millis * 1_000_000,
            t.nanos < NANOS_PER_SEC,
    {
        let rest: u64 = millis % 1000;
        let nanos: u64 = rest * 1_000_000;
        Timestamp { secs: millis / 1000, nanos: nanos as u32 }
    }

    /// Whether `self` lies at most `window` nanoseconds after `earlier`.
    /// A time before `earlier` counts as within the window.
    pub fn within(&self, earlier: &Timestamp, window: u64) -> (r: bool)
        ensures
            r == (self.as_nanos() - earlier.as_nanos() <= window),
    {
        let a: u128 = self.secs as u128 * 1_000_000_000 + self.nanos as u128;
        let b: u128 = earlier.secs as u128 * 1_000_000_000 + earlier.nanos as u128;
        a <= b + window as u128
    }
}

/// The clock offset: seconds and sub-second nanoseconds since boot.
#[derive(Clone, Copy, Debug, PartialEq, Eq, Structural)]
pub struct Clock {
    secs: u64,
    ticks: u64,
}

impl Clock {
    pub closed spec fn wf(&self) -> bool {
        self.ticks < NANOS_PER_SEC
    }

    pub closed spec fn secs(&self) -> u64 {
        self.secs
    }

    /// Nanoseconds since boot.
    pub closed spec fn total_nanos(&self) -> int {
        self.secs * 1_000_000_000 + self.ticks
    }

    pub fn new() -> (c: Clock)
        ensures
            c.wf(),
            c.total_nanos() == 0,
            c.secs() == 0,
    {
        Clock { secs: 0, ticks: 0 }
    }

    /// One timer interrupt: the clock moves on by `PIT_RATE` nanoseconds.
    pub fn tick(&mut self)
        requires
            old(self).wf(),
            old(self).secs() < u64::MAX,
        ensures
            final(self).wf(),
            final(self).total_nanos() == old(self).total_nanos() + PIT_RATE,
            old(self).secs() <= final(self).secs() <= old(self).secs() + 1,
    {
        let sum: u64 = self.ticks + PIT_RATE;
        self.ticks = sum % NANOS_PER_SEC;
        self.secs = self.secs + sum / NANOS_PER_SEC;
    }

    /// The current time.
    pub fn now(&self) -> (t: Timestamp)
        requires
            self.wf(),
        ensures
            t.as_nanos() == self.total_nanos(),
            t.secs == self.secs(),
            t.nanos < NANOS_PER_SEC,
    {
        Timestamp { secs: self.secs, nanos: self.ticks as u32 }
    }
}

} // verus!
