//! Time interface: tick counters and their frequencies.
//!
//! A hardware alarm counts ticks at a fixed, statically known frequency.
//! Boards pick the frequency by type, so conversions between ticks and wall
//! time can be checked against the frequency at verification time.

use vstd::prelude::*;

verus! {

/// A statically known tick rate, in ticks per second.
pub trait Frequency {
    /// The rate, as a specification-level value.
    spec fn spec_frequency() -> u32;

    /// The rate in ticks per second; always positive.
    fn frequency() -> (r: u32)
        ensures
            r == Self::spec_frequency(),
            r >= 1,
    ;
}

/// 32.768 kHz, the usual low-power real-time-clock crystal rate.
pub struct Freq32KHz;

impl Frequency for Freq32KHz {
    open spec fn spec_frequency() -> u32 {
        32768
    }

    fn frequency() -> u32 {
        32768
    }
}

/// 1 kHz: one tick per millisecond.
pub struct Freq1KHz;

impl Frequency for Freq1KHz {
    open spec fn spec_frequency() -> u32 {
        1000
    }

    fn frequency() -> u32 {
        1000
    }
}

/// A 32-bit tick count, wrapping on overflow.
#[derive(Clone, Copy, Debug, PartialEq, Eq, Structural)]
pub struct Ticks32 {
    /// The raw counter value.
    pub ticks: u32,
}

impl Ticks32 {
    /// Wrap a raw counter value.
    pub fn from_raw(ticks: u32) -> (r: Ticks32)
        ensures
            r.ticks == ticks,
    {
        Ticks32 { ticks }
    }

    /// The raw counter value as a machine word.
    pub fn into_usize(&self) -> (r: usize)
        ensures
            r == self.ticks,
    {
        self.ticks as usize
    }
}

/// A source of the current time, counting [`Ticks32`] at the associated
/// frequency. Hardware alarms implement this; the kernel and capsules only
/// consume it.
pub trait Time {
    /// The tick rate of this source.
    type Frequency: Frequency;

    /// The representation of a point in time.
    type Ticks;

    /// The current tick count.
    fn now(&self) -> Self::Ticks;
}

} // verus!
