//! Data structures shared with an external BLE link-layer stack.
//!
//! These mirror the stack's own types field for field so values cross the
//! interface without conversion, but carry only the accessors the kernel
//! needs. Times are microseconds in a `u32`, so an instant wraps after
//! about an hour; apart from the wraparound it is monotonic.

use vstd::prelude::*;

verus! {

use crate::time::{Frequency, Time};

/// Whether a device address is randomly generated or a registered LAN MAC
/// address.
#[derive(Clone, Copy, Debug, PartialEq, Eq, Structural)]
pub enum AddressKind {
    /// Publicly registered IEEE 802-2001 LAN MAC address.
    Public,
    /// Randomly generated address.
    Random,
}

/// A Bluetooth device address: six bytes plus their kind.
#[derive(Clone, Copy, Debug, PartialEq, Eq)]
pub struct DeviceAddress {
    /// The address bytes.
    pub bytes: [u8; 6],
    /// Whether the address is public or random.
    pub kind: AddressKind,
}

/// When the link layer's `update` method should run next.
#[derive(Clone, Copy, Debug, PartialEq, Eq)]
pub enum NextUpdate {
    /// Disable the timer; do not call `update`.
    Disable,
    /// Keep the previously configured time.
    Keep,
    /// Call `update` at the given time, which must not lie in the past.
    At(Instant),
}

/// A point in time relative to an unspecified epoch, in microseconds.
#[derive(Clone, Copy, Debug, PartialEq, Eq, Structural)]
pub struct Instant {
    microseconds: u32,
}

impl Instant {
    /// The raw microsecond count, visible to specifications.
    pub closed spec fn spec_micros(&self) -> u32 {
        self.microseconds
    }

    /// An instant from raw microseconds since the implementation-defined
    /// reference point.
    pub fn from_raw_micros(microseconds: u32) -> (r: Self)
        ensures
            r.spec_micros() == microseconds,
    {
        Instant { microseconds }
    }

    /// The raw microsecond count.
    pub fn raw_micros(&self) -> (r: u32)
        ensures
            r == self.spec_micros(),
    {
        self.microseconds
    }

    /// Convert an alarm's tick count to an instant: ticks over frequency is
    /// seconds, so the microsecond count is `raw * 1_000_000 / frequency`,
    /// multiplied before dividing for accuracy. The caller keeps the value
    /// inside the 32-bit microsecond range.
    pub fn from_alarm_time<A: Time>(raw: u32) -> (r: Self)
        requires
            raw as int * 1_000_000 / (A::Frequency::spec_frequency() as int) <= u32::MAX,
        ensures
            r.spec_micros() == raw as int * 1_000_000 / (A::Frequency::spec_frequency() as int),
    {
        let freq = A::Frequency::frequency();
        let micros_wide: u64 = (raw as u64 * 1_000_000u64) / (freq as u64);
        Instant { microseconds: micros_wide as u32 }
    }

    /// Convert this instant back to an alarm's tick count:
    /// `micros * frequency / 1_000_000`. The caller keeps the value inside
    /// the 32-bit tick range.
    pub fn to_alarm_time<A: Time>(&self, _alarm: &A) -> (r: u32)
        requires
            self.spec_micros() as int * (A::Frequency::spec_frequency() as int) / 1_000_000
                <= u32::MAX,
        ensures
            r == self.spec_micros() as int * (A::Frequency::spec_frequency() as int) / 1_000_000,
    {
        let freq = A::Frequency::frequency();
        let ticks_wide: u64 = (self.microseconds as u64 * freq as u64) / 1_000_000u64;
        ticks_wide as u32
    }
}

/// Converting a tick count to microseconds and back loses at most one
/// tick: both directions round down, and at tick rates of at most one
/// tick per microsecond the two roundings cancel to within a single
/// tick. This is why a tick count survives the round trip through
/// [`Instant::from_alarm_time`] and [`Instant::to_alarm_time`] almost
/// unchanged.
pub proof fn lemma_alarm_time_roundtrip(raw: u32, freq: u32)
    requires
        1 <= freq <= 1_000_000,
    ensures
        ({
            let micros = raw as int * 1_000_000 / (freq as int);
            let back = micros * (freq as int) / 1_000_000;
            raw - 1 <= back <= raw
        }),
{
    let f = freq as int;
    let m = raw as int * 1_000_000;
    let micros = m / f;
    let r1 = m % f;
    vstd::arithmetic::div_mod::lemma_fundamental_div_mod(m, f);
    vstd::arithmetic::div_mod::lemma_mod_bound(m, f);
    assert(micros * f == m - r1);
    vstd::arithmetic::div_mod::lemma_div_is_ordered(m - r1, m, 1_000_000);
    vstd::arithmetic::div_mod::lemma_fundamental_div_mod_converse_div(
        m,
        1_000_000,
        raw as int,
        0,
    );
    assert(m - r1 >= (raw as int - 1) * 1_000_000 + 1);
    vstd::arithmetic::div_mod::lemma_div_is_ordered(
        (raw as int - 1) * 1_000_000 + 1,
        m - r1,
        1_000_000,
    );
    vstd::arithmetic::div_mod::lemma_fundamental_div_mod_converse_div(
        (raw as int - 1) * 1_000_000 + 1,
        1_000_000,
        raw as int - 1,
        1,
    );
}

/// A span of time with microsecond resolution; at most about an hour.
#[derive(Clone, Copy, Debug, PartialEq, Eq, PartialOrd, Ord, Structural)]
pub struct Duration(u32);

impl Duration {
    /// The microsecond count, visible to specifications.
    pub closed spec fn spec_micros(&self) -> u32 {
        self.0
    }

    /// A duration of `micros` microseconds.
    pub fn from_micros(micros: u32) -> (r: Self)
        ensures
            r.spec_micros() == micros,
    {
        Duration(micros)
    }

    /// A duration of `millis` milliseconds.
    pub fn from_millis(millis: u16) -> (r: Self)
        ensures
            r.spec_micros() == millis * 1_000,
    {
        Duration(millis as u32 * 1_000)
    }

    /// A duration of `secs` seconds. Only durations up to the 32-bit
    /// microsecond range — about 4294 seconds — are representable.
    pub fn from_secs(secs: u16) -> (r: Self)
        requires
            secs * 1_000_000 <= u32::MAX,
        ensures
            r.spec_micros() == secs * 1_000_000,
    {
        Duration(secs as u32 * 1_000_000)
    }

    /// The number of whole seconds that fit in `self`.
    pub fn whole_secs(&self) -> (r: u32)
        ensures
            r == self.spec_micros() / 1_000_000,
    {
        self.0 / 1_000_000
    }

    /// The number of whole milliseconds that fit in `self`.
    pub fn whole_millis(&self) -> (r: u32)
        ensures
            r == self.spec_micros() / 1_000,
    {
        self.0 / 1_000
    }

    /// The number of microseconds represented by `self`.
    pub fn as_micros(&self) -> (r: u32)
        ensures
            r == self.spec_micros(),
    {
        self.0
    }
}

} // verus!
