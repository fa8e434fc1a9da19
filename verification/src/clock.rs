//! The clock source: elapsed milliseconds and their reading as
//! hours, minutes, seconds and milliseconds.

use std::time::Duration;
use vstd::arithmetic::div_mod::lemma_div_denominator;
use vstd::prelude::*;

verus! {

/// An elapsed time as clock fields.
///
/// The fields are plain numbers: a reading taken from the clock keeps each
/// within its range (see [`Time::is_clock_reading`]), a time that came from
/// stored data may hold anything.
#[derive(Clone, Copy, Debug, PartialEq, Eq, Structural)]
pub struct Time {
    pub h: i32,
    pub m: i32,
    pub s: i32,
    pub ms: i32,
}

impl Time {
    /// The time with every field zero.
    pub open spec fn zero_spec() -> Time {
        Time { h: 0, m: 0, s: 0, ms: 0 }
    }

    /// Every field lies within its range on a 24-hour clock.
    pub open spec fn is_clock_reading(self) -> bool {
        &&& 0 <= self.h < 24
        &&& 0 <= self.m < 60
        &&& 0 <= self.s < 60
        &&& 0 <= self.ms < 1000
    }

    /// The milliseconds that the fields add up to.
    pub open spec fn total_millis(self) -> int {
        self.h * 3_600_000 + self.m * 60_000 + self.s * 1_000 + self.ms
    }

    /// The time with every field zero.
    #[verifier::when_used_as_spec(zero_spec)]
    pub fn zero() -> (t: Time)
        ensures
            t == Time::zero_spec(),
    {
        Time { h: 0, m: 0, s: 0, ms: 0 }
    }

    /// The milliseconds that the fields add up to. No field is required to
    /// be in range, and the sum of four `i32` fields always fits.
    pub fn to_millis(&self) -> (total: i64)
        ensures
            total == self.total_millis(),
    {
        let h: i64 = self.h as i64;
        let m: i64 = self.m as i64;
        let s: i64 = self.s as i64;
        let ms: i64 = self.ms as i64;
        h * 3_600_000 + m * 60_000 + s * 1_000 + ms
    }
}

/// The clock fields of a count of elapsed milliseconds: hours wrap at 24,
/// minutes and seconds at 60, milliseconds at 1000.
pub open spec fn decomposed(total_ms: nat) -> Time {
    Time {
        h: ((total_ms / 3_600_000) % 24) as i32,
        m: ((total_ms / 60_000) % 60) as i32,
        s: ((total_ms / 1_000) % 60) as i32,
        ms: (total_ms % 1_000) as i32,
    }
}

/// A decomposed count is a clock reading, and its fields add up to the count
/// taken modulo one day.
pub proof fn lemma_decomposed(total_ms: nat)
    ensures
        decomposed(total_ms).is_clock_reading(),
        decomposed(total_ms).h == (total_ms / 3_600_000) % 24,
        decomposed(total_ms).m == (total_ms / 60_000) % 60,
        decomposed(total_ms).s == (total_ms / 1_000) % 60,
        decomposed(total_ms).ms == total_ms % 1_000,
        decomposed(total_ms).total_millis() == total_ms % 86_400_000,
{
    let t = total_ms as int;
    let seconds = t / 1_000;
    let minutes = t / 60_000;
    let hours = t / 3_600_000;
    let days = t / 86_400_000;
    assert(seconds / 60 == minutes) by {
        lemma_div_denominator(t, 1_000, 60);
    }
    assert(minutes / 60 == hours) by {
        lemma_div_denominator(t, 60_000, 60);
    }
    assert(hours / 24 == days) by {
        lemma_div_denominator(t, 3_600_000, 24);
    }
    assert(t == 1_000 * seconds + t % 1_000);
    assert(seconds == 60 * minutes + seconds % 60);
    assert(minutes == 60 * hours + minutes % 60);
    assert(hours == 24 * days + hours % 24);
    assert(t == 86_400_000 * days + t % 86_400_000);
}

/// Splits a count of elapsed milliseconds into clock fields.
pub fn decompose(total_ms: u128) -> (t: Time)
    ensures
        t == decomposed(total_ms as nat),
        t.is_clock_reading(),
        t.h == (total_ms / 3_600_000) % 24,
        t.total_millis() == total_ms % 86_400_000,
{
    proof {
        lemma_decomposed(total_ms as nat);
    }
    let hours: u128 = (total_ms / 3_600_000) % 24;
    let minutes: u128 = (total_ms / 60_000) % 60;
    let seconds: u128 = (total_ms / 1_000) % 60;
    let millis: u128 = total_ms % 1_000;
    Time { h: hours as i32, m: minutes as i32, s: seconds as i32, ms: millis as i32 }
}

/// The whole milliseconds that a `Duration` holds.
pub uninterp spec fn duration_millis(duration: Duration) -> u128;

/// `Duration::as_millis` of the standard library: the total number of whole
/// milliseconds in the duration. The count is taken on trust, under the name
/// [`duration_millis`]; nothing more is claimed of it.
pub assume_specification[ Duration::as_millis ](duration: &Duration) -> (millis: u128)
    ensures
        millis == duration_millis(*duration),
;

/// The clock fields of a measured duration, as hours, minutes, seconds and
/// milliseconds.
pub fn parse_millis(duration: Duration) -> (fields: (i32, i32, i32, i32))
    ensures
        fields.0 == decomposed(duration_millis(duration) as nat).h,
        fields.1 == decomposed(duration_millis(duration) as nat).m,
        fields.2 == decomposed(duration_millis(duration) as nat).s,
        fields.3 == decomposed(duration_millis(duration) as nat).ms,
{
    let t = decompose(duration.as_millis());
    (t.h, t.m, t.s, t.ms)
}

/// The time elapsed between two readings of one monotonic clock, both in
/// milliseconds. A reading of `now` that lies before `start` counts as no
/// time elapsed.
pub open spec fn elapsed_millis(start: u64, now: u64) -> nat {
    if now < start {
        0
    } else {
        (now - start) as nat
    }
}

/// The elapsed time between two readings of one monotonic clock as clock
/// fields; never fails, and never runs backwards.
pub fn elapsed(start: u64, now: u64) -> (t: Time)
    ensures
        t == decomposed(elapsed_millis(start, now)),
        t.is_clock_reading(),
        now <= start ==> t == Time::zero_spec(),
{
    let total: u64 = if now < start { 0 } else { now - start };
    decompose(total as u128)
}

} // verus!
