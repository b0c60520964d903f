//! When a deadline is due, and when it is near enough to hand to the
//! hardware.
//!
//! A compare slot holds 24 bits, so it can only stand for a deadline that the
//! counter reaches before it has gone round: the driver arms the slot when
//! the deadline is less than three quarters of the counter's range ahead, and
//! looks again at every change of period until it is.

use vstd::prelude::*;
use crate::clock::COUNTER_RANGE;

verus! {

/// The deadline that stands for "no alarm".
pub const NO_ALARM: u64 = u64::MAX;

/// How far ahead a deadline may be when the compare slot is armed for it:
/// three quarters of the counter's range.
pub const REACH: u64 = 0xC0_0000;

/// Where a deadline stands relative to a tick count.
#[derive(Clone, Copy, PartialEq, Eq, Structural, Debug)]
pub enum Timing {
    /// The deadline has been reached.
    Due,
    /// The deadline is ahead, by less than `REACH`.
    Near,
    /// The deadline is `REACH` ticks or more ahead.
    Far,
}

/// Whether the compare slot can stand for `deadline` at tick count `now`:
/// the deadline is not behind, and less than `REACH` ticks ahead.
pub open spec fn within_reach(deadline: u64, now: u64) -> bool {
    now <= deadline && deadline - now < REACH
}

/// Where `deadline` stands at tick count `now`.
pub open spec fn timing_at(deadline: u64, now: u64) -> Timing {
    if deadline <= now {
        Timing::Due
    } else if deadline - now < REACH {
        Timing::Near
    } else {
        Timing::Far
    }
}

/// The value that the compare slot holds for `deadline`: its low 24 bits.
pub open spec fn compare_value(deadline: u64) -> u32 {
    (deadline % 0x100_0000) as u32
}

/// The tick count at which `period` begins.
pub open spec fn period_start(period: u32) -> u64 {
    (period * 0x80_0000) as u64
}

/// Decides what to do about `deadline` at tick count `now`.
#[verifier::when_used_as_spec(timing_at)]
pub fn timing(deadline: u64, now: u64) -> (t: Timing)
    ensures
        t == timing_at(deadline, now),
{
    if deadline <= now {
        Timing::Due
    } else if deadline - now < REACH {
        Timing::Near
    } else {
        Timing::Far
    }
}

/// Whether `deadline` is within reach at tick count `now`.
pub fn is_within_reach(deadline: u64, now: u64) -> (b: bool)
    ensures
        b == within_reach(deadline, now),
{
    now <= deadline && deadline - now < REACH
}

/// The low 24 bits of `deadline`, for the compare slot.
pub fn low_bits(deadline: u64) -> (value: u32)
    ensures
        value == compare_value(deadline),
        value < COUNTER_RANGE,
{
    let masked: u64 = deadline & 0xFF_FFFF;
    assert(masked == deadline % 0x100_0000) by (bit_vector)
        requires
            masked == deadline & 0xFF_FFFF,
    ;
    masked as u32
}

/// The tick count at which `period` begins.
pub fn start_of_period(period: u32) -> (start: u64)
    ensures
        start == period_start(period),
        start == period * 0x80_0000,
{
    let start: u64 = (period as u64) << 23;
    assert(start == period * 0x80_0000) by (bit_vector)
        requires
            start == (period as u64) << 23,
    ;
    start
}

} // verus!
