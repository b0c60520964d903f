//! Wide time from a narrow counter.
//!
//! The hardware counter is 24 bits wide. Software counts *periods* of
//! 2^23 ticks: the period goes up by one when the counter wraps to zero and
//! once more when it passes its midpoint. A period and a counter value that
//! were read within a quarter of the counter's range of each other determine
//! the tick count, whichever of the two was read first.

use vstd::prelude::*;

verus! {

/// Number of values of the hardware counter: it counts from zero up to
/// `COUNTER_RANGE - 1` and wraps.
pub const COUNTER_RANGE: u32 = 0x100_0000;

/// The tick count that `period` and `counter` stand for: the one value
/// congruent to `counter` modulo the counter's range in the window of that
/// width which begins a quarter range before the start of `period`.
pub open spec fn reconstruct(period: int, counter: int) -> int {
    let origin = period * 0x80_0000 - 0x40_0000;
    origin + (counter - origin) % 0x100_0000
}

/// What `calc_now` returns: `reconstruct(period, counter)`, carried into `u64`.
///
/// The tick count is negative only for period zero with a counter in the
/// last quarter of its range, a pair that no running counter produces. There
/// the value wraps around `u64`, as the subtraction in `calc_now` does.
pub open spec fn tick_count(period: u32, counter: u32) -> u64 {
    let ticks = reconstruct(period as int, counter as int);
    if ticks >= 0 {
        ticks as u64
    } else {
        (ticks + 0x1_0000_0000_0000_0000) as u64
    }
}

/// Reconstructs the tick count from a period and a raw counter value.
#[verifier::when_used_as_spec(tick_count)]
pub fn calc_now(period: u32, counter: u32) -> (t: u64)
    requires
        counter < COUNTER_RANGE,
    ensures
        t == tick_count(period, counter),
        period > 0 || counter < 0xC0_0000 ==> t == reconstruct(period as int, counter as int),
        period == 0 && counter >= 0xC0_0000 ==> t == reconstruct(period as int, counter as int)
            + 0x1_0000_0000_0000_0000,
{
    let parity: u32 = (period & 1) << 23;
    assert(parity == (period % 2) * 0x80_0000) by (bit_vector)
        requires
            parity == (period & 1) << 23,
    ;
    let shift: u32 = parity + 0x40_0000;
    let sum: u32 = counter + shift;
    let counter_shifted: u32 = sum & 0xFF_FFFF;
    assert(counter_shifted == sum % 0x100_0000) by (bit_vector)
        requires
            counter_shifted == sum & 0xFF_FFFF,
    ;
    let start: u64 = (period as u64) << 23;
    assert(start == period * 0x80_0000) by (bit_vector)
        requires
            start == (period as u64) << 23,
    ;
    let base: u64 = start + counter_shifted as u64;
    proof {
        lemma_shifted_counter(period as int, counter as int);
    }
    base.wrapping_sub(0x40_0000)
}

/// The counter, moved by the offset that `calc_now` adds and reduced to the
/// counter's range, is the distance of the tick count from the window's
/// origin.
proof fn lemma_shifted_counter(period: int, counter: int)
    requires
        0 <= period,
        0 <= counter < 0x100_0000,
    ensures
        (counter + (period % 2) * 0x80_0000 + 0x40_0000) % 0x100_0000 == (counter - (period
            * 0x80_0000 - 0x40_0000)) % 0x100_0000,
{
    let half = period / 2;
    assert(period == 2 * half + period % 2);
    let a = counter + (period % 2) * 0x80_0000 + 0x40_0000;
    let b = counter - (period * 0x80_0000 - 0x40_0000);
    assert(a - b == (half + period % 2) * 0x100_0000);
    lemma_mod_shift(b, half + period % 2);
}

/// Adding a multiple of the counter's range changes no residue.
proof fn lemma_mod_shift(x: int, k: int)
    ensures
        (x + k * 0x100_0000) % 0x100_0000 == x % 0x100_0000,
{
    vstd::arithmetic::div_mod::lemma_mod_multiples_vanish(k, x, 0x100_0000);
}

/// The period and the counter value that belong to a tick count: the period
/// counts the half ranges that have passed, the counter is the tick count
/// reduced to the counter's range. So an even period goes with a counter in
/// the lower half of its range and an odd period with one in the upper half.
pub open spec fn period_at(ticks: int) -> int {
    ticks / 0x80_0000
}

/// See `period_at`.
pub open spec fn counter_at(ticks: int) -> int {
    ticks % 0x100_0000
}

/// The window of tick counts that `reconstruct` tells apart for one period:
/// from a quarter range before the period's start to a quarter range after
/// the start of the period after next.
pub open spec fn in_window(period: int, ticks: int) -> bool {
    period * 0x80_0000 - 0x40_0000 <= ticks < period * 0x80_0000 + 0xC0_0000
}

/// `reconstruct` lies in the window of its period and is congruent to the
/// counter, and it is the only tick count of which both hold.
pub proof fn lemma_reconstruct_unique(period: int, counter: int, ticks: int)
    requires
        0 <= counter < 0x100_0000,
    ensures
        in_window(period, reconstruct(period, counter)),
        reconstruct(period, counter) % 0x100_0000 == counter,
        in_window(period, ticks) && ticks % 0x100_0000 == counter ==> ticks == reconstruct(
            period,
            counter,
        ),
{
    let origin = period * 0x80_0000 - 0x40_0000;
    let r = reconstruct(period, counter);
    let d = (counter - origin) % 0x100_0000;
    let q = (counter - origin) / 0x100_0000;
    assert(counter - origin == q * 0x100_0000 + d);
    assert(r == counter - q * 0x100_0000);
    lemma_mod_shift(counter, -q);
    if in_window(period, ticks) && ticks % 0x100_0000 == counter {
        let k = ticks / 0x100_0000;
        assert(ticks == k * 0x100_0000 + counter);
        assert(ticks - origin == (k + q) * 0x100_0000 + d);
        assert(0 <= ticks - origin < 0x100_0000);
        assert(k + q == 0) by (nonlinear_arith)
            requires
                0 <= (k + q) * 0x100_0000 + d < 0x100_0000,
                0 <= d < 0x100_0000,
        ;
    }
}

/// Race tolerance: a counter value taken at tick count `ticks`, read together
/// with any period in whose window `ticks` lies, is reconstructed to `ticks`.
/// This holds of the period that belongs to `ticks`, of the one before it
/// while the counter is in the first half of the period, and of the one
/// after it while the counter is in the second half.
pub proof fn lemma_reconstruct_in_window(period: int, ticks: int)
    requires
        in_window(period, ticks),
    ensures
        reconstruct(period, counter_at(ticks)) == ticks,
{
    lemma_reconstruct_unique(period, counter_at(ticks), ticks);
}

/// Along the sequence of pairs that a running counter goes through, the
/// reconstructed tick count is the number of the pair.
pub proof fn lemma_reconstruct_canonical(ticks: int)
    requires
        0 <= ticks,
    ensures
        reconstruct(period_at(ticks), counter_at(ticks)) == ticks,
        period_at(ticks) % 2 == 0 <==> counter_at(ticks) < 0x80_0000,
{
    let p = period_at(ticks);
    assert(ticks == p * 0x80_0000 + ticks % 0x80_0000);
    lemma_reconstruct_in_window(p, ticks);
    let h = p / 2;
    assert(p == 2 * h + p % 2);
    assert(ticks == h * 0x100_0000 + ((p % 2) * 0x80_0000 + ticks % 0x80_0000));
    vstd::arithmetic::div_mod::lemma_fundamental_div_mod_converse(
        ticks,
        0x100_0000,
        h,
        (p % 2) * 0x80_0000 + ticks % 0x80_0000,
    );
}

/// Monotonicity: as period and counter advance along the sequence of a
/// running counter, the reconstructed tick count never goes down.
pub proof fn lemma_reconstruct_monotonic(earlier: int, later: int)
    requires
        0 <= earlier <= later,
    ensures
        reconstruct(period_at(earlier), counter_at(earlier)) <= reconstruct(
            period_at(later),
            counter_at(later),
        ),
{
    lemma_reconstruct_canonical(earlier);
    lemma_reconstruct_canonical(later);
}

/// Whether `counter` is within a quarter range of the counter value at
/// which the period goes from `period` to the next one: the midpoint for an
/// even period, the wrap to zero for an odd one.
pub open spec fn near_period_end(period: int, counter: int) -> bool {
    if period % 2 == 0 {
        0x40_0000 <= counter < 0xC0_0000
    } else {
        counter < 0x40_0000 || 0xC0_0000 <= counter
    }
}

/// Adjacent periods: near the counter value at which the period changes,
/// `period` and `period + 1` reconstruct one counter value to the same tick
/// count, so it does not matter on which side of the change the period was
/// read. Away from it the two differ by exactly the counter's range.
pub proof fn lemma_reconstruct_adjacent(period: int, counter: int)
    requires
        0 <= counter < 0x100_0000,
    ensures
        near_period_end(period, counter) ==> reconstruct(period + 1, counter) == reconstruct(
            period,
            counter,
        ),
        !near_period_end(period, counter) ==> reconstruct(period + 1, counter) == reconstruct(
            period,
            counter,
        ) + 0x100_0000,
{
    lemma_reconstruct_pieces(period, counter);
    lemma_reconstruct_pieces(period + 1, counter);
}

/// `reconstruct` written out by the parity of the period and the quarter of
/// the range that holds the counter.
pub proof fn lemma_reconstruct_pieces(period: int, counter: int)
    requires
        0 <= counter < 0x100_0000,
    ensures
        period % 2 == 0 && counter < 0xC0_0000 ==> reconstruct(period, counter) == period
            * 0x80_0000 + counter,
        period % 2 == 0 && counter >= 0xC0_0000 ==> reconstruct(period, counter) == period
            * 0x80_0000 + counter - 0x100_0000,
        period % 2 == 1 && counter < 0x40_0000 ==> reconstruct(period, counter) == (period + 1)
            * 0x80_0000 + counter,
        period % 2 == 1 && counter >= 0x40_0000 ==> reconstruct(period, counter) == (period - 1)
            * 0x80_0000 + counter,
{
    let h = period / 2;
    assert(period == 2 * h + period % 2);
    let start = period * 0x80_0000;
    if period % 2 == 0 {
        assert(start == h * 0x100_0000);
        if counter < 0xC0_0000 {
            lemma_mod_shift(counter, h);
            lemma_reconstruct_unique(period, counter, start + counter);
        } else {
            lemma_mod_shift(counter, h - 1);
            lemma_reconstruct_unique(period, counter, start + counter - 0x100_0000);
        }
    } else {
        assert(start == h * 0x100_0000 + 0x80_0000);
        if counter < 0x40_0000 {
            lemma_mod_shift(counter, h + 1);
            lemma_reconstruct_unique(period, counter, start + 0x80_0000 + counter);
        } else {
            lemma_mod_shift(counter, h);
            lemma_reconstruct_unique(period, counter, start - 0x80_0000 + counter);
        }
    }
}

} // verus!
