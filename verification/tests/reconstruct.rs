use nrf_rtc::alarm::{is_within_reach, low_bits, start_of_period};
use nrf_rtc::{calc_now, timing, Timing, NO_ALARM, REACH};

#[test]
fn test_calc_now() {
    assert_eq!(calc_now(0, 0x000000), 0x0_000000);
    assert_eq!(calc_now(0, 0x000001), 0x0_000001);
    assert_eq!(calc_now(0, 0x7FFFFF), 0x0_7FFFFF);
    assert_eq!(calc_now(1, 0x7FFFFF), 0x0_7FFFFF);
    assert_eq!(calc_now(0, 0x800000), 0x0_800000);
    assert_eq!(calc_now(1, 0x800000), 0x0_800000);
    assert_eq!(calc_now(1, 0x800001), 0x0_800001);
    assert_eq!(calc_now(1, 0xFFFFFF), 0x0_FFFFFF);
    assert_eq!(calc_now(2, 0xFFFFFF), 0x0_FFFFFF);
    assert_eq!(calc_now(1, 0x000000), 0x1_000000);
    assert_eq!(calc_now(2, 0x000000), 0x1_000000);
}

#[test]
fn calc_now_boundary_table() {
    let table: [(u32, u32, u64); 9] = [
        (0, 0, 0),
        (0, 0x7FFFFF, 0x7FFFFF),
        (1, 0x7FFFFF, 0x7FFFFF),
        (0, 0x800000, 0x800000),
        (1, 0x800000, 0x800000),
        (1, 0xFFFFFF, 0xFFFFFF),
        (2, 0xFFFFFF, 0xFFFFFF),
        (1, 0, 0x1000000),
        (2, 0, 0x1000000),
    ];
    for (period, counter, expected) in table {
        assert_eq!(calc_now(period, counter), expected);
    }
}

#[test]
fn calc_now_follows_a_running_counter() {
    let mut last = 0u64;
    let mut ticks = 0u64;
    while ticks < 5 * 0x1000000 {
        let period = (ticks >> 23) as u32;
        let counter = (ticks & 0xFFFFFF) as u32;
        let t = calc_now(period, counter);
        assert_eq!(t, ticks);
        assert!(t >= last);
        last = t;
        ticks += 4099;
    }
}

#[test]
fn calc_now_around_every_change_of_period() {
    for period in 1u32..6 {
        let start = (period as u64) << 23;
        for ticks in (start - 3)..(start + 3) {
            let own = (ticks >> 23) as u32;
            let counter = (ticks & 0xFFFFFF) as u32;
            assert_eq!(calc_now(own, counter), ticks);
            assert_eq!(calc_now(period - 1, counter), ticks);
            assert_eq!(calc_now(period, counter), ticks);
        }
    }
}

#[test]
fn calc_now_with_a_period_read_too_early_or_too_late() {
    // A quarter range past the start of period 4 the period before still
    // gives the tick count; one tick further it is a full range off.
    let start = 4u64 << 23;
    assert_eq!(calc_now(3, 0x3FFFFF), start + 0x3FFFFF);
    assert_eq!(calc_now(3, 0x400000), start + 0x400000 - 0x1000000);
    // A quarter range before the end of period 4 the next period already
    // gives the tick count.
    assert_eq!(calc_now(5, 0x400000), start + 0x400000);
    assert_eq!(calc_now(5, 0x3FFFFF), start + 0x3FFFFF + 0x1000000);
}

#[test]
fn calc_now_of_adjacent_periods() {
    for period in [1u32, 2, 7, 8, 0x1234_5677, 0x1234_5678] {
        let mut counter = 0u32;
        while counter < 0x1000000 {
            let a = calc_now(period, counter);
            let b = calc_now(period + 1, counter);
            let near = if period % 2 == 0 {
                (0x400000..0xC00000).contains(&counter)
            } else {
                !(0x400000..0xC00000).contains(&counter)
            };
            if near {
                assert_eq!(b, a);
            } else {
                assert_eq!(b, a + 0x1000000);
            }
            counter += 0x0FFF;
        }
    }
}

#[test]
fn calc_now_of_adjacent_periods_at_the_quarters() {
    assert_eq!(calc_now(2, 0x3FFFFF), 0x13F_FFFF);
    assert_eq!(calc_now(3, 0x3FFFFF), 0x23F_FFFF);
    assert_eq!(calc_now(2, 0x400000), 0x140_0000);
    assert_eq!(calc_now(3, 0x400000), 0x140_0000);
    assert_eq!(calc_now(2, 0xBFFFFF), 0x1BF_FFFF);
    assert_eq!(calc_now(3, 0xBFFFFF), 0x1BF_FFFF);
    assert_eq!(calc_now(2, 0xC00000), 0x0C0_0000);
    assert_eq!(calc_now(3, 0xC00000), 0x1C0_0000);
}

#[test]
fn calc_now_below_zero_wraps() {
    assert_eq!(calc_now(0, 0xBFFFFF), 0xBFFFFF);
    assert_eq!(calc_now(0, 0xC00000), 0xFFFF_FFFF_FFC0_0000);
    assert_eq!(calc_now(0, 0xFFFFFF), u64::MAX);
}

#[test]
fn calc_now_of_the_last_period() {
    assert_eq!(calc_now(u32::MAX, 0x800000), 0x7F_FFFF_FF80_0000);
    assert_eq!(calc_now(u32::MAX, 0xFFFFFF), 0x7F_FFFF_FFFF_FFFF);
    assert_eq!(calc_now(u32::MAX, 0), 0x80_0000_0000_0000);
    assert_eq!(calc_now(u32::MAX, 0x3FFFFF), 0x80_0000_003F_FFFF);
}

#[test]
fn timing_of_a_deadline() {
    assert_eq!(timing(100, 100), Timing::Due);
    assert_eq!(timing(99, 100), Timing::Due);
    assert_eq!(timing(0, u64::MAX), Timing::Due);
    assert_eq!(timing(101, 100), Timing::Near);
    assert_eq!(timing(100 + 0xBFFFFF, 100), Timing::Near);
    assert_eq!(timing(100 + 0xC00000, 100), Timing::Far);
    assert_eq!(timing(NO_ALARM, 0), Timing::Far);
    assert_eq!(timing(NO_ALARM, u64::MAX), Timing::Due);
    assert_eq!(timing(NO_ALARM, u64::MAX - 1), Timing::Near);
    assert_eq!(REACH, 0xC00000);
    assert_eq!(NO_ALARM, u64::MAX);
}

#[test]
fn reach_of_the_compare_slot() {
    assert!(is_within_reach(100, 100));
    assert!(is_within_reach(100 + 0xBFFFFF, 100));
    assert!(!is_within_reach(100 + 0xC00000, 100));
    assert!(!is_within_reach(99, 100));
    assert!(!is_within_reach(NO_ALARM, 0x80_0000_0000_0000));
}

#[test]
fn low_bits_of_a_deadline() {
    assert_eq!(low_bits(0), 0);
    assert_eq!(low_bits(5), 5);
    assert_eq!(low_bits(0xFFFFFF), 0xFFFFFF);
    assert_eq!(low_bits(0x1000000), 0);
    assert_eq!(low_bits(0x1234_5678_9ABC_DEF0), 0xBCDEF0);
    assert_eq!(low_bits(u64::MAX), 0xFFFFFF);
}

#[test]
fn start_of_a_period() {
    assert_eq!(start_of_period(0), 0);
    assert_eq!(start_of_period(1), 0x800000);
    assert_eq!(start_of_period(2), 0x1000000);
    assert_eq!(start_of_period(u32::MAX), 0x7F_FFFF_FF80_0000);
}
