use bevy_plot::ticks::{clamp_tick, magnitude_of, nice_tick};
use bevy_plot::{Plot, Point, ONE};

fn is_one_two_or_five_times_a_power_of_ten(t: i64) -> bool {
    let mut m = t;
    while m % 10 == 0 {
        m /= 10;
    }
    m == 1 || m == 2 || m == 5
}

#[test]
fn nice_tick_picks_the_closest_of_one_two_five() {
    assert_eq!(nice_tick(2 * ONE as u64), 200_000_000);
    assert_eq!(nice_tick(1_400_000_000), 100_000_000);
    assert_eq!(nice_tick(10 * ONE as u64), ONE);
    assert_eq!(nice_tick(4_500_000_000), 500_000_000);
    assert_eq!(nice_tick(11 * ONE as u64), ONE);
}

#[test]
fn nice_tick_takes_the_smaller_of_two_equally_close() {
    // a tenth of the range is 0.15: as far from 0.1 as from 0.2
    assert_eq!(nice_tick(1_500_000_000), 100_000_000);
    assert_eq!(nice_tick(1_500_000_001), 200_000_000);
    // a tenth of the range is 0.35: as far from 0.2 as from 0.5
    assert_eq!(nice_tick(3_500_000_000), 200_000_000);
    assert_eq!(nice_tick(3_500_000_001), 500_000_000);
}

#[test]
fn nice_tick_of_the_narrowest_and_the_widest_range() {
    assert_eq!(nice_tick(0), 1);
    assert_eq!(nice_tick(1), 1);
    assert_eq!(nice_tick(9), 1);
    assert_eq!(nice_tick(10), 1);
    assert_eq!(nice_tick(99), 5);
    assert_eq!(nice_tick(100), 10);
    assert_eq!(nice_tick(u64::MAX), 2_000_000_000_000_000_000);
}

#[test]
fn tick_period_is_nice_and_seven_to_twenty_fit_the_range() {
    let mut range: u64 = 10;
    while range < u64::MAX / 3 {
        for r in [range, range + 1, range + range / 2, range * 2 - 1] {
            let t = nice_tick(r);
            assert!(is_one_two_or_five_times_a_power_of_ten(t), "{} for {}", t, r);
            let t = t as u128;
            assert!(7 * t < r as u128 && (r as u128) < 20 * t, "{} for {}", t, r);
        }
        range = range * 3 - 1;
    }
}

#[test]
fn set_bounds_chooses_the_tick_period_of_each_axis() {
    let mut plot = Plot::new(Point::new(790 * ONE, 590 * ONE), Point::zero(), Point::zero()).unwrap();
    plot.set_bounds(Point::new(-1_500_000_000, -ONE), Point::new(3 * ONE, 10 * ONE)).unwrap();
    assert_eq!(plot.tick_period, Point::new(500_000_000, ONE));
    plot.set_bounds(Point::new(0, 0), Point::new(7, 123_456 * ONE)).unwrap();
    assert_eq!(plot.tick_period, Point::new(1, 10_000 * ONE));
}

#[test]
fn magnitude_is_the_power_of_ten_under_a_tenth() {
    assert_eq!(magnitude_of(0), 1);
    assert_eq!(magnitude_of(99), 1);
    assert_eq!(magnitude_of(100), 10);
    assert_eq!(magnitude_of(999), 10);
    assert_eq!(magnitude_of(1000), 100);
    assert_eq!(magnitude_of(2 * ONE as u64), 100_000_000);
    assert_eq!(magnitude_of(u64::MAX), 1_000_000_000_000_000_000);
}

#[test]
fn clamp_tick_brings_the_period_between_its_limits() {
    let range = 2 * ONE as u64;
    assert_eq!(clamp_tick(1, range), 133_333_333);
    assert_eq!(clamp_tick(133_333_333, range), 133_333_333);
    assert_eq!(clamp_tick(ONE, range), ONE);
    assert_eq!(clamp_tick(i64::MAX, range), 2_000_000_000_000_000);
    assert_eq!(clamp_tick(i64::MAX, u64::MAX), i64::MAX);
    assert_eq!(clamp_tick(-5, 14), 0);
    assert_eq!(clamp_tick(-5, 15), 1);
}
