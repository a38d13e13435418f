use bevy_plot::fixed::{clamp_wide, from_int, sat_add, sat_sub, scale, span, times};
use bevy_plot::geometry::isqrt;
use bevy_plot::{Line, Point, ONE};

#[test]
fn one_counts_a_billion_units() {
    assert_eq!(ONE, 1_000_000_000);
    assert_eq!(from_int(3), 3 * ONE);
    assert_eq!(from_int(-7), -7 * ONE);
    assert_eq!(from_int(i64::MAX), i64::MAX);
    assert_eq!(from_int(i64::MIN), i64::MIN);
}

#[test]
fn sums_and_differences_saturate() {
    assert_eq!(sat_add(2, 3), 5);
    assert_eq!(sat_add(i64::MAX, 1), i64::MAX);
    assert_eq!(sat_add(i64::MIN, -1), i64::MIN);
    assert_eq!(sat_sub(2, 3), -1);
    assert_eq!(sat_sub(i64::MIN, 1), i64::MIN);
    assert_eq!(sat_sub(0, i64::MIN), i64::MAX);
    assert_eq!(clamp_wide(i128::MAX), i64::MAX);
    assert_eq!(clamp_wide(i128::MIN), i64::MIN);
    assert_eq!(clamp_wide(-12), -12);
}

#[test]
fn span_is_the_distance_between_two_numbers() {
    assert_eq!(span(-3, 4), 7);
    assert_eq!(span(5, 5), 0);
    assert_eq!(span(i64::MIN, i64::MAX), u64::MAX);
    assert_eq!(span(4, -3), 0);
}

#[test]
fn scale_truncates_toward_zero() {
    assert_eq!(scale(7, 1, 2), 3);
    assert_eq!(scale(-7, 1, 2), -3);
    assert_eq!(scale(10, 3, 4), 7);
    assert_eq!(scale(-10, 3, 4), -7);
    assert_eq!(scale(0, u64::MAX, 1), 0);
    assert_eq!(scale(1, u64::MAX, u64::MAX), 1);
}

#[test]
fn scale_saturates() {
    assert_eq!(scale(i64::MAX, 2, 1), i64::MAX);
    assert_eq!(scale(i64::MIN, 2, 1), i64::MIN);
    assert_eq!(scale(i64::MAX, u64::MAX, u64::MAX), i64::MAX);
    assert_eq!(scale(i64::MIN, u64::MAX, u64::MAX), i64::MIN);
}

#[test]
fn times_multiplies_fixed_point_numbers() {
    assert_eq!(times(800 * ONE, 1_500_000_000), 1200 * ONE);
    assert_eq!(times(-3, ONE / 2), -1);
    assert_eq!(times(3, ONE / 2), 1);
    assert_eq!(times(1 << 62, 4 * ONE), i64::MAX);
    assert_eq!(times(ONE, ONE), ONE);
}

#[test]
fn plus_and_minus_work_by_coordinate() {
    let a = Point::new(3, -4);
    let b = Point::new(10, 20);
    assert_eq!(a.plus(b), Point::new(13, 16));
    assert_eq!(a.minus(b), Point::new(-7, -24));
    assert_eq!(Point::new(i64::MAX, i64::MIN).plus(Point::new(1, -1)), Point::new(i64::MAX, i64::MIN));
    assert_eq!(Point::splat(5), Point::new(5, 5));
    assert_eq!(Point::zero(), Point::new(0, 0));
}

#[test]
fn direction_rescales_to_the_larger_coordinate() {
    assert_eq!(Point::new(3, 4).direction(1_000_000), Point::new(750_000, 1_000_000));
    assert_eq!(Point::new(-7 * ONE, 2 * ONE).direction(1_000_000_000), Point::new(-ONE, 285_714_285));
    assert_eq!(Point::new(i64::MAX, i64::MIN).direction(1_000_000), Point::new(999_999, -1_000_000));
    assert_eq!(Point::new(0, 0).direction(1_000_000), Point::new(0, 0));
    assert_eq!(Point::new(0, -5).direction(7), Point::new(0, -7));
    assert_eq!(Point::new(3, -5).direction(0), Point::new(0, 0));
}

#[test]
fn crossing_lines_meet() {
    let rising = Line(Point::new(0, 0), Point::new(ONE, ONE));
    let falling = Line(Point::new(0, 2 * ONE), Point::new(ONE, ONE));
    assert_eq!(rising.intersect(falling), Some(Point::new(ONE, ONE)));
    assert_eq!(falling.intersect(rising), Some(Point::new(ONE, ONE)));
    let flat = Line(Point::new(0, 0), Point::new(ONE, 0));
    let upright = Line(Point::new(3 * ONE, -ONE), Point::new(3 * ONE, 7 * ONE));
    assert_eq!(flat.intersect(upright), Some(Point::new(3 * ONE, 0)));
    assert_eq!(upright.intersect(flat), Some(Point::new(3 * ONE, 0)));
}

#[test]
fn meeting_point_is_truncated() {
    let a = Line(Point::new(0, 0), Point::new(3 * ONE, ONE));
    let b = Line(Point::new(0, ONE), Point::new(3 * ONE, 0));
    assert_eq!(a.intersect(b), Some(Point::new(1_500_000_001, 500_000_000)));
}

#[test]
fn the_order_of_the_lines_does_not_matter() {
    let a = Line(Point::new(-33, 22), Point::new(47, -42));
    let b = Line(Point::new(-18, -35), Point::new(13, 47));
    assert_eq!(a.intersect(b), Some(Point::new(-4, 0)));
    assert_eq!(b.intersect(a), Some(Point::new(-4, 0)));
    let mut seed: u64 = 0x2545_f491_4f6c_dd1d;
    let mut next = move || {
        seed ^= seed << 13;
        seed ^= seed >> 7;
        seed ^= seed << 17;
        seed as i64
    };
    for round in 0..2000 {
        let shift = [0, 20, 40, 58][round % 4];
        let mut point = || Point::new(next() >> shift, next() >> shift);
        let s = Line(point(), point());
        let o = Line(point(), point());
        assert_eq!(s.intersect(o), o.intersect(s), "{:?} and {:?}", s, o);
    }
}

#[test]
fn the_meeting_point_solves_both_line_equations_within_a_unit() {
    let lines = [
        Line(Point::new(-33, 22), Point::new(47, -42)),
        Line(Point::new(-18, -35), Point::new(13, 47)),
        Line(Point::new(0, 0), Point::new(3 * ONE, ONE)),
        Line(Point::new(0, ONE), Point::new(3 * ONE, 0)),
        Line(Point::new(-7 * ONE, 5), Point::new(ONE, 123_456_789)),
    ];
    for s in lines {
        for o in lines {
            let Some(c) = s.intersect(o) else {
                continue;
            };
            for line in [s, o] {
                let h = line.heading();
                let (a, b) = (h.y as i128, -(h.x as i128));
                let level = a * line.0.x as i128 + b * line.0.y as i128;
                let off = a * c.x as i128 + b * c.y as i128 - level;
                assert!(off.abs() < a.abs() + b.abs(), "{:?} on {:?}", c, line);
            }
        }
    }
}

#[test]
fn parallel_lines_do_not_meet() {
    let a = Line(Point::new(0, 0), Point::new(ONE, ONE));
    let b = Line(Point::new(5, 5), Point::new(ONE + 5, ONE + 5));
    let shifted = Line(Point::new(0, ONE), Point::new(2 * ONE, 3 * ONE));
    let reversed = Line(Point::new(ONE, ONE), Point::new(0, 0));
    assert_eq!(a.intersect(b), None);
    assert_eq!(a.intersect(shifted), None);
    assert_eq!(a.intersect(reversed), None);
    assert_eq!(a.intersect(a), None);
}

#[test]
fn a_line_through_one_point_meets_nothing() {
    let dot = Line(Point::new(7, 7), Point::new(7, 7));
    let a = Line(Point::new(0, 0), Point::new(ONE, ONE));
    assert_eq!(dot.intersect(a), None);
    assert_eq!(a.intersect(dot), None);
    assert_eq!(dot.heading(), Point::zero());
}

#[test]
fn lines_between_the_farthest_points_meet() {
    let a = Line(Point::new(i64::MIN, i64::MIN), Point::new(i64::MAX, i64::MAX));
    let b = Line(Point::new(i64::MIN, i64::MAX), Point::new(i64::MAX, i64::MIN));
    let met = a.intersect(b).unwrap();
    assert!(met.x.abs() <= 1 && met.y.abs() <= 1, "{:?}", met);
}

#[test]
fn heading_has_the_precision_of_a_billionth() {
    assert_eq!(Line(Point::new(0, 0), Point::new(3 * ONE, 4 * ONE)).heading(), Point::new(750_000_000, ONE));
    assert_eq!(Line(Point::new(0, 0), Point::new(-ONE, ONE)).heading(), Point::new(-ONE, ONE));
    assert_eq!(Line(Point::new(i64::MAX, 0), Point::new(i64::MIN, 0)).heading(), Point::new(-ONE, 0));
}

#[test]
fn unit_has_length_one() {
    assert_eq!(Line(Point::new(0, 0), Point::new(3 * ONE, 4 * ONE)).unit(), Point::new(600_000_000, 800_000_000));
    assert_eq!(Line(Point::new(0, 0), Point::new(ONE, 0)).unit(), Point::new(ONE, 0));
    assert_eq!(Line(Point::new(0, 0), Point::new(-ONE, ONE)).unit(), Point::new(-707_106_781, 707_106_781));
    assert_eq!(Line(Point::new(0, 0), Point::new(1, 1)).unit(), Point::new(707_106_781, 707_106_781));
    assert_eq!(Line(Point::new(5, 5), Point::new(5, 5)).unit(), Point::zero());
}

#[test]
fn isqrt_is_the_whole_part_of_the_root() {
    assert_eq!(isqrt(0), 0);
    assert_eq!(isqrt(1), 1);
    assert_eq!(isqrt(3), 1);
    assert_eq!(isqrt(4), 2);
    assert_eq!(isqrt(99), 9);
    assert_eq!(isqrt(1_000_000_000_000_000_000), 1_000_000_000);
    assert_eq!(isqrt(2_000_000_000_000_000_000), 1_414_213_562);
    assert_eq!(isqrt(u64::MAX), 4_294_967_295);
}
