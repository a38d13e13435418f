use bevy_plot::bezier::{
    control_point, perpendicular, straight, tangent, MAX_SAMPLES, QUAD_OFFSET, STRAIGHT_X,
    STRAIGHT_Y,
};
use bevy_plot::{
    derivative_step, is_curved, linspace, make_df, tessellate, Control, Ends, Evaluation, Plot,
    PlotError, Point, Position, Sample, ONE,
};

fn unit_square_plot() -> Plot {
    let mut plot = Plot::new(Point::new(800 * ONE, 600 * ONE), Point::zero(), Point::zero()).unwrap();
    plot.set_bounds(Point::new(-ONE, -ONE), Point::new(ONE, ONE)).unwrap();
    plot
}

/// The evaluations of `f` at the abscissas `xs`, as a host computes them.
fn evaluate(xs: &[i64], f: fn(i64) -> i64) -> Vec<Evaluation> {
    let step = derivative_step(&xs.to_vec()).unwrap();
    xs.iter().map(|&x| Evaluation { x, y: f(x), ahead: f(x + step), behind: f(x - step) }).collect()
}

fn identity(x: i64) -> i64 {
    x
}

fn twice_plus_one(x: i64) -> i64 {
    2 * x + ONE
}

fn square(x: i64) -> i64 {
    ((x as i128 * x as i128) / ONE as i128) as i64
}

fn parabola_samples() -> Vec<Sample> {
    linspace(-ONE, ONE, 5)
        .unwrap()
        .into_iter()
        .map(|x| Sample { point: Point::new(x, square(x)), tangent: Point::new(ONE, 2 * x) })
        .collect()
}

#[test]
fn linspace_includes_both_ends() {
    assert_eq!(linspace(-ONE, ONE, 5), Ok(vec![-ONE, -ONE / 2, 0, ONE / 2, ONE]));
    assert_eq!(linspace(0, 10, 4), Ok(vec![0, 3, 6, 10]));
    assert_eq!(linspace(5, -5, 3), Ok(vec![5, 0, -5]));
    assert_eq!(linspace(7, 9, 1), Ok(vec![7]));
    assert_eq!(linspace(7, 9, 0), Ok(Vec::<i64>::new()));
    assert_eq!(linspace(i64::MIN, i64::MAX, 3), Ok(vec![i64::MIN, -1, i64::MAX]));
    assert_eq!(linspace(0, 1, MAX_SAMPLES + 1), Err(PlotError::TooManySamples));
}

#[test]
fn sample_positions_span_the_horizontal_bounds() {
    let mut plot = unit_square_plot();
    plot.set_bounds(Point::new(-1_500_000_000, -ONE), Point::new(3 * ONE, ONE)).unwrap();
    plot.bezier_num_points = 7;
    assert_eq!(
        plot.sample_positions(),
        Ok(vec![-1_500_000_000, -750_000_000, 0, 750_000_000, 1_500_000_000, 2_250_000_000, 3 * ONE])
    );
}

#[test]
fn sample_positions_need_two_samples() {
    let mut plot = unit_square_plot();
    plot.bezier_num_points = 1;
    assert_eq!(plot.sample_positions(), Err(PlotError::InsufficientSamples));
    plot.bezier_num_points = 0;
    assert_eq!(plot.sample_positions(), Err(PlotError::InsufficientSamples));
    plot.bezier_num_points = 2;
    assert_eq!(plot.sample_positions(), Ok(vec![-ONE, ONE]));
}

#[test]
fn sample_positions_refuse_too_many_samples() {
    let mut plot = unit_square_plot();
    plot.bezier_num_points = MAX_SAMPLES + 1;
    assert_eq!(plot.sample_positions(), Err(PlotError::TooManySamples));
    plot.bezier_num_points = usize::MAX;
    assert_eq!(plot.sample_positions(), Err(PlotError::TooManySamples));
}

#[test]
fn derivative_step_is_a_thousandth_of_the_spacing() {
    assert_eq!(derivative_step(&vec![0, 7_812_500, 15_625_000]), Ok(7_812));
    assert_eq!(derivative_step(&vec![0, 999]), Ok(1));
    assert_eq!(derivative_step(&vec![5, 1]), Ok(1));
    assert_eq!(derivative_step(&vec![-ONE, -ONE / 2]), Ok(500_000));
    assert_eq!(derivative_step(&vec![3]), Err(PlotError::InsufficientSamples));
    assert_eq!(derivative_step(&vec![]), Err(PlotError::InsufficientSamples));
}

#[test]
fn make_df_takes_the_central_difference() {
    let evaluations = vec![
        Evaluation { x: 0, y: 2 * ONE, ahead: 2 * ONE + 4000, behind: 2 * ONE - 4000 },
        Evaluation { x: 2_000_000, y: 5, ahead: 0, behind: 7 },
    ];
    // the step is a thousandth of two million units
    let (samples, normals) = make_df(&evaluations).unwrap();
    assert_eq!(
        samples,
        vec![
            Sample { point: Point::new(0, 2 * ONE), tangent: tangent(2 * ONE) },
            Sample { point: Point::new(2_000_000, 5), tangent: tangent(-1_750_000) },
        ]
    );
    assert_eq!(normals, vec![Point::new(894_427_191, -447_213_595), Point::new(-1_749_997, -999_998_469)]);
    for (sample, normal) in samples.iter().zip(normals.iter()) {
        assert_eq!(*normal, perpendicular(sample.tangent));
        assert_eq!(sample.tangent.x as i128 * normal.x as i128 + sample.tangent.y as i128 * normal.y as i128, 0);
    }
}

#[test]
fn tangents_have_length_one() {
    assert_eq!(tangent(0), Point::new(ONE, 0));
    assert_eq!(tangent(ONE), Point::new(707_106_781, 707_106_781));
    assert_eq!(tangent(2 * ONE), Point::new(447_213_595, 894_427_191));
    assert_eq!(tangent(-1_750_000), Point::new(999_998_469, -1_749_997));
    assert_eq!(tangent(7), Point::new(ONE, 7));
}

#[test]
fn make_df_saturates_the_slope() {
    let evaluations = vec![
        Evaluation { x: 0, y: 0, ahead: i64::MAX, behind: i64::MIN },
        Evaluation { x: 1, y: 0, ahead: i64::MIN, behind: i64::MAX },
    ];
    let (samples, normals) = make_df(&evaluations).unwrap();
    assert_eq!(samples[0].tangent, tangent(i64::MAX));
    assert_eq!(samples[1].tangent, tangent(i64::MIN));
    assert_eq!(samples[0].tangent, Point::new(0, ONE));
    assert_eq!(samples[1].tangent, Point::new(0, -ONE));
    assert_eq!(normals, vec![Point::new(ONE, 0), Point::new(-ONE, 0)]);
    assert_eq!(perpendicular(Point::new(i64::MIN, 7)), Point::new(7, i64::MAX));
}

#[test]
fn make_df_needs_two_evaluations() {
    assert_eq!(make_df(&vec![]), Err(PlotError::InsufficientSamples));
    assert_eq!(
        make_df(&vec![Evaluation { x: 0, y: 0, ahead: 0, behind: 0 }]),
        Err(PlotError::InsufficientSamples)
    );
}

#[test]
fn a_line_has_the_same_tangent_everywhere() {
    let xs = linspace(-ONE, ONE, 9).unwrap();
    let samples = make_df(&evaluate(&xs, twice_plus_one)).unwrap().0;
    for (sample, x) in samples.iter().zip(xs.iter()) {
        assert_eq!(sample.point, Point::new(*x, 2 * x + ONE));
        assert_eq!(sample.tangent, Point::new(447_213_595, 894_427_191));
    }
}

#[test]
fn tangents_three_degrees_apart_are_curved() {
    let flat = Point::new(ONE, 0);
    // the tangents of 1, 2, 2.9 and 3 degrees
    for slope in [17_455_065, 34_920_769, 50_657_815, 52_407_779] {
        assert!(!is_curved(flat, Point::new(ONE, slope)), "{}", slope);
        assert!(!is_curved(Point::new(ONE, slope), flat), "{}", slope);
    }
    // the tangents of 3.1, 4 and 5 degrees
    for slope in [54_158_064, 69_926_812, 87_488_664] {
        assert!(is_curved(flat, Point::new(ONE, slope)), "{}", slope);
        assert!(is_curved(Point::new(ONE, -slope), flat), "{}", slope);
    }
}

#[test]
fn opposite_and_equal_and_zero_tangents_are_straight() {
    assert!(!is_curved(Point::new(ONE, ONE), Point::new(ONE, ONE)));
    assert!(!is_curved(Point::new(ONE, ONE), Point::new(-ONE, -ONE)));
    assert!(!is_curved(Point::new(ONE, ONE), Point::new(5 * ONE, 5 * ONE)));
    assert!(!is_curved(Point::zero(), Point::new(ONE, 5)));
    assert!(!is_curved(Point::new(ONE, 5), Point::zero()));
    assert!(is_curved(Point::new(ONE, 0), Point::new(0, ONE)));
    assert!(is_curved(Point::new(i64::MAX, 0), Point::new(0, i64::MIN)));
}

#[test]
fn tessellation_of_n_samples_has_n_minus_one_quads() {
    let plot = unit_square_plot();
    for n in [2usize, 3, 5, 100, 256] {
        let xs = linspace(-ONE, ONE, n).unwrap();
        let samples = make_df(&evaluate(&xs, square)).unwrap().0;
        let mesh = tessellate(&plot, &samples).unwrap();
        assert_eq!(mesh.positions.len(), 4 * (n - 1));
        assert_eq!(mesh.normals.len(), 4 * (n - 1));
        assert_eq!(mesh.uvs.len(), 4 * (n - 1));
        assert_eq!(mesh.ends.len(), 4 * (n - 1));
        assert_eq!(mesh.controls.len(), 4 * (n - 1));
        assert_eq!(mesh.indices.len(), 6 * (n - 1));
    }
}

#[test]
fn tessellation_needs_two_samples() {
    let plot = unit_square_plot();
    let one = vec![Sample { point: Point::zero(), tangent: Point::new(ONE, 0) }];
    assert_eq!(tessellate(&plot, &one).err(), Some(PlotError::InsufficientSamples));
    assert_eq!(tessellate(&plot, &vec![]).err(), Some(PlotError::InsufficientSamples));
}

#[test]
fn the_identity_on_five_samples_is_straight() {
    let plot = unit_square_plot();
    let xs = linspace(-ONE, ONE, 5).unwrap();
    assert_eq!(xs, vec![-ONE, -ONE / 2, 0, ONE / 2, ONE]);
    let samples = make_df(&evaluate(&xs, identity)).unwrap().0;
    let mesh = tessellate(&plot, &samples).unwrap();
    assert_eq!(mesh.positions.len(), 16);
    assert_eq!(mesh.indices.len(), 24);
    for control in mesh.controls.iter() {
        assert_eq!(control.point, Point::new(STRAIGHT_X, STRAIGHT_Y));
    }
    assert_eq!(plot.to_local(Point::zero()), plot.zero_world);
    assert_eq!(plot.zero_world, Point::zero());
}

#[test]
fn a_line_is_straight_in_every_segment() {
    let plot = unit_square_plot();
    let xs = linspace(-ONE, ONE, 64).unwrap();
    let samples = make_df(&evaluate(&xs, twice_plus_one)).unwrap().0;
    let mesh = tessellate(&plot, &samples).unwrap();
    assert_eq!(mesh.controls.len(), 4 * 63);
    for control in mesh.controls.iter() {
        assert_eq!(control.point, straight());
        assert_eq!(control.point, Point::new(500_010_000, 10_000));
    }
}

#[test]
fn a_parabola_has_its_control_points_where_the_tangents_meet() {
    let plot = unit_square_plot();
    let samples = parabola_samples();
    let mesh = tessellate(&plot, &samples).unwrap();
    let expected = [
        Point::new(-300_000_000_199, 150_000_000_149),
        Point::new(-100 * ONE, 0),
        Point::new(100 * ONE, 0),
        Point::new(300_000_000_199, 150_000_000_149),
    ];
    for (k, control) in expected.iter().enumerate() {
        assert_eq!(control_point(&plot, &samples[k], &samples[k + 1]), *control);
        for j in 0..4 {
            assert_eq!(mesh.controls[4 * k + j].point, *control);
        }
    }
}

#[test]
fn only_the_last_segment_is_marked() {
    let plot = unit_square_plot();
    let mesh = tessellate(&plot, &parabola_samples()).unwrap();
    for (v, control) in mesh.controls.iter().enumerate() {
        assert_eq!(control.is_last, if v / 4 == 3 { ONE } else { 0 }, "vertex {}", v);
    }
    let two = vec![
        Sample { point: Point::zero(), tangent: Point::new(ONE, 0) },
        Sample { point: Point::new(ONE, 0), tangent: Point::new(ONE, 0) },
    ];
    let mesh = tessellate(&plot, &two).unwrap();
    assert_eq!(mesh.controls, vec![Control { point: straight(), is_last: ONE }; 4]);
}

#[test]
fn every_vertex_carries_the_ends_of_its_segment() {
    let plot = unit_square_plot();
    let samples = parabola_samples();
    let mesh = tessellate(&plot, &samples).unwrap();
    let on_screen = [
        Point::new(-400 * ONE, 300 * ONE),
        Point::new(-200 * ONE, 75 * ONE),
        Point::new(0, 0),
        Point::new(200 * ONE, 75 * ONE),
        Point::new(400 * ONE, 300 * ONE),
    ];
    for v in 0..16 {
        assert_eq!(mesh.ends[v], Ends { start: on_screen[v / 4], end: on_screen[v / 4 + 1] });
    }
}

#[test]
fn quads_reach_beyond_their_samples_and_over_the_whole_height() {
    let plot = unit_square_plot();
    let mesh = tessellate(&plot, &parabola_samples()).unwrap();
    assert_eq!(QUAD_OFFSET, 300 * ONE);
    let top = 300 * ONE;
    let bottom = -300 * ONE;
    // the second quad, between the samples at -200 and at 0 pixels
    assert_eq!(mesh.uvs[4], Point::new(-500 * ONE, top));
    assert_eq!(mesh.uvs[5], Point::new(-500 * ONE, bottom));
    assert_eq!(mesh.uvs[6], Point::new(300 * ONE, top));
    assert_eq!(mesh.uvs[7], Point::new(300 * ONE, bottom));
    for v in 0..16 {
        assert_eq!(mesh.positions[v], Position { x: mesh.uvs[v].x, y: mesh.uvs[v].y, z: 0 });
        assert_eq!(mesh.normals[v], Position { x: 0, y: 0, z: ONE });
    }
}

#[test]
fn each_quad_is_two_triangles() {
    let plot = unit_square_plot();
    let mesh = tessellate(&plot, &parabola_samples()).unwrap();
    assert_eq!(
        mesh.indices,
        vec![0, 1, 2, 3, 2, 1, 4, 5, 6, 7, 6, 5, 8, 9, 10, 11, 10, 9, 12, 13, 14, 15, 14, 13]
    );
}

#[test]
fn parallel_tangent_lines_fall_back_to_a_straight_segment() {
    let plot = unit_square_plot();
    // tangents that enclose an angle, at points so far out that both
    // tangent lines are saturated to the same heading
    let far = Sample { point: Point::new(i64::MAX, i64::MAX), tangent: Point::new(ONE, 0) };
    let farther = Sample { point: Point::new(i64::MAX, i64::MAX), tangent: Point::new(0, ONE) };
    assert!(is_curved(far.tangent, farther.tangent));
    assert_eq!(control_point(&plot, &far, &farther), straight());
    let mesh = tessellate(&plot, &vec![far, farther]).unwrap();
    assert_eq!(mesh.controls[0].point, straight());
}

#[test]
fn a_kink_has_its_control_point_at_the_kink() {
    let plot = unit_square_plot();
    let before = Sample { point: Point::new(-ONE / 2, 0), tangent: Point::new(ONE, 0) };
    let after = Sample { point: Point::new(0, ONE / 2), tangent: Point::new(0, ONE) };
    // the horizontal through (-0.5, 0) meets the vertical through (0, 0.5) at the origin
    assert_eq!(control_point(&plot, &before, &after), Point::new(0, 0));
}
