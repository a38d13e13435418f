use bevy_plot::{plot_segments, Ends, Plot, PlotError, Point, Position, ONE};

fn unit_square_plot() -> Plot {
    let mut plot = Plot::new(Point::new(800 * ONE, 600 * ONE), Point::zero(), Point::zero()).unwrap();
    plot.set_bounds(Point::new(-ONE, -ONE), Point::new(ONE, ONE)).unwrap();
    plot
}

#[test]
fn segments_need_two_points() {
    let plot = unit_square_plot();
    assert_eq!(plot_segments(&plot, &vec![]).err(), Some(PlotError::InsufficientSamples));
    assert_eq!(plot_segments(&plot, &vec![Point::zero()]).err(), Some(PlotError::InsufficientSamples));
}

#[test]
fn each_segment_has_a_quad_around_it() {
    let plot = unit_square_plot();
    let data = vec![Point::new(-ONE, -ONE), Point::new(0, ONE / 2), Point::new(ONE, ONE / 2)];
    let mesh = plot_segments(&plot, &data).unwrap();
    assert_eq!(mesh.positions.len(), 8);
    assert_eq!(mesh.indices, vec![0, 1, 2, 3, 2, 1, 4, 5, 6, 7, 6, 5]);
    let corners = [
        Point::new(-407_058_865_785, -300_415_227_405),
        Point::new(-399_584_772_595, -307_058_865_785),
        Point::new(-415_227_405, 157_058_865_785),
        Point::new(7_058_865_785, 150_415_227_405),
        Point::new(-5 * ONE, 155 * ONE),
        Point::new(-5 * ONE, 145 * ONE),
        Point::new(405 * ONE, 155 * ONE),
        Point::new(405 * ONE, 145 * ONE),
    ];
    let on_screen = [Point::new(-400 * ONE, -300 * ONE), Point::new(0, 150 * ONE), Point::new(400 * ONE, 150 * ONE)];
    for v in 0..8 {
        assert_eq!(mesh.uvs[v], corners[v], "vertex {}", v);
        assert_eq!(mesh.positions[v], Position { x: corners[v].x, y: corners[v].y, z: 0 });
        assert_eq!(mesh.normals[v], Position { x: 0, y: 0, z: ONE });
        assert_eq!(mesh.ends[v], Ends { start: on_screen[v / 4], end: on_screen[v / 4 + 1] });
        assert_eq!(mesh.controls[v], Ends { start: corners[v / 4 * 4], end: corners[v / 4 * 4 + 1] });
    }
}

#[test]
fn a_segment_without_length_has_a_quad_without_size() {
    let plot = unit_square_plot();
    let mesh = plot_segments(&plot, &vec![Point::new(0, 0), Point::new(0, 0)]).unwrap();
    for v in 0..4 {
        assert_eq!(mesh.uvs[v], Point::zero());
    }
}
