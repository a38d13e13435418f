use bevy_plot::{Plot, PlotError, Point, Position, TargetLabel, TickLabel, ONE};

fn unit_square_plot() -> Plot {
    let mut plot = Plot::new(Point::new(800 * ONE, 600 * ONE), Point::zero(), Point::zero()).unwrap();
    plot.set_bounds(Point::new(-ONE, -ONE), Point::new(ONE, ONE)).unwrap();
    plot
}

#[test]
fn every_other_tick_is_labelled() {
    let plot = unit_square_plot();
    let (across, up) = plot.update_plot_labels(Point::new(800 * ONE, 600 * ONE), 16 * ONE).unwrap();
    let values = [-800_000_000, -400_000_000, 0, 400_000_000, 800_000_000];
    let along_x = [-316_800_000_000, -156_800_000_000, 3_200_000_000, 163_200_000_000, 323_200_000_000];
    let along_y = [-240 * ONE, -120 * ONE, 0, 120 * ONE, 240 * ONE];
    assert_eq!(across.len(), 5);
    assert_eq!(up.len(), 5);
    for i in 0..5 {
        assert_eq!(
            across[i],
            TickLabel {
                value: values[i],
                scientific: false,
                position: Position { x: along_x[i], y: -300 * ONE, z: 1_000_100_000 },
            }
        );
        assert_eq!(
            up[i],
            TickLabel {
                value: values[i],
                scientific: false,
                position: Position { x: -396_800_000_000, y: along_y[i], z: 100_000 },
            }
        );
    }
}

#[test]
fn all_ticks_are_labelled_on_demand_but_those_at_the_ends() {
    let mut plot = unit_square_plot();
    plot.hide_half_ticks = false;
    let (across, _) = plot.update_plot_labels(Point::new(800 * ONE, 600 * ONE), 16 * ONE).unwrap();
    let values: Vec<i64> = across.iter().map(|label| label.value).collect();
    assert_eq!(
        values,
        vec![-800_000_000, -600_000_000, -400_000_000, -200_000_000, 0, 200_000_000, 400_000_000, 600_000_000, 800_000_000]
    );
}

#[test]
fn large_values_are_written_with_an_exponent() {
    let mut plot = unit_square_plot();
    plot.set_bounds(Point::new(0, 0), Point::new(5000 * ONE, 5000 * ONE)).unwrap();
    plot.tick_period = Point::new(1000 * ONE, 1000 * ONE);
    plot.hide_half_ticks = false;
    let (across, _) = plot.update_plot_labels(Point::new(800 * ONE, 600 * ONE), 16 * ONE).unwrap();
    let expected: Vec<TickLabel> = [(1000, -236_800_000_000i64), (2000, -76_800_000_000), (3000, 83_200_000_000), (4000, 243_200_000_000)]
        .iter()
        .map(|&(value, x)| TickLabel {
            value: value * ONE,
            scientific: true,
            position: Position { x, y: -300 * ONE, z: 1_000_100_000 },
        })
        .collect();
    assert_eq!(across, expected);
}

#[test]
fn no_labels_without_a_positive_tick_period() {
    let mut plot = unit_square_plot();
    plot.tick_period = Point::new(0, -5);
    let (across, up) = plot.update_plot_labels(Point::new(800 * ONE, 600 * ONE), 16 * ONE).unwrap();
    assert!(across.is_empty() && up.is_empty());
}

#[test]
fn labels_need_a_canvas_with_an_inner_region() {
    let plot = unit_square_plot();
    assert_eq!(plot.update_plot_labels(Point::new(0, 600 * ONE), 16 * ONE).err(), Some(PlotError::InvalidCanvas));
}

#[test]
fn the_target_label_sits_right_of_and_above_the_target() {
    let mut plot = unit_square_plot();
    assert_eq!(plot.update_target(16 * ONE), None);
    plot.show_target = true;
    plot.toggle_target();
    plot.place_target(Point::new(200 * ONE, 100 * ONE));
    assert_eq!(
        plot.update_target(16 * ONE),
        Some(TargetLabel {
            value: Point::new(500_000_000, 333_333_333),
            scientific_x: false,
            scientific_y: false,
            position: Position { x: 206_400_000_000, y: 103_519_999_900, z: 1_200_000_000 },
        })
    );
}

#[test]
fn the_target_label_moves_left_near_the_right_edge() {
    let mut plot = unit_square_plot();
    plot.show_target = true;
    plot.toggle_target();
    plot.place_target(Point::new(390 * ONE, 0));
    let label = plot.update_target(16 * ONE).unwrap();
    // 390 + 3.2 is within 16 of the edge at 400: 6.4 to the left, then 3.2 to the right
    assert_eq!(label.position.x, 390 * ONE);
    assert_eq!(label.position.y, 3_520_000_000);
    assert!(label.scientific_y && !label.scientific_x);
}

#[test]
fn the_target_label_is_hidden_near_the_upper_and_lower_edge() {
    let mut plot = unit_square_plot();
    plot.show_target = true;
    plot.toggle_target();
    plot.place_target(Point::new(0, 280 * ONE));
    assert_eq!(plot.update_target(16 * ONE), None);
    plot.place_target(Point::new(0, -301 * ONE));
    assert_eq!(plot.update_target(16 * ONE), None);
    // a fifth of the font size above the lower edge the label still fits
    plot.place_target(Point::new(0, -300 * ONE));
    assert!(plot.update_target(16 * ONE).is_some());
    plot.toggle_target();
    assert_eq!(plot.update_target(16 * ONE), None);
}
