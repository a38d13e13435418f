use bevy_plot::canvas::{within, SCALE_MAX, SCALE_MIN};
use bevy_plot::interaction::HOVER_RADIUS;
use bevy_plot::{Corner, Cursor, GraphSprite, Plot, PlotError, Point, ResizePlotWindow, ZoomAxes, ONE};

fn sprite() -> GraphSprite {
    GraphSprite {
        position: Point::new(100 * ONE, -50 * ONE),
        previous_position: Point::new(100 * ONE, -50 * ONE),
        original_size: Point::new(800 * ONE, 600 * ONE),
        scale: Point::new(ONE, ONE / 2),
        previous_scale: Point::new(ONE, ONE),
        hover_radius: 20 * ONE,
    }
}

#[test]
fn size_is_the_original_size_times_the_scale() {
    assert_eq!(sprite().size(), Point::new(800 * ONE, 300 * ONE));
}

#[test]
fn within_rect_is_strict_at_the_edges() {
    let s = sprite();
    assert!(s.within_rect(Point::new(100 * ONE, -50 * ONE)));
    assert!(s.within_rect(Point::new(500 * ONE - 1, 100 * ONE - 1)));
    assert!(!s.within_rect(Point::new(500 * ONE, 0)));
    assert!(!s.within_rect(Point::new(0, 100 * ONE)));
    assert!(s.within_rect(Point::new(-300 * ONE + 1, -200 * ONE + 1)));
    assert!(!s.within_rect(Point::new(-300 * ONE, 0)));
    assert!(!s.within_rect(Point::new(0, -200 * ONE)));
    assert!(!within(Point::zero(), Point::zero(), Point::zero()));
    assert!(!within(Point::zero(), Point::new(-10, -10), Point::zero()));
}

#[test]
fn within_rect_at_the_ends_of_the_range() {
    let centre = Point::new(i64::MAX, i64::MIN);
    let size = Point::new(i64::MAX, i64::MAX);
    assert!(within(centre, size, Point::new(i64::MAX, i64::MIN)));
    assert!(!within(centre, size, Point::new(0, 0)));
}

#[test]
fn a_click_near_a_corner_begins_a_resize() {
    let s = sprite();
    let top_right = Point::new(500 * ONE, 100 * ONE);
    let near = Point::new(500 * ONE - 12 * ONE, 100 * ONE + 15 * ONE);
    assert_eq!(
        s.clicked_on_plot_corner(near),
        Some(ResizePlotWindow {
            corner: Corner::TopRight,
            previous_position: s.position,
            previous_scale: s.scale,
        })
    );
    assert_eq!(s.clicked_on_plot_corner(top_right).unwrap().corner, Corner::TopRight);
    assert_eq!(s.clicked_on_plot_corner(Point::new(-300 * ONE, 100 * ONE)).unwrap().corner, Corner::TopLeft);
    assert_eq!(s.clicked_on_plot_corner(Point::new(-300 * ONE, -200 * ONE)).unwrap().corner, Corner::BottomLeft);
    assert_eq!(s.clicked_on_plot_corner(Point::new(500 * ONE, -200 * ONE)).unwrap().corner, Corner::BottomRight);
    assert_eq!(s.clicked_on_plot_corner(s.position), None);
}

#[test]
fn the_hover_radius_is_strict() {
    let s = sprite();
    // 12, 16 and 20 make a right triangle
    assert_eq!(s.clicked_on_plot_corner(Point::new(512 * ONE, 116 * ONE)), None);
    assert!(s.clicked_on_plot_corner(Point::new(512 * ONE, 116 * ONE - 1)).is_some());
    assert!(!s.holds(Corner::TopRight, Point::new(520 * ONE, 100 * ONE)));
    assert!(s.holds(Corner::TopRight, Point::new(520 * ONE - 1, 100 * ONE)));
    let mut dull = s;
    dull.hover_radius = 0;
    assert!(!dull.holds(Corner::TopRight, Point::new(500 * ONE, 100 * ONE)));
    dull.hover_radius = -ONE;
    assert!(!dull.holds(Corner::TopRight, Point::new(500 * ONE, 100 * ONE)));
    dull.hover_radius = i64::MAX;
    assert!(dull.holds(Corner::TopRight, Point::new(0, 0)));
    assert!(!dull.holds(Corner::TopRight, Point::new(i64::MIN, i64::MIN)));
}

#[test]
fn corners_that_overlap_are_taken_in_a_fixed_order() {
    let mut s = sprite();
    s.scale = Point::new(0, 0);
    // all four corners are at the centre
    assert_eq!(s.clicked_on_plot_corner(s.position).unwrap().corner, Corner::BottomRight);
    assert_eq!(s.hovered_on_plot_edges(s.position), Some(Corner::BottomRight));
    s.original_size = Point::new(0, 30 * ONE);
    s.scale = Point::new(ONE, ONE);
    // left and right corners coincide
    let top = Point::new(100 * ONE, -35 * ONE);
    let bottom = Point::new(100 * ONE, -65 * ONE);
    assert_eq!(s.clicked_on_plot_corner(top).unwrap().corner, Corner::TopLeft);
    assert_eq!(s.hovered_on_plot_edges(top), Some(Corner::TopRight));
    assert_eq!(s.clicked_on_plot_corner(bottom).unwrap().corner, Corner::BottomRight);
    assert_eq!(s.hovered_on_plot_edges(bottom), Some(Corner::BottomRight));
}

#[test]
fn hovering_away_from_the_corners_shows_the_default_cursor() {
    let s = sprite();
    assert_eq!(s.hovered_on_plot_edges(s.position), None);
    assert_eq!(s.hovered_on_plot_edges(Point::new(-300 * ONE + 5, 100 * ONE - 5)), Some(Corner::TopLeft));
    assert_eq!(s.hovered_on_plot_edges(Point::new(-300 * ONE, -200 * ONE)), Some(Corner::BottomLeft));
}

#[test]
fn a_drag_scales_away_from_the_centre() {
    let drag = Point::new(70 * ONE, -35 * ONE);
    let scale_for = |corner| {
        ResizePlotWindow { corner, previous_position: Point::zero(), previous_scale: Point::new(ONE, 2 * ONE) }
            .scale_for(drag)
    };
    assert_eq!(scale_for(Corner::TopRight), Point::new(1_200_000_000, 1_900_000_000));
    assert_eq!(scale_for(Corner::TopLeft), Point::new(800_000_000, 1_900_000_000));
    assert_eq!(scale_for(Corner::BottomRight), Point::new(1_200_000_000, 2_100_000_000));
    assert_eq!(scale_for(Corner::BottomLeft), Point::new(800_000_000, 2_100_000_000));
}

#[test]
fn the_scale_stays_between_a_tenth_and_ten() {
    let resize = ResizePlotWindow {
        corner: Corner::TopRight,
        previous_position: Point::zero(),
        previous_scale: Point::new(ONE, ONE),
    };
    assert_eq!(resize.scale_for(Point::new(i64::MAX, i64::MIN)), Point::new(SCALE_MAX, SCALE_MIN));
    assert_eq!(resize.scale_for(Point::new(-315 * ONE, 3150 * ONE)), Point::new(ONE / 10, 10 * ONE));
    assert_eq!(resize.scale_for(Point::new(-315 * ONE + 350, 3150 * ONE - 350)), Point::new(ONE / 10 + 1, 10 * ONE - 1));
    assert_eq!(SCALE_MIN, ONE / 10);
    assert_eq!(SCALE_MAX, 10 * ONE);
}

#[test]
fn resizing_scales_the_rectangle_and_the_canvas_of_the_plot() {
    let mut plot = Plot::new(Point::new(800 * ONE, 600 * ONE), Point::zero(), Point::zero()).unwrap();
    let mut canvas = plot.make_canvas();
    assert_eq!(canvas.original_size, Point::new(800 * ONE, 600 * ONE));
    assert_eq!(canvas.scale, Point::new(ONE, ONE));
    assert_eq!(canvas.hover_radius, HOVER_RADIUS);
    assert_eq!(HOVER_RADIUS, 20 * ONE);
    let resize = canvas.clicked_on_plot_corner(Point::new(400 * ONE, 300 * ONE)).unwrap();
    assert_eq!(plot.adjust_graph_size(&mut canvas, &resize, Point::new(175 * ONE, 350 * ONE)), Ok(()));
    assert_eq!(canvas.scale, Point::new(1_500_000_000, 2 * ONE));
    assert_eq!(plot.canvas_size, Point::new(1200 * ONE, 1200 * ONE));
    assert!(plot.is_wf());
    assert_eq!(canvas.previous_scale, Point::new(ONE, ONE));
    canvas.release();
    assert_eq!(canvas.previous_scale, Point::new(1_500_000_000, 2 * ONE));
}

#[test]
fn a_resize_that_leaves_no_inner_region_is_refused() {
    let mut plot = Plot::new(Point::new(5, 5), Point::zero(), Point::zero()).unwrap();
    let before = plot.clone();
    let mut canvas = plot.make_canvas();
    let resize = ResizePlotWindow {
        corner: Corner::BottomLeft,
        previous_position: Point::zero(),
        previous_scale: Point::new(ONE, ONE),
    };
    // a scale of a tenth leaves half a unit
    assert_eq!(
        plot.adjust_graph_size(&mut canvas, &resize, Point::new(350 * ONE, 350 * ONE)),
        Err(PlotError::InvalidCanvas)
    );
    assert_eq!(canvas.scale, Point::new(ONE / 10, ONE / 10));
    assert_eq!(plot, before);
    assert_eq!(plot.set_canvas_size(Point::new(0, 7)), Err(PlotError::InvalidCanvas));
    assert_eq!(plot.set_outer_border(Point::new(0, -1)), Err(PlotError::InvalidCanvas));
    assert_eq!(plot, before);
}

#[test]
fn canvas_changes_refresh_the_origin() {
    let mut plot = Plot::new(Point::new(800 * ONE, 600 * ONE), Point::zero(), Point::zero()).unwrap();
    plot.set_bounds(Point::new(0, 0), Point::new(ONE, ONE)).unwrap();
    assert_eq!(plot.zero_world, Point::new(-400 * ONE, -300 * ONE));
    assert_eq!(plot.set_canvas_size(Point::new(400 * ONE, 200 * ONE)), Ok(()));
    assert_eq!(plot.zero_world, Point::new(-200 * ONE, -100 * ONE));
    assert_eq!(plot.set_outer_border(Point::new(ONE, 3 * ONE)), Ok(()));
    assert_eq!(plot.inner_size(), Point::new(200 * ONE, 50 * ONE));
    assert_eq!(plot.zero_world, Point::new(-100 * ONE, -25 * ONE));
    plot.set_canvas_position(Point::new(7, 9));
    assert_eq!(plot.zero_world, Point::new(-100 * ONE, -25 * ONE));
    assert!(plot.is_wf());
}

#[test]
fn the_cursor_remembers_where_it_was_pressed() {
    let mut cursor = Cursor::default();
    assert_eq!(cursor.position, Point::zero());
    cursor.moved(Point::new(10, 20));
    assert_eq!(cursor.pos_relative_to_click, Point::new(10, 20));
    cursor.pressed();
    assert_eq!(cursor.last_click_position, Point::new(10, 20));
    assert_eq!(cursor.pos_relative_to_click, Point::zero());
    cursor.moved(Point::new(15, 5));
    assert_eq!(cursor.position, Point::new(15, 5));
    assert_eq!(cursor.pos_relative_to_click, Point::new(5, -15));
    assert_eq!(cursor.last_click_position, Point::new(10, 20));
}

#[test]
fn mouse_movements_of_a_frame_are_summed() {
    let mut plot = Plot::new(Point::new(800 * ONE, 600 * ONE), Point::zero(), Point::zero()).unwrap();
    plot.set_bounds(Point::new(-ONE, -ONE), Point::new(ONE, ONE)).unwrap();
    let before = plot.clone();
    assert!(!plot.drag_axes(&vec![]));
    assert!(!plot.drag_axes(&vec![Point::new(5, -5), Point::new(-5, 5)]));
    assert_eq!(plot, before);
    assert!(plot.drag_axes(&vec![Point::new(50 * ONE, 0), Point::new(30 * ONE, 60 * ONE)]));
    assert_eq!(plot.bounds.lower, Point::new(-1_200_000_000, -800_000_000));
}

#[test]
fn the_wheel_zooms_about_the_mouse() {
    let mut plot = Plot::new(Point::new(800 * ONE, 600 * ONE), Point::zero(), Point::zero()).unwrap();
    plot.set_bounds(Point::new(0, 0), Point::new(10 * ONE, 10 * ONE)).unwrap();
    plot.track_mouse(Point::new(0, 0));
    assert_eq!(plot.plot_coord_mouse_pos, Point::new(5 * ONE, 5 * ONE));
    assert!(plot.apply_zoom(&ZoomAxes { wheel_dir: -ONE, mouse_pos: Point::zero() }));
    assert_eq!(plot.bounds.lower, Point::new(500_000_000, 500_000_000));
    assert_eq!(plot.bounds.upper, Point::new(9_500_000_000, 9_500_000_000));
}

#[test]
fn dragging_changes_the_tick_period() {
    let mut plot = Plot::new(Point::new(800 * ONE, 600 * ONE), Point::zero(), Point::zero()).unwrap();
    plot.set_bounds(Point::new(-ONE, -ONE), Point::new(ONE, ONE)).unwrap();
    assert_eq!(plot.tick_period, Point::new(200_000_000, 200_000_000));
    plot.drag_tick_period(Point::new(100 * ONE, -100 * ONE));
    assert_eq!(plot.tick_period, Point::new(220_000_000, 180_000_000));
    // a fifteenth of the range is the least period
    plot.drag_tick_period(Point::new(-900 * ONE, -2000 * ONE));
    assert_eq!(plot.tick_period, Point::new(133_333_333, 133_333_333));
}

#[test]
fn the_target_is_placed_under_the_mouse() {
    let mut plot =
        Plot::new(Point::new(800 * ONE, 600 * ONE), Point::new(100 * ONE, -50 * ONE), Point::zero()).unwrap();
    plot.set_bounds(Point::new(-ONE, -ONE), Point::new(ONE, ONE)).unwrap();
    assert!(!plot.target_shown());
    plot.show_target = true;
    plot.toggle_target();
    assert!(plot.target_shown());
    let on_screen = plot.place_target(Point::new(200 * ONE, 100 * ONE));
    assert_eq!(plot.target_position, Point::new(250_000_000, 500_000_000));
    assert_eq!(on_screen, Point::new(200 * ONE, 100 * ONE));
    assert_eq!(plot.target_on_screen(), on_screen);
    plot.toggle_target();
    assert!(!plot.target_shown());
}
