use bevy_plot::plotting::{asks_markers, bounding_box, hides_line, padded};
use bevy_plot::{
    make_color_palette, plot_points, BezierCurveUniform, BezierData, CanvasMaterial, Color, LineStyle,
    MarkerData, MarkerStyle, MarkerUniform, Opt, Plot, PlotBounds, PlotColor, PlotData, PlotError,
    Plotable, Point, Position, SegmentData, SegmentUniform, ONE,
};

fn plot_800_600() -> Plot {
    Plot::new(Point::new(800 * ONE, 600 * ONE), Point::zero(), Point::zero()).unwrap()
}

#[test]
fn marker_styles_have_their_shader_numbers() {
    let expected = [
        (MarkerStyle::Hidden, -1),
        (MarkerStyle::Square, 0),
        (MarkerStyle::Heart, 1),
        (MarkerStyle::Rhombus, 2),
        (MarkerStyle::Triangle, 3),
        (MarkerStyle::Star, 4),
        (MarkerStyle::Moon, 5),
        (MarkerStyle::Cross, 6),
        (MarkerStyle::X, 7),
        (MarkerStyle::Circle, 8),
    ];
    for (style, number) in expected {
        assert_eq!(style.to_int32(), number);
    }
}

#[test]
fn line_styles_have_their_shader_numbers() {
    assert_eq!(LineStyle::Hidden.to_int32(), -1);
    assert_eq!(LineStyle::Solid.to_int32(), 0);
}

#[test]
fn hex_colours_have_channels_of_255ths() {
    assert_eq!(
        Color::hex(0x8eb274),
        Color { red: 556_862_745, green: 698_039_215, blue: 454_901_960, alpha: ONE }
    );
    assert_eq!(Color::hex(0), Color::black());
    assert_eq!(Color::hex(0xffffff), Color::rgb(ONE, ONE, ONE));
    assert_eq!(Color::hex(0xff00_0001), Color::rgb(0, 0, 3_921_568));
    assert_eq!(Color::gray(), Color::rgba(ONE / 2, ONE / 2, ONE / 2, ONE));
}

#[test]
fn the_palette_has_six_shades_of_twelve_colours() {
    let palette = make_color_palette();
    assert_eq!(palette.len(), 12);
    for shades in palette.iter() {
        assert_eq!(shades.len(), 6);
    }
    assert_eq!(PlotColor::Gray.index(), 0);
    assert_eq!(PlotColor::Yellow.index(), 11);
    for i in 0..12 {
        let color = PlotColor::at(i).unwrap();
        assert_eq!(color.index(), i);
        assert_eq!(palette[i], color.shades());
    }
    assert_eq!(PlotColor::at(12), None);
    assert_eq!(palette[PlotColor::Gray.index()][0], Color::hex(0xd4d2dd));
    assert_eq!(palette[PlotColor::Black.index()][5], Color::hex(0x111111));
    assert_eq!(palette[PlotColor::LightPink.index()][1], Color::hex(0xd08693));
    assert_eq!(palette[PlotColor::Pink.index()][2], Color::hex(0xe74479));
    assert_eq!(palette[PlotColor::Violet.index()][3], Color::hex(0x9d71a2));
    assert_eq!(palette[PlotColor::Blue.index()][4], Color::hex(0x3b6d90));
    assert_eq!(palette[PlotColor::Green.index()][3], Color::hex(0x8eb274));
    assert_eq!(palette[PlotColor::Salmon.index()][0], Color::hex(0xf96960));
    assert_eq!(palette[PlotColor::Orange.index()][1], Color::hex(0xffaf6a));
    assert_eq!(palette[PlotColor::Latte.index()][5], Color::hex(0xb38e62));
    assert_eq!(palette[PlotColor::Cream.index()][2], Color::hex(0xf5e9d9));
    assert_eq!(palette[PlotColor::Yellow.index()][5], Color::hex(0xd8a600));
}

#[test]
fn groups_have_their_default_look() {
    assert_eq!(
        BezierData::default(),
        BezierData {
            size: ONE,
            line_style: LineStyle::Solid,
            color: Color::rgb(200_000_000, 300_000_000, 800_000_000),
            mech: false,
            num_points: 256,
            show_animation: false,
        }
    );
    assert_eq!(
        MarkerData::default(),
        MarkerData {
            data: vec![],
            color: Color::rgb(500_000_000, 500_000_000, 100_000_000),
            marker_point_color: Color::rgb(200_000_000, 300_000_000, 800_000_000),
            marker_style: MarkerStyle::Circle,
            size: ONE,
            draw_contour: false,
        }
    );
    assert_eq!(
        SegmentData::default(),
        SegmentData {
            data: vec![],
            color: Color::hex(0x8eb274),
            size: ONE,
            line_style: LineStyle::Solid,
            draw_contour: false,
            mech: false,
        }
    );
    let data = PlotData::default();
    assert!(data.marker_groups.is_empty() && data.segment_groups.is_empty() && data.bezier_groups.is_empty());
}

#[test]
fn whole_numbers_become_fixed_point_points() {
    let expected = vec![Point::new(ONE, 2 * ONE), Point::new(3 * ONE, 4 * ONE)];
    assert_eq!(vec![(1i64, 2i64), (3, 4)].into_plot_format().data, expected);
    assert_eq!(vec![(1i32, 2i32), (3, 4)].into_plot_format().data, expected);
    assert_eq!(vec![(1i16, 2i16), (3, 4)].into_plot_format().data, expected);
    assert_eq!(vec![(1i8, 2i8), (3, 4)].into_plot_format().data, expected);
    assert_eq!(vec![(1u8, 2u8), (3, 4)].into_plot_format().data, expected);
    assert_eq!(vec![(1u16, 2u16), (3, 4)].into_plot_format().data, expected);
    assert_eq!(vec![(1u32, 2u32), (3, 4)].into_plot_format().data, expected);
    assert_eq!(vec![(1u64, 2u64), (3, 4)].into_plot_format().data, expected);
    assert_eq!(vec![(1usize, 2usize), (3, 4)].into_plot_format().data, expected);
    assert_eq!(expected.into_plot_format().data, expected);
    assert_eq!(vec![(-1i32, i32::MIN)].into_plot_format().data, vec![Point::new(-ONE, -2_147_483_648 * ONE)]);
    assert_eq!(vec![(u64::MAX, 0u64)].into_plot_format().data, vec![Point::new(i64::MAX, 0)]);
    assert_eq!(vec![(i64::MIN, i64::MAX)].into_plot_format().data, vec![Point::new(i64::MIN, i64::MAX)]);
}

#[test]
fn values_are_plotted_against_their_place() {
    assert_eq!(
        vec![5i64, -7, 9].into_plot_format().data,
        vec![Point::new(0, 5), Point::new(ONE, -7), Point::new(2 * ONE, 9)]
    );
    assert_eq!(Vec::<i64>::new().into_plot_format().data, vec![]);
}

#[test]
fn the_bounding_box_goes_through_the_outermost_points() {
    let data = vec![Point::new(3, -4), Point::new(-2, 8), Point::new(7, 0), Point::new(0, -9)];
    assert_eq!(
        bounding_box(&data),
        Some(PlotBounds { lower: Point::new(-2, -9), upper: Point::new(7, 8) })
    );
    assert_eq!(
        bounding_box(&vec![Point::new(5, 6)]),
        Some(PlotBounds { lower: Point::new(5, 6), upper: Point::new(5, 6) })
    );
    assert_eq!(bounding_box(&vec![]), None);
}

#[test]
fn the_margin_is_a_tenth_of_the_extent() {
    let b = PlotBounds { lower: Point::new(0, -50), upper: Point::new(29 * ONE / 30, 55) };
    assert_eq!(
        padded(&b),
        PlotBounds { lower: Point::new(-96_666_666, -60), upper: Point::new(1_063_333_332, 65) }
    );
    let widest = PlotBounds { lower: Point::new(i64::MIN, 0), upper: Point::new(i64::MAX, 9) };
    assert_eq!(
        padded(&widest),
        PlotBounds { lower: Point::new(i64::MIN, 0), upper: Point::new(i64::MAX, 9) }
    );
}

#[test]
fn plot_fits_the_bounds_and_adds_segments() {
    let mut plot = plot_800_600();
    let data: Vec<Point> = (0..30).map(|i| Point::new(i * ONE / 30, i * ONE / 60)).collect();
    assert_eq!(plot.plot(&data), Ok(()));
    assert_eq!(plot.bounds.lower, Point::new(-96_666_666, -48_333_333));
    assert_eq!(plot.bounds.upper, Point::new(1_063_333_332, 531_666_666));
    assert_eq!(plot.tick_period, Point::new(100_000_000, 50_000_000));
    assert!(plot.is_wf());
    assert_eq!(plot.data.segment_groups, vec![SegmentData { data: data.clone(), ..SegmentData::default() }]);
    assert!(plot.data.marker_groups.is_empty() && plot.data.bezier_groups.is_empty());
}

#[test]
fn plot_on_a_default_plot_pads_the_box_of_the_data() {
    let mut plot = Plot::default();
    let data = vec![Point::new(0, 0), Point::new(10 * ONE, 20 * ONE)];
    assert_eq!(plot.plot(&data), Ok(()));
    assert_eq!(plot.bounds.lower, Point::new(-ONE, -2 * ONE));
    assert_eq!(plot.bounds.upper, Point::new(11 * ONE, 22 * ONE));
    assert_eq!(plot.tick_period, Point::new(ONE, 2 * ONE));
    assert_eq!(plot.data.segment_groups.len(), 1);
    assert_eq!(plot.data.segment_groups[0].data, data);
    assert!(plot.is_wf());
    // data with extent on both axes is never refused
    assert_eq!(plot.plotm(&vec![Point::new(i64::MIN, i64::MIN), Point::new(i64::MAX, i64::MAX)]), Ok(()));
    assert_eq!(plot.plot(&vec![Point::new(5, 5), Point::new(6, 6)]), Ok(()));
}

#[test]
fn plotm_fits_the_bounds_and_adds_markers() {
    let mut plot = plot_800_600();
    let data = vec![(0i32, 0i32), (10, 100)];
    assert_eq!(plot.plotm(&data), Ok(()));
    assert_eq!(plot.bounds.lower, Point::new(-ONE, -10 * ONE));
    assert_eq!(plot.bounds.upper, Point::new(11 * ONE, 110 * ONE));
    assert_eq!(
        plot.data.marker_groups,
        vec![MarkerData { data: vec![Point::new(0, 0), Point::new(10 * ONE, 100 * ONE)], ..MarkerData::default() }]
    );
    assert!(plot.data.segment_groups.is_empty());
}

#[test]
fn plot_without_data_or_extent_changes_nothing() {
    let mut plot = plot_800_600();
    let before = plot.clone();
    assert_eq!(plot.plot(&Vec::<Point>::new()), Err(PlotError::InsufficientSamples));
    assert_eq!(plot.plotm(&Vec::<Point>::new()), Err(PlotError::InsufficientSamples));
    // no extent along the horizontal axis
    assert_eq!(plot.plot(&vec![Point::new(5, 0), Point::new(5, 9)]), Err(PlotError::InvalidBounds));
    assert_eq!(plot.plotm(&vec![Point::new(5, 9)]), Err(PlotError::InvalidBounds));
    assert_eq!(plot, before);
}

#[test]
fn plotopt_takes_the_options_of_segments_and_of_markers() {
    let mut plot = plot_800_600();
    let before = plot.clone();
    let data = vec![Point::new(0, 0), Point::new(ONE, ONE)];
    let red = Color::rgb(ONE, 0, 0);
    let blue = Color::rgb(0, 0, ONE);
    let options = vec![
        Opt::Color(red),
        Opt::Size(2 * ONE),
        Opt::Mech(true),
        Opt::MarkerStyle(MarkerStyle::Star),
        Opt::MarkerSize(5 * ONE),
        Opt::MarkerColor(blue),
        Opt::MarkerInnerPointColor(red),
        Opt::Contour(true),
        Opt::Color(blue),
        Opt::NumPoints(7),
        Opt::Animate(true),
    ];
    plot.plotopt(&data, &options);
    assert_eq!(
        plot.data.segment_groups,
        vec![SegmentData {
            data: data.clone(),
            color: blue,
            size: 2 * ONE,
            line_style: LineStyle::Solid,
            draw_contour: false,
            mech: true,
        }]
    );
    assert_eq!(
        plot.data.marker_groups,
        vec![MarkerData {
            data: data.clone(),
            color: blue,
            marker_point_color: red,
            marker_style: MarkerStyle::Star,
            size: 2 * ONE,
            draw_contour: true,
        }]
    );
    // the bounds stay
    assert_eq!(plot.bounds, before.bounds);
    assert_eq!(plot.tick_period, before.tick_period);
}

#[test]
fn plotopt_hides_the_line_and_draws_markers_only_if_asked() {
    let data = vec![Point::new(0, 0), Point::new(ONE, ONE)];
    let mut plot = plot_800_600();
    plot.plotopt(&data, &vec![Opt::LineStyle(LineStyle::Hidden), Opt::MarkerSize(ONE / 10)]);
    assert!(plot.data.segment_groups.is_empty());
    assert_eq!(plot.data.marker_groups.len(), 1);
    assert_eq!(plot.data.marker_groups[0].size, ONE / 5);

    let mut plot = plot_800_600();
    plot.plotopt(&data, &vec![Opt::MarkerColor(Color::black()), Opt::Contour(true)]);
    assert_eq!(plot.data.segment_groups.len(), 1);
    assert!(plot.data.marker_groups.is_empty());

    let mut plot = plot_800_600();
    plot.plotopt(&data, &vec![]);
    assert_eq!(plot.data.segment_groups, vec![SegmentData { data: data.clone(), ..SegmentData::default() }]);
    assert!(plot.data.marker_groups.is_empty());

    assert!(hides_line(&vec![Opt::Mech(true), Opt::LineStyle(LineStyle::Hidden)]));
    assert!(!hides_line(&vec![Opt::LineStyle(LineStyle::Solid)]));
    assert!(asks_markers(&vec![Opt::MarkerStyle(MarkerStyle::Hidden)]));
    assert!(asks_markers(&vec![Opt::Size(1), Opt::MarkerSize(1)]));
    assert!(!asks_markers(&vec![Opt::MarkerColor(Color::black())]));
}

#[test]
fn function_plots_are_numbered_in_their_order() {
    let mut plot = plot_800_600();
    assert_eq!(plot.plot_func(), 0);
    let red = Color::rgb(ONE, 0, 0);
    let options = vec![
        Opt::Size(ONE / 2),
        Opt::Color(red),
        Opt::Animate(true),
        Opt::LineStyle(LineStyle::Hidden),
        Opt::Mech(true),
        Opt::MarkerSize(ONE),
        Opt::NumPoints(3),
    ];
    assert_eq!(plot.plotopt_func(&options), 1);
    assert_eq!(
        plot.data.bezier_groups,
        vec![
            BezierData::default(),
            BezierData {
                size: ONE / 2,
                line_style: LineStyle::Hidden,
                color: red,
                mech: true,
                num_points: 256,
                show_animation: true,
            },
        ]
    );
    assert!(BezierData::accepts(&Opt::Animate(false)));
    assert!(!BezierData::accepts(&Opt::MarkerSize(ONE)));
    assert!(!BezierData::accepts(&Opt::NumPoints(3)));
}

#[test]
fn the_canvas_material_follows_the_plot() {
    let mut plot =
        Plot::new(Point::new(800 * ONE, 600 * ONE), Point::new(100 * ONE, -50 * ONE), Point::zero()).unwrap();
    plot.set_bounds(Point::new(-ONE, -ONE), Point::new(ONE, ONE)).unwrap();
    plot.show_target = true;
    let mut material = CanvasMaterial::new(&plot);
    assert_eq!(material.position, Point::new(100 * ONE, -50 * ONE));
    assert_eq!(material.bound_lo, Point::new(-ONE, -ONE));
    assert_eq!(material.bound_up, Point::new(ONE, ONE));
    assert_eq!(material.tick_period, Point::new(200_000_000, 200_000_000));
    assert_eq!((material.time, material.zoom), (0, ONE));
    assert_eq!((material.show_target, material.hide_contour), (0, 0));
    assert_eq!((material.show_grid, material.show_axes), (ONE, ONE));
    assert_eq!(material.target_pos, Point::zero());
    assert_eq!(material.background_color1, Color::rgba(48_000_000, 4_680_000, 74_400_000, ONE));
    assert_eq!(material.background_color2, Color::rgba(24_400_000, 2_300_000, 37_200_000, ONE));
    assert_eq!(material.target_color, Color::gray());

    material.mouse_pos = Point::new(3, 4);
    plot.toggle_target();
    plot.place_target(Point::new(200 * ONE, 100 * ONE));
    assert!(plot.zoom_axes(ONE, Point::zero()));
    plot.time = 42;
    plot.hide_contour = true;
    plot.show_grid = false;
    material.update_all(&plot);
    assert_eq!(material.mouse_pos, Point::new(3, 4));
    assert_eq!(material.bound_lo, Point::new(-1_100_000_000, -1_100_000_000));
    assert_eq!((material.time, material.zoom), (42, 1_100_000_000));
    assert_eq!((material.show_target, material.hide_contour, material.show_grid), (ONE, ONE, 0));
    assert_eq!(material.target_pos, plot.to_local(plot.target_position).plus(plot.canvas_position));
    assert_eq!(material.target_pos, Point::new(190_909_090_909, 86_363_636_363));
    assert!(material.within_rect(Point::new(499 * ONE, 249 * ONE)));
    assert!(!material.within_rect(Point::new(500 * ONE, 0)));
}

#[test]
fn the_uniforms_follow_the_plot_and_the_group() {
    let mut plot = Plot::default();
    plot.canvas_position = Point::new(7, 9);
    assert!(plot.zoom_axes(-ONE, Point::zero()));
    let inner = Point::new(785_276_073_619, 485_436_893_203);
    let red = Color::rgb(ONE, 0, 0);
    let curve = BezierData { mech: true, color: red, size: 3 * ONE, ..BezierData::default() };
    assert_eq!(
        BezierCurveUniform::new(&plot, &curve),
        BezierCurveUniform {
            mech: ONE,
            zoom: 900_000_000,
            inner_canvas_size_in_pixels: inner,
            canvas_position_in_pixels: Point::new(7, 9),
            color: red,
            size: 3 * ONE,
            style: 0,
        }
    );
    let segments = SegmentData { size: 2 * ONE, ..SegmentData::default() };
    assert_eq!(
        SegmentUniform::new(&plot, &segments),
        SegmentUniform {
            color: Color::hex(0x8eb274),
            mech: 0,
            segment_thickness: 2 * ONE,
            hole_size: ONE,
            zoom: ONE,
            inner_canvas_size_in_pixels: inner,
            canvas_position: Point::new(7, 9),
        }
    );
    let markers = MarkerData { marker_style: MarkerStyle::Heart, draw_contour: true, ..MarkerData::default() };
    assert_eq!(
        MarkerUniform::new(&plot, &markers),
        MarkerUniform {
            marker_size: ONE,
            hole_size: ONE,
            zoom: ONE,
            marker_type: 1,
            marker_point_color: Color::rgb(200_000_000, 300_000_000, 800_000_000),
            color: Color::rgb(500_000_000, 500_000_000, 100_000_000),
            quad_size: 30 * ONE,
            inner_canvas_size_in_pixels: inner,
            canvas_position: Point::new(7, 9),
            contour: ONE,
        }
    );
}

#[test]
fn markers_are_drawn_at_the_screen_positions_of_their_points() {
    let mut plot =
        Plot::new(Point::new(800 * ONE, 600 * ONE), Point::new(100 * ONE, -50 * ONE), Point::zero()).unwrap();
    plot.set_bounds(Point::new(-ONE, -ONE), Point::new(ONE, ONE)).unwrap();
    let markers = MarkerData { data: vec![Point::zero(), Point::new(ONE / 2, -ONE)], ..MarkerData::default() };
    let instances = plot_points(&plot, &markers);
    assert_eq!(instances.len(), 2);
    assert_eq!(instances[0].position, Position { x: 100 * ONE, y: -50 * ONE, z: 1_010_000_000 });
    assert_eq!(instances[1].position, Position { x: 300 * ONE, y: -350 * ONE, z: 1_010_000_000 });
    assert_eq!(instances[1].scale, ONE);
    assert_eq!(instances[1].color, Color::rgba(800_000_000, 600_000_000, 100_000_000, ONE));
}
