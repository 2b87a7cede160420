use gui_demo::gui::{
    display_order, points_to_pixels, Axis, CentralRect, Choice, DragEvent, FrameInput, GuiExample,
    TransformField,
};
use gui_demo::viewport::Viewport;

#[test]
fn default_transform_values() {
    let g = GuiExample::new();
    // translate (0, 0, -5), rotate (0, 0, 0), scale (1, 1, 1), in milli-units
    assert_eq!(g.get_translate(), (0, 0, -5000));
    assert_eq!(g.get_rotate(), (0, 0, 0));
    assert_eq!(g.get_scale(), (1000, 1000, 1000));
    let (tx, ty, tz) = g.get_translate();
    assert_eq!(
        (tx as f64 / 1000.0, ty as f64 / 1000.0, tz as f64 / 1000.0),
        (0.0, 0.0, -5.0)
    );
    assert_eq!(g.choice, Choice::First);
    assert_eq!(g.fps, 0);
    assert_eq!(g.frame_count, 0);
    assert_eq!(g.accumulator_us, 0);
}

#[test]
fn no_viewport_before_the_first_gui_pass() {
    let g = GuiExample::new();
    assert_eq!(g.get_viewport(600), None);
}

#[test]
fn selecting_one_tab_deselects_the_other() {
    let mut g = GuiExample::new();
    assert!(g.choice == Choice::First && g.choice != Choice::Second);
    g.select_tab(Choice::Second);
    assert!(g.choice == Choice::Second && g.choice != Choice::First);
    g.select_tab(Choice::First);
    assert!(g.choice == Choice::First && g.choice != Choice::Second);
}

#[test]
fn drag_on_rotate_z_changes_nothing_else() {
    let mut g = GuiExample::new();
    g.drag_field(TransformField::Rotate, Axis::Z, 3);
    // rotate sensitivity is 1.0 per step: 3 steps = 3000 milli-degrees
    assert_eq!(g.get_rotate(), (0, 0, 3000));
    assert_eq!(g.get_translate(), (0, 0, -5000));
    assert_eq!(g.get_scale(), (1000, 1000, 1000));
    assert_eq!(g.choice, Choice::First);
}

#[test]
fn drag_sensitivities_are_distinct() {
    let mut g = GuiExample::new();
    g.drag_field(TransformField::Translate, Axis::X, 2);
    g.drag_field(TransformField::Rotate, Axis::X, 2);
    g.drag_field(TransformField::Scale, Axis::X, 2);
    // 0.05, 1.0 and 0.01 per step respectively
    assert_eq!(g.get_translate().0, 100);
    assert_eq!(g.get_rotate().0, 2000);
    assert_eq!(g.get_scale().0, 1020);
}

#[test]
fn drag_with_negative_steps_moves_down() {
    let mut g = GuiExample::new();
    g.drag_field(TransformField::Translate, Axis::Y, -4);
    assert_eq!(g.get_translate(), (0, -200, -5000));
}

#[test]
fn fps_exact_window() {
    let mut g = GuiExample::new();
    // five frames of 20 ms: the fifth reaches the 0.1 s window,
    // 5 frames / 0.1 s = 50 FPS exactly
    for _ in 0..4 {
        g.tick(20_000);
        assert_eq!(g.fps, 0);
    }
    assert_eq!(g.accumulator_us, 80_000);
    assert_eq!(g.frame_count, 4);
    g.tick(20_000);
    assert_eq!(g.fps, 50);
    assert_eq!(g.accumulator_us, 0);
    assert_eq!(g.frame_count, 0);
}

#[test]
fn fps_rounds_to_nearest() {
    let mut g = GuiExample::new();
    // four frames of 30 ms: 4 / 0.12 s = 33.33..., reported as 33
    for _ in 0..4 {
        g.tick(30_000);
    }
    assert_eq!(g.fps, 33);
    assert_eq!(g.accumulator_us, 0);

    // seven frames of 15 ms: 7 / 0.105 s = 66.66..., rounds to 67
    for _ in 0..7 {
        g.tick(15_000);
    }
    assert_eq!(g.fps, 67);
}

#[test]
fn fps_untouched_below_the_window() {
    let mut g = GuiExample::new();
    g.tick(30_000);
    g.tick(30_000);
    assert_eq!(g.fps, 0);
    assert_eq!(g.accumulator_us, 60_000);
    assert_eq!(g.frame_count, 2);
}

#[test]
fn points_to_pixels_scales_and_truncates() {
    // 1.5 points at 2.0 pixels per point = 3 pixels
    assert_eq!(points_to_pixels(1500, 2000), 3);
    // 430 points at 1.0 = 430 pixels
    assert_eq!(points_to_pixels(430_000, 1000), 430);
    // 10.5 points at 1.25 = 13.125, truncated to 13
    assert_eq!(points_to_pixels(10_500, 1250), 13);
}

#[test]
fn points_to_pixels_saturates_at_i32_max() {
    // 4e9 points at 1.0 overflows i32 and is clamped
    assert_eq!(points_to_pixels(4_000_000_000_000, 1000), i32::MAX);
}

#[test]
fn display_order_reverses_the_triple() {
    assert_eq!(display_order((1, 2, 3)), (3, 2, 1));
    assert_eq!(display_order(display_order((4, 5, 6))), (4, 5, 6));
}

#[test]
fn one_gui_pass_derives_the_viewport() {
    // window 800x600 at scale factor 1.0; the panels leave the central
    // rectangle (150, 0)-(580, 495) in points
    let mut g = GuiExample::new();
    let input = FrameInput {
        tab_click: None,
        drags: Vec::new(),
        central_rect: CentralRect {
            min_x_mpt: 150_000,
            min_y_mpt: 0,
            max_x_mpt: 580_000,
            max_y_mpt: 495_000,
        },
        ppp_milli: 1000,
    };
    g.update(16_000, &input);
    // pre-flip viewport in UI space
    assert_eq!(g.viewport, Some(Viewport::new(150, 0, 430, 495)));
    // post-flip with window height 600: (150, 600 - 0 - 495, 430, 495)
    assert_eq!(g.get_viewport(600), Some(Viewport::new(150, 105, 430, 495)));
}

#[test]
fn one_gui_pass_applies_clicks_and_drags() {
    let mut g = GuiExample::new();
    let input = FrameInput {
        tab_click: Some(Choice::Second),
        drags: vec![
            DragEvent { field: TransformField::Translate, axis: Axis::X, steps: 10 },
            DragEvent { field: TransformField::Rotate, axis: Axis::Z, steps: -90 },
            DragEvent { field: TransformField::Scale, axis: Axis::Y, steps: 5 },
        ],
        central_rect: CentralRect {
            min_x_mpt: 150_000,
            min_y_mpt: 0,
            max_x_mpt: 580_000,
            max_y_mpt: 495_000,
        },
        ppp_milli: 2000,
    };
    g.update(16_000, &input);
    assert_eq!(g.choice, Choice::Second);
    assert_eq!(g.get_translate(), (500, 0, -5000));
    assert_eq!(g.get_rotate(), (0, 0, -90_000));
    assert_eq!(g.get_scale(), (1000, 1050, 1000));
    assert_eq!(g.frame_count, 1);
    assert_eq!(g.accumulator_us, 16_000);
    // scale factor 2.0 doubles every pixel coordinate
    assert_eq!(g.viewport, Some(Viewport::new(300, 0, 860, 990)));
}

#[test]
fn collapsed_central_region_clamps_to_zero_extent() {
    let mut g = GuiExample::new();
    let input = FrameInput {
        tab_click: None,
        drags: Vec::new(),
        central_rect: CentralRect {
            min_x_mpt: 400_000,
            min_y_mpt: 100_000,
            max_x_mpt: 390_000,
            max_y_mpt: 90_000,
        },
        ppp_milli: 1000,
    };
    g.update(16_000, &input);
    assert_eq!(g.viewport, Some(Viewport::new(400, 100, 0, 0)));
}
