//! Viewport behaviour: visible bounds, generation bounds, zoom, pan and
//! resize, in micro-units (1 world unit = 1_000_000).

use grapher::scaling::Bounds;
use grapher::scaling::GraphingView;
use grapher::scaling::WindowSize;
use grapher::scaling::ViewportError;
use grapher::scaling::recalculate_graphing_bounds;
use grapher::scaling::should_regenerate;
use grapher::scaling::window_resize;
use grapher::scaling::zoom_system;
use grapher::scaling::pan_system;

fn default_view() -> GraphingView {
    GraphingView { centre_x: 0, centre_y: 0, scale: 5_000_000 }
}

fn default_window() -> WindowSize {
    WindowSize { width: 640_000_000, height: 640_000_000 }
}

#[test]
fn visible_bounds_of_the_default_view() {
    let view = default_view();
    let window = default_window();
    let vx = view.visible_xbounds(&window);
    let vy = view.visible_ybounds(&window);
    assert_eq!(vx, Bounds { start: -5_000_000, end: 5_000_000 });
    assert_eq!(vy, Bounds { start: -5_000_000, end: 5_000_000 });
}

#[test]
fn visible_ybounds_follow_the_aspect_ratio() {
    let view = default_view();
    let window = WindowSize { width: 640_000_000, height: 320_000_000 };
    let vy = view.visible_ybounds(&window);
    assert_eq!(vy, Bounds { start: -2_500_000, end: 2_500_000 });
}

#[test]
fn generation_bounds_double_the_visible_extent_on_the_same_centre() {
    let view = default_view();
    let window = default_window();
    let bounds = recalculate_graphing_bounds(&view, &window);
    assert_eq!(bounds.xbounds, Bounds { start: -10_000_000, end: 10_000_000 });
    assert_eq!(bounds.ybounds, Bounds { start: -10_000_000, end: 10_000_000 });

    let off_centre = GraphingView { centre_x: 3_000_000, centre_y: -1_000_000, scale: 5_000_000 };
    let bounds = recalculate_graphing_bounds(&off_centre, &window);
    // extent is exactly twice the visible extent, centred on the centre
    assert_eq!(bounds.xbounds, Bounds { start: -7_000_000, end: 13_000_000 });
    assert_eq!(bounds.ybounds, Bounds { start: -11_000_000, end: 9_000_000 });
}

#[test]
fn hysteresis_is_quiet_on_fresh_bounds() {
    let view = GraphingView { centre_x: 123_456, centre_y: -654_321, scale: 7_500_000 };
    let window = WindowSize { width: 800_000_000, height: 600_000_000 };
    let bounds = recalculate_graphing_bounds(&view, &window);
    let vx = view.visible_xbounds(&window);
    let vy = view.visible_ybounds(&window);
    assert!(!should_regenerate(&vx, &vy, &bounds));
}

#[test]
fn hysteresis_fires_when_the_view_escapes_or_shrinks() {
    let view = default_view();
    let window = default_window();
    let bounds = recalculate_graphing_bounds(&view, &window);
    // panned past the pregenerated edge
    let escaped = GraphingView { centre_x: 6_000_000, centre_y: 0, scale: 5_000_000 };
    let vx = escaped.visible_xbounds(&window);
    let vy = escaped.visible_ybounds(&window);
    assert!(should_regenerate(&vx, &vy, &bounds));
    // zoomed in far enough that the cached window is wastefully large
    let shrunk = GraphingView { centre_x: 0, centre_y: 0, scale: 2_400_000 };
    let vx = shrunk.visible_xbounds(&window);
    let vy = shrunk.visible_ybounds(&window);
    assert!(should_regenerate(&vx, &vy, &bounds));
    // a small pan inside the pregenerated region stays quiet
    let nearby = GraphingView { centre_x: 1_000_000, centre_y: 1_000_000, scale: 5_000_000 };
    let vx = nearby.visible_xbounds(&window);
    let vy = nearby.visible_ybounds(&window);
    assert!(!should_regenerate(&vx, &vy, &bounds));
}

#[test]
fn zoom_multiplies_the_scale_per_step() {
    let mut view = default_view();
    zoom_system(&mut view, 1); // scroll up: zoom in, scale shrinks by 10/11
    assert_eq!(view.scale, 4_545_454);
    let mut view = default_view();
    zoom_system(&mut view, -1); // scroll down: zoom out, scale grows by 11/10
    assert_eq!(view.scale, 5_500_000);
    let mut view = default_view();
    zoom_system(&mut view, -8);
    assert_eq!(view.scale, 10_717_943);
    let mut view = default_view();
    zoom_system(&mut view, 0);
    assert_eq!(view.scale, 5_000_000);
    assert_eq!(view.centre_x, 0);
    assert_eq!(view.centre_y, 0);
}

#[test]
fn zoom_saturates_at_the_scale_range() {
    let mut view = default_view();
    zoom_system(&mut view, 10_000);
    assert_eq!(view.scale, grapher::MIN_SCALE);
    let mut view = default_view();
    zoom_system(&mut view, -10_000);
    assert_eq!(view.scale, grapher::MAX_SCALE);
}

#[test]
fn pan_moves_against_the_drag_scaled_by_zoom() {
    // screen delta (100, 0) at scale 5, width 640 moves centre.x by
    // -100 * 2 * 5 / 640 = -1.5625
    let mut view = default_view();
    let window = default_window();
    let moved = pan_system(&mut view, &window, 100_000_000, 0, true);
    assert!(moved);
    assert_eq!(view.centre_x, -1_562_500);
    assert_eq!(view.centre_y, 0);
    assert_eq!(view.scale, 5_000_000);
}

#[test]
fn pan_inverts_the_y_component() {
    let mut view = default_view();
    let window = default_window();
    let moved = pan_system(&mut view, &window, 0, 100_000_000, true);
    assert!(moved);
    assert_eq!(view.centre_x, 0);
    // screen y grows downward: dragging down moves the world centre up
    assert_eq!(view.centre_y, 1_562_500);
}

#[test]
fn pan_ignores_released_button_and_jitter() {
    let mut view = default_view();
    let window = default_window();
    assert!(!pan_system(&mut view, &window, 100_000_000, 0, false));
    assert_eq!(view, default_view());
    // squared length 0.01 sits exactly on the dead-zone and is dropped
    assert!(!pan_system(&mut view, &window, 100_000, 0, true));
    assert_eq!(view, default_view());
    // just above the dead-zone it moves
    assert!(pan_system(&mut view, &window, 100_001, 0, true));
}

#[test]
fn window_resize_rejects_degenerate_sizes() {
    let mut window = default_window();
    assert_eq!(window_resize(&mut window, 0, 640_000_000), Err(ViewportError::InvalidWindowSize));
    assert_eq!(window, default_window());
    assert_eq!(
        window_resize(&mut window, 640_000_000, -5),
        Err(ViewportError::InvalidWindowSize)
    );
    assert_eq!(window, default_window());
    assert_eq!(window_resize(&mut window, 800_000_000, 600_000_000), Ok(()));
    assert_eq!(window, WindowSize { width: 800_000_000, height: 600_000_000 });
}

#[test]
fn bounds_centre_is_the_midpoint() {
    assert_eq!(Bounds { start: -10_000_000, end: 10_000_000 }.centre(), 0);
    assert_eq!(Bounds { start: 1_000_000, end: 2_000_000 }.centre(), 1_500_000);
    assert_eq!(Bounds { start: -3_000_000, end: -1_000_000 }.centre(), -2_000_000);
}
