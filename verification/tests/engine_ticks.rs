//! The per-tick pipeline: dirty flags, lock-step bounds and spacing
//! recomputation, hysteresis across consecutive ticks, and wholesale mesh
//! regeneration, in micro-units (1 world unit = 1_000_000).

use grapher::engine::PlotterEngine;
use grapher::engine::RegenerateError;
use grapher::gen_expr_mesh::TessellationError;
use grapher::gen_expr_mesh::sample_xs;
use grapher::scaling::Bounds;

#[test]
fn fresh_engine_has_the_documented_startup_state() {
    let engine = PlotterEngine::new();
    assert_eq!(engine.view.centre_x, 0);
    assert_eq!(engine.view.centre_y, 0);
    assert_eq!(engine.view.scale, 5_000_000);
    assert_eq!(engine.window.width, 640_000_000);
    assert_eq!(engine.window.height, 640_000_000);
    // generation bounds are [-10, 10] x [-10, 10] for the 640x640 window
    assert_eq!(engine.graphing_bounds.xbounds, Bounds { start: -10_000_000, end: 10_000_000 });
    assert_eq!(engine.graphing_bounds.ybounds, Bounds { start: -10_000_000, end: 10_000_000 });
    assert_eq!(engine.mid_axis_info.separation, 1_000_000);
    assert_eq!(engine.mid_axis_info.xline_count, 11);
    assert_eq!(engine.mid_axis_info.yline_count, 11);
    assert_eq!(engine.mid_axis_info.rounded_xcentre, 0);
    assert_eq!(engine.mid_axis_info.rounded_ycentre, 0);
    assert!(!engine.view_changed && !engine.window_changed && !engine.bounds_changed);
}

#[test]
fn small_pans_never_rebuild_but_large_ones_do() {
    let mut engine = PlotterEngine::new();
    // a small drag: the view moves, the cached bounds still suffice
    engine.pan_system(50_000_000, 0, true);
    assert!(engine.view_changed);
    engine.recalculate_graphing_bounds_system();
    assert!(!engine.view_changed);
    assert!(!engine.bounds_changed);
    assert_eq!(engine.graphing_bounds.xbounds, Bounds { start: -10_000_000, end: 10_000_000 });
    // keep dragging until the visible region escapes the pregenerated edge
    for _ in 0..8 {
        engine.pan_system(100_000_000, 0, true);
    }
    engine.recalculate_graphing_bounds_system();
    assert!(engine.bounds_changed);
    // the new bounds are centred on the new view centre
    let c = engine.view.centre_x;
    assert_eq!(engine.graphing_bounds.xbounds.start, c - 10_000_000);
    assert_eq!(engine.graphing_bounds.xbounds.end, c + 10_000_000);
}

#[test]
fn unchanged_ticks_are_idempotent() {
    let mut engine = PlotterEngine::new();
    engine.zoom_system(-8);
    assert_eq!(engine.view.scale, 10_717_943);
    engine.recalculate_graphing_bounds_system();
    assert!(engine.bounds_changed);
    let bounds_after_first = engine.graphing_bounds;
    let info_after_first = engine.mid_axis_info;
    // a second tick with no input in between must not rebuild anything
    engine.recalculate_graphing_bounds_system();
    assert_eq!(engine.graphing_bounds, bounds_after_first);
    assert_eq!(engine.mid_axis_info, info_after_first);
    engine.recalculate_graphing_bounds_system();
    assert_eq!(engine.graphing_bounds, bounds_after_first);
}

#[test]
fn zoom_out_past_the_edge_regenerates_in_lock_step() {
    let mut engine = PlotterEngine::new();
    engine.zoom_system(-8);
    engine.recalculate_graphing_bounds_system();
    assert!(engine.bounds_changed);
    assert_eq!(engine.graphing_bounds.xbounds, Bounds { start: -21_435_886, end: 21_435_886 });
    // spacing was recomputed from the same view: scale 10.7 sits in the
    // next decade bucket
    assert_eq!(engine.mid_axis_info.separation, 2_000_000);
    assert_eq!(engine.mid_axis_info.xline_count, 21_435_886 / 2_000_000 + 1);
}

#[test]
fn gentle_zoom_within_hysteresis_does_not_regenerate() {
    let mut engine = PlotterEngine::new();
    engine.zoom_system(-3); // scale grows to about 6.66: still inside
    engine.recalculate_graphing_bounds_system();
    assert!(!engine.bounds_changed);
    assert_eq!(engine.graphing_bounds.xbounds, Bounds { start: -10_000_000, end: 10_000_000 });
}

#[test]
fn resize_can_trigger_regeneration() {
    let mut engine = PlotterEngine::new();
    // a much taller window stretches the visible y-extent past the cache
    engine.window_resize(640_000_000, 2_560_000_000).unwrap();
    assert!(engine.window_changed);
    engine.recalculate_graphing_bounds_system();
    assert!(engine.bounds_changed);
    // dy = scale * height / width = 20, doubled for pregeneration
    assert_eq!(engine.graphing_bounds.ybounds, Bounds { start: -40_000_000, end: 40_000_000 });
    assert_eq!(engine.graphing_bounds.xbounds, Bounds { start: -10_000_000, end: 10_000_000 });
}

#[test]
fn regeneration_consumes_the_flag_and_rebuilds_everything() {
    let mut engine = PlotterEngine::new();
    engine.zoom_system(-8);
    engine.recalculate_graphing_bounds_system();
    assert!(engine.bounds_changed);
    let xs = sample_xs(&engine.graphing_bounds.xbounds, grapher::RESOLUTION);
    // the host would run the external evaluator here; use y = x
    let values: Vec<i64> = xs;
    let (grids, curve) = engine.regenerate_meshes_system(&values).unwrap().unwrap();
    assert!(!engine.bounds_changed);
    assert_eq!(grids.main_axis.positions.len(), 4);
    let info = engine.mid_axis_info;
    assert_eq!(
        grids.mid_axis.positions.len(),
        4 * info.xline_count + 4 * info.yline_count - 4
    );
    assert_eq!(
        grids.min_axis.positions.len(),
        4 * 5 * info.xline_count + 4 * 5 * info.yline_count - 4
    );
    assert_eq!(curve.positions.len(), 2 * grapher::RESOLUTION);
    // with the flag consumed, the next tick builds nothing
    assert_eq!(engine.regenerate_meshes_system(&values), Ok(None));
}

#[test]
fn a_quiet_tick_never_rebuilds_whatever_came_before() {
    let mut engine = PlotterEngine::new();
    let inputs: [(i64, i64, i64); 7] = [
        (-4, 0, 0),
        (0, 900_000_000, -200_000_000),
        (6, 50_000_000, 50_000_000),
        (-12, 0, 0),
        (0, -2_000_000_000, 0),
        (3, 0, 777_000_000),
        (-1, 1_000_000, -1_000_000),
    ];
    for (steps, dx, dy) in inputs {
        engine.zoom_system(steps);
        engine.pan_system(dx, dy, true);
        engine.recalculate_graphing_bounds_system();
        let settled_bounds = engine.graphing_bounds;
        let settled_info = engine.mid_axis_info;
        // no input between two ticks: the second must change nothing
        engine.recalculate_graphing_bounds_system();
        assert_eq!(engine.graphing_bounds, settled_bounds);
        assert_eq!(engine.mid_axis_info, settled_info);
        engine.bounds_changed = false;
    }
}

#[test]
fn regeneration_rejects_a_bad_sample_batch() {
    let mut engine = PlotterEngine::new();
    engine.zoom_system(-8);
    engine.recalculate_graphing_bounds_system();
    let one = vec![0i64];
    assert_eq!(
        engine.regenerate_meshes_system(&one),
        Err(RegenerateError::Curve(TessellationError::InvalidSampleCount))
    );
}
