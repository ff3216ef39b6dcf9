//! The per-tick update pipeline: one context struct owns the view, the
//! window size, the generation bounds and the cached spacing information,
//! with explicit dirty flags in place of framework change detection.
//!
//! A tick runs the stages in order: input application (`zoom_system`,
//! `pan_system`, `window_resize`), then `recalculate_graphing_bounds_system`,
//! which consumes the input flags and regenerates bounds and spacing in
//! lock-step when the hysteresis predicate fires, then
//! `regenerate_meshes_system`, which consumes the bounds flag and rebuilds
//! all geometry. The host performs the one step the library cannot: calling
//! the external expression evaluator on the sample grid between the last
//! two stages.

use vstd::prelude::*;
use crate::axis_spacing::MidAxisInfo;
use crate::axis_spacing::lemma_fresh_bounds_counts_fit;
use crate::axis_spacing::recalculate_mid_axis_info;
use crate::axis_spacing::spec_info_matches;
use crate::axis_spacing::spec_min_axis_info;
use crate::gen_expr_mesh::RibbonMesh;
use crate::gen_expr_mesh::TessellationError;
use crate::gen_expr_mesh::gen_expr_mesh;
use crate::gen_expr_mesh::spec_dx;
use crate::gen_expr_mesh::spec_ribbon_ok;
use crate::gen_mesh::GeometryError;
use crate::gen_mesh::LineMesh;
use crate::gen_mesh::gen_main_axis;
use crate::gen_mesh::gen_mid_axis;
use crate::gen_mesh::gen_min_axis;
use crate::gen_mesh::spec_grid_mesh_ok;
use crate::scaling::GraphingBounds;
use crate::scaling::GraphingView;
use crate::scaling::ViewportError;
use crate::scaling::WindowSize;
use crate::scaling::lemma_recalculated_bounds_are_quiescent;
use crate::scaling::recalculate_graphing_bounds;
use crate::scaling::should_regenerate;
use crate::scaling::spec_clamp_coord;
use crate::scaling::spec_negated_delta;
use crate::scaling::spec_pan_moves;
use crate::scaling::spec_pan_shift;
use crate::scaling::spec_recalculate_graphing_bounds;
use crate::scaling::spec_should_regenerate;
use crate::scaling::spec_zoom;
use crate::scaling::window_resize;
use crate::scaling::zoom_system;
use crate::scaling::pan_system;

verus! {

/// The grid geometry of one regeneration, one buffer set per tier, ready
/// for the host renderer to upload and own.
#[derive(Clone, Debug, PartialEq, Eq)]
pub struct GridMeshHandles {
    pub main_axis: LineMesh,
    pub mid_axis: LineMesh,
    pub min_axis: LineMesh,
}

/// Error from a mesh regeneration.
#[derive(Clone, Copy, Debug, PartialEq, Eq, Structural)]
pub enum RegenerateError {
    /// A grid tier outran the index range.
    Grid(GeometryError),
    /// The curve sample batch was rejected.
    Curve(TessellationError),
}

/// The engine state one tick reads and writes: the long-lived view and
/// window, the cached generation bounds with their spacing information,
/// and the dirty flags that stand in for framework change detection.
pub struct PlotterEngine {
    pub view: GraphingView,
    pub window: WindowSize,
    pub graphing_bounds: GraphingBounds,
    pub mid_axis_info: MidAxisInfo,
    pub view_changed: bool,
    pub window_changed: bool,
    pub bounds_changed: bool,
}

impl PlotterEngine {
    /// The engine's invariant: every part well-formed; the bounds and the
    /// spacing information were computed in lock-step from one view and
    /// window (never from a stale mix); the line counts stay within what
    /// fresh bounds can ask for; and with no pending input change the
    /// hysteresis predicate is quiet.
    pub open spec fn wf(self) -> bool {
        &&& self.view.wf()
        &&& self.window.wf()
        &&& self.graphing_bounds.wf()
        &&& self.mid_axis_info.wf()
        &&& self.mid_axis_info.separation % 5 == 0
        &&& self.mid_axis_info.separation >= 5
        &&& self.mid_axis_info.xline_count <= 62
        &&& self.mid_axis_info.yline_count <= 6_200_000
        &&& exists|v0: GraphingView, w0: WindowSize|
            v0.wf() && w0.wf() && self.graphing_bounds == #[trigger] spec_recalculate_graphing_bounds(v0, w0)
                && spec_info_matches(self.mid_axis_info, self.graphing_bounds, v0)
        &&& !self.view_changed && !self.window_changed ==> !spec_should_regenerate(
            self.view.spec_visible_xbounds(),
            self.view.spec_visible_ybounds(self.window),
            self.graphing_bounds,
        )
    }

    /// A fresh engine: the default view and window, with generation bounds
    /// and spacing information already computed for them and no pending
    /// changes.
    pub fn new() -> (engine: PlotterEngine)
        ensures
            engine.wf(),
            engine.view.centre_x == 0,
            engine.view.centre_y == 0,
            engine.view.scale == crate::DEFAULT_SCALE,
            engine.window.width == crate::DEFAULT_WINDOW_WIDTH,
            engine.window.height == crate::DEFAULT_WINDOW_HEIGHT,
            engine.graphing_bounds == spec_recalculate_graphing_bounds(
                engine.view,
                engine.window,
            ),
            spec_info_matches(engine.mid_axis_info, engine.graphing_bounds, engine.view),
            !engine.view_changed && !engine.window_changed && !engine.bounds_changed,
    {
        let view = GraphingView::default();
        let window = WindowSize::default();
        proof {
            lemma_fresh_bounds_counts_fit(view, window);
            lemma_recalculated_bounds_are_quiescent(view, window);
        }
        let graphing_bounds = recalculate_graphing_bounds(&view, &window);
        let mid_axis_info = recalculate_mid_axis_info(&graphing_bounds, &view);
        let engine = PlotterEngine {
            view,
            window,
            graphing_bounds,
            mid_axis_info,
            view_changed: false,
            window_changed: false,
            bounds_changed: false,
        };
        proof {
            assert(view.wf() && window.wf() && engine.graphing_bounds
                == spec_recalculate_graphing_bounds(view, window) && spec_info_matches(
                engine.mid_axis_info,
                engine.graphing_bounds,
                view,
            ));
        }
        engine
    }

    /// Applies a tick's cumulative scroll and marks the view dirty when any
    /// scroll arrived.
    pub fn zoom_system(&mut self, scroll_steps: i64)
        requires
            old(self).wf(),
        ensures
            final(self).wf(),
            final(self).view.scale == spec_zoom(old(self).view.scale as int, scroll_steps as int),
            final(self).view.centre_x == old(self).view.centre_x,
            final(self).view.centre_y == old(self).view.centre_y,
            final(self).window == old(self).window,
            final(self).graphing_bounds == old(self).graphing_bounds,
            final(self).mid_axis_info == old(self).mid_axis_info,
            final(self).view_changed == (old(self).view_changed || scroll_steps != 0),
            final(self).window_changed == old(self).window_changed,
            final(self).bounds_changed == old(self).bounds_changed,
    {
        if scroll_steps != 0 {
            zoom_system(&mut self.view, scroll_steps);
            self.view_changed = true;
        }
    }

    /// Applies a tick's cumulative pointer drag and marks the view dirty
    /// when it moved. Returns whether it moved.
    pub fn pan_system(&mut self, delta_x: i64, delta_y: i64, left_pressed: bool) -> (moved: bool)
        requires
            old(self).wf(),
        ensures
            final(self).wf(),
            moved == spec_pan_moves(delta_x as int, delta_y as int, left_pressed),
            final(self).view.scale == old(self).view.scale,
            moved ==> final(self).view.centre_x == spec_clamp_coord(
                old(self).view.centre_x - spec_pan_shift(
                    delta_x as int,
                    old(self).view.scale as int,
                    old(self).window.width as int,
                ),
            ),
            moved ==> final(self).view.centre_y == spec_clamp_coord(
                old(self).view.centre_y - spec_pan_shift(
                    spec_negated_delta(delta_y),
                    old(self).view.scale as int,
                    old(self).window.width as int,
                ),
            ),
            !moved ==> final(self).view == old(self).view,
            final(self).window == old(self).window,
            final(self).graphing_bounds == old(self).graphing_bounds,
            final(self).mid_axis_info == old(self).mid_axis_info,
            final(self).view_changed == (old(self).view_changed || moved),
            final(self).window_changed == old(self).window_changed,
            final(self).bounds_changed == old(self).bounds_changed,
    {
        let window = self.window;
        let moved = pan_system(&mut self.view, &window, delta_x, delta_y, left_pressed);
        if moved {
            self.view_changed = true;
        }
        moved
    }

    /// Overwrites the cached window size from the last resize notification
    /// of the tick and marks it dirty; rejected dimensions leave the state
    /// untouched.
    pub fn window_resize(&mut self, width: i64, height: i64) -> (r: Result<(), ViewportError>)
        requires
            old(self).wf(),
        ensures
            final(self).wf(),
            r is Ok <==> (crate::MIN_WINDOW_DIM <= width <= crate::MAX_WINDOW_DIM
                && crate::MIN_WINDOW_DIM <= height <= crate::MAX_WINDOW_DIM),
            r is Ok ==> final(self).window == (WindowSize { width, height }),
            r is Err ==> final(self).window == old(self).window,
            final(self).view == old(self).view,
            final(self).graphing_bounds == old(self).graphing_bounds,
            final(self).mid_axis_info == old(self).mid_axis_info,
            final(self).view_changed == old(self).view_changed,
            final(self).window_changed == (old(self).window_changed || r is Ok),
            final(self).bounds_changed == old(self).bounds_changed,
    {
        let r = window_resize(&mut self.window, width, height);
        if r.is_ok() {
            self.window_changed = true;
            Ok(())
        } else {
            r
        }
    }

    /// The bounds-management stage: when the view or window changed this
    /// tick, consume those flags; if the visible region has outgrown or
    /// far undershot the cached generation bounds, replace the bounds and
    /// recompute the spacing information from the very same view, and mark
    /// the bounds dirty. Afterwards the hysteresis predicate is always
    /// quiet, so a second run with no input in between never rebuilds.
    pub fn recalculate_graphing_bounds_system(&mut self)
        requires
            old(self).wf(),
        ensures
            final(self).wf(),
            final(self).view == old(self).view,
            final(self).window == old(self).window,
            !final(self).view_changed && !final(self).window_changed,
            !(old(self).view_changed || old(self).window_changed) ==> *final(self) == *old(self),
            ({
                let fired = (old(self).view_changed || old(self).window_changed)
                    && spec_should_regenerate(
                    old(self).view.spec_visible_xbounds(),
                    old(self).view.spec_visible_ybounds(old(self).window),
                    old(self).graphing_bounds,
                );
                &&& final(self).bounds_changed == (old(self).bounds_changed || fired)
                &&& (fired ==> final(self).graphing_bounds == spec_recalculate_graphing_bounds(
                    old(self).view,
                    old(self).window,
                ) && spec_info_matches(
                    final(self).mid_axis_info,
                    final(self).graphing_bounds,
                    old(self).view,
                ))
                &&& (!fired ==> final(self).graphing_bounds == old(self).graphing_bounds
                    && final(self).mid_axis_info == old(self).mid_axis_info)
            }),
            !spec_should_regenerate(
                final(self).view.spec_visible_xbounds(),
                final(self).view.spec_visible_ybounds(final(self).window),
                final(self).graphing_bounds,
            ),
    {
        if self.view_changed || self.window_changed {
            let visible_xbounds = self.view.visible_xbounds(&self.window);
            let visible_ybounds = self.view.visible_ybounds(&self.window);
            if should_regenerate(&visible_xbounds, &visible_ybounds, &self.graphing_bounds) {
                proof {
                    lemma_fresh_bounds_counts_fit(self.view, self.window);
                    lemma_recalculated_bounds_are_quiescent(self.view, self.window);
                }
                let bounds = recalculate_graphing_bounds(&self.view, &self.window);
                self.graphing_bounds = bounds;
                let info = recalculate_mid_axis_info(&self.graphing_bounds, &self.view);
                self.mid_axis_info = info;
                self.bounds_changed = true;
                proof {
                    assert(self.view.wf() && self.window.wf() && self.graphing_bounds
                        == spec_recalculate_graphing_bounds(self.view, self.window)
                        && spec_info_matches(
                        self.mid_axis_info,
                        self.graphing_bounds,
                        self.view,
                    ));
                }
            }
            self.view_changed = false;
            self.window_changed = false;
        }
    }

    /// The geometry stage: when the generation bounds changed this tick,
    /// consume that flag and rebuild every buffer wholesale — the three
    /// grid tiers from the cached spacing information, and the curve
    /// ribbon from the evaluator's sample batch for the new x-bounds.
    /// Otherwise the cached geometry stands and nothing is built.
    pub fn regenerate_meshes_system(&mut self, values: &Vec<i64>) -> (r: Result<
        Option<(GridMeshHandles, RibbonMesh)>,
        RegenerateError,
    >)
        requires
            old(self).wf(),
        ensures
            final(self).wf(),
            final(self).view == old(self).view,
            final(self).window == old(self).window,
            final(self).graphing_bounds == old(self).graphing_bounds,
            final(self).mid_axis_info == old(self).mid_axis_info,
            final(self).view_changed == old(self).view_changed,
            final(self).window_changed == old(self).window_changed,
            !final(self).bounds_changed,
            !old(self).bounds_changed ==> r == Ok::<
                Option<(GridMeshHandles, RibbonMesh)>,
                RegenerateError,
            >(None),
            old(self).bounds_changed ==> ({
                let bounds = old(self).graphing_bounds;
                let len = values.len() as int;
                &&& (values.len() < 2 ==> r == Err::<
                    Option<(GridMeshHandles, RibbonMesh)>,
                    RegenerateError,
                >(RegenerateError::Curve(TessellationError::InvalidSampleCount)))
                &&& (values.len() >= 2 && spec_dx(bounds.xbounds, len) < 1 ==> r == Err::<
                    Option<(GridMeshHandles, RibbonMesh)>,
                    RegenerateError,
                >(RegenerateError::Curve(TessellationError::DegenerateBounds)))
                &&& (values.len() >= 2 && spec_dx(bounds.xbounds, len) >= 1 && values.len()
                    <= 2147483647 ==> r is Ok && r->Ok_0 is Some)
                &&& (r is Ok && r->Ok_0 is Some ==> ({
                    let meshes = r->Ok_0->Some_0;
                    &&& meshes.0.main_axis.positions@.len() == 4
                    &&& spec_grid_mesh_ok(meshes.0.mid_axis, old(self).mid_axis_info, bounds)
                    &&& spec_grid_mesh_ok(
                        meshes.0.min_axis,
                        spec_min_axis_info(old(self).mid_axis_info),
                        bounds,
                    )
                    &&& spec_ribbon_ok(meshes.1, values@, bounds.xbounds)
                }))
            }),
    {
        if !self.bounds_changed {
            return Ok(None);
        }
        self.bounds_changed = false;
        let main_axis = gen_main_axis(self.graphing_bounds.xbounds, self.graphing_bounds.ybounds);
        let mid_axis = match gen_mid_axis(&self.mid_axis_info, &self.graphing_bounds) {
            Ok(m) => m,
            Err(e) => {
                return Err(RegenerateError::Grid(e));
            },
        };
        let min_info = self.mid_axis_info.calculate_min_axis_info();
        let min_axis = match gen_min_axis(&min_info, &self.graphing_bounds) {
            Ok(m) => m,
            Err(e) => {
                return Err(RegenerateError::Grid(e));
            },
        };
        let curve = match gen_expr_mesh(values, &self.graphing_bounds.xbounds) {
            Ok(m) => m,
            Err(e) => {
                return Err(RegenerateError::Curve(e));
            },
        };
        Ok(Some((GridMeshHandles { main_axis, mid_axis, min_axis }, curve)))
    }
}

/// With no pending view or window change a well-formed engine's hysteresis
/// predicate is quiet: on two consecutive ticks without input the second
/// bounds-management run never fires, and geometry is never rebuilt.
pub proof fn lemma_no_change_means_no_rebuild(engine: PlotterEngine)
    requires
        engine.wf(),
        !engine.view_changed,
        !engine.window_changed,
    ensures
        !spec_should_regenerate(
            engine.view.spec_visible_xbounds(),
            engine.view.spec_visible_ybounds(engine.window),
            engine.graphing_bounds,
        ),
{
}

} // verus!
