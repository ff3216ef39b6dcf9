//! Core engine of an interactive 2-D function plotter.
//!
//! The library owns the viewport state (a pannable, zoomable view), decides
//! when curve and grid geometry must be regenerated, picks "nice" gridline
//! spacings on a 1-2-5 decade scheme, and tessellates a sampled curve into a
//! constant-width ribbon mesh.
//!
//! All world-space quantities are held in fixed-point micro-units: an `i64`
//! counts millionths of a world unit, so the arithmetic the contracts speak
//! of is exact integer arithmetic. The host (window system, renderer and the
//! external expression evaluator) converts at the boundary.

use vstd::prelude::*;

pub mod scaling;
pub mod axis_spacing;
pub mod gen_mesh;
pub mod gen_expr_mesh;
pub mod engine;

verus! {

/// Micro-units per world unit: every coordinate, scale and spacing in this
/// crate is an `i64` number of millionths of a world unit.
pub const UNIT: i64 = 1_000_000;

/// Default window width in micro-pixels (640 px).
pub const DEFAULT_WINDOW_WIDTH: i64 = 640_000_000;

/// Default window height in micro-pixels (640 px).
pub const DEFAULT_WINDOW_HEIGHT: i64 = 640_000_000;

/// The scale is half the magnitude of the total x range visible.
/// E.g. x is between -5 and 5 when starting if the default scale is 5.
pub const DEFAULT_SCALE: i64 = 5_000_000;

/// Pregenerate meshes this factor outside the current window view.
pub const PREGENERATE_DISTANCE_FACTOR: i64 = 2;

/// One scroll step multiplies or divides the scale by 11/10 (a factor 1.1).
pub const ZOOM_NUMER: i64 = 11;

/// Denominator of the zoom factor.
pub const ZOOM_DENOM: i64 = 10;

/// Smallest scale the viewport may reach (one ten-thousandth of a world
/// unit). Zooming clamps here so the scale can never collapse to zero, and
/// so a gridline spacing of at least five micro-units always exists.
pub const MIN_SCALE: i64 = 100;

/// Largest scale the viewport may reach (one million world units). Zooming
/// clamps here so later arithmetic stays comfortably inside `i64`.
pub const MAX_SCALE: i64 = 1_000_000_000_000;

/// Centre coordinates are clamped to this magnitude (a billion world units).
pub const COORD_LIMIT: i64 = 1_000_000_000_000_000;

/// Samples handed to the tessellator are clamped to this magnitude before
/// normal estimation, so a wild evaluator value cannot poison the ribbon.
pub const VALUE_LIMIT: i64 = 1_000_000_000_000_000;

/// Generation-bounds endpoints always stay within this magnitude.
pub const BOUND_LIMIT: i64 = 1_000_000_000_000_000_000;

/// Smallest accepted window dimension in micro-pixels (one pixel).
pub const MIN_WINDOW_DIM: i64 = 1_000_000;

/// Largest accepted window dimension in micro-pixels (100 000 pixels).
pub const MAX_WINDOW_DIM: i64 = 100_000_000_000;

/// Half the world-space width of the curve ribbon (0.03 world units).
pub const HALF_WIDTH: i64 = 30_000;

/// Number of samples taken across the generation x-bounds for the curve.
pub const RESOLUTION: usize = 256;

/// A drag whose squared screen length (in squared micro-pixels) is at or
/// under this dead-zone is ignored, to suppress pointer jitter.
pub const PAN_DEADZONE_SQ: i128 = 10_000_000_000;

} // verus!
