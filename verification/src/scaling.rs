//! Viewport state and generation-bounds management.
//!
//! `GraphingView` and `WindowSize` are the long-lived state mutated by input;
//! `GraphingBounds` is the larger world-space window geometry is generated
//! for. The hysteresis predicate `should_regenerate` decides when that
//! window has become insufficient (the view ran off an edge) or grossly
//! oversized (the view zoomed in past half its extent).

use vstd::prelude::*;
use crate::BOUND_LIMIT;
use crate::COORD_LIMIT;
use crate::DEFAULT_SCALE;
use crate::DEFAULT_WINDOW_HEIGHT;
use crate::DEFAULT_WINDOW_WIDTH;
use crate::MAX_SCALE;
use crate::MAX_WINDOW_DIM;
use crate::MIN_SCALE;
use crate::MIN_WINDOW_DIM;
use crate::PAN_DEADZONE_SQ;
use crate::PREGENERATE_DISTANCE_FACTOR;
use crate::ZOOM_DENOM;
use crate::ZOOM_NUMER;

verus! {

/// A closed world-space interval in micro-units.
#[derive(Clone, Copy, Debug, PartialEq, Eq, Structural)]
pub struct Bounds {
    pub start: i64,
    pub end: i64,
}

/// The camera state: world-space centre and scale, in micro-units. The
/// scale is half the world-space width of the visible viewport.
#[derive(Clone, Copy, Debug, PartialEq, Eq, Structural)]
pub struct GraphingView {
    pub centre_x: i64,
    pub centre_y: i64,
    pub scale: i64,
}

/// Window dimensions in micro-pixels; the aspect ratio drives the visible
/// y-extent from the x-scale.
#[derive(Clone, Copy, Debug, PartialEq, Eq, Structural)]
pub struct WindowSize {
    pub width: i64,
    pub height: i64,
}

/// Only renders functions within these xbounds: the world-space region that
/// geometry is currently generated for, a superset of the visible region.
#[derive(Clone, Copy, Debug, PartialEq, Eq, Structural)]
pub struct GraphingBounds {
    pub xbounds: Bounds,
    pub ybounds: Bounds,
}

/// Error for an input event the viewport must reject.
#[derive(Clone, Copy, Debug, PartialEq, Eq, Structural)]
pub enum ViewportError {
    /// A window-resize notification carried a dimension outside
    /// [`MIN_WINDOW_DIM`, `MAX_WINDOW_DIM`].
    InvalidWindowSize,
}

impl Bounds {
    /// Well-formed: ordered endpoints within the representable band.
    pub open spec fn wf(self) -> bool {
        -BOUND_LIMIT <= self.start <= self.end <= BOUND_LIMIT
    }

    /// World-space length of the interval.
    pub open spec fn spec_extent(self) -> int {
        self.end - self.start
    }

    /// Midpoint, rounded down to a micro-unit.
    pub open spec fn spec_centre(self) -> int {
        (self.start + self.end) / 2
    }

    /// Midpoint of the interval, rounded down to a micro-unit.
    pub fn centre(&self) -> (r: i64)
        requires
            self.wf(),
        ensures
            r == self.spec_centre(),
    {
        let sum: i128 = self.start as i128 + self.end as i128;
        if sum >= 0 {
            ((sum as u128) / 2) as i64
        } else {
            let m: u128 = (-sum) as u128;
            let q: u128 = (m + 1) / 2;
            proof {
                let s = self.start + self.end;
                vstd::arithmetic::div_mod::lemma_fundamental_div_mod(m + 1, 2);
                let q2 = (m + 1) as int / 2;
                let r2 = (m + 1) as int % 2;
                vstd::arithmetic::div_mod::lemma_fundamental_div_mod_converse(
                    s,
                    2,
                    -q2,
                    1 - r2,
                );
            }
            -(q as i64)
        }
    }
}

impl GraphingView {
    /// Well-formed: the centre sits within the coordinate band and the
    /// scale within the clamped zoom range.
    pub open spec fn wf(self) -> bool {
        &&& -COORD_LIMIT <= self.centre_x <= COORD_LIMIT
        &&& -COORD_LIMIT <= self.centre_y <= COORD_LIMIT
        &&& MIN_SCALE <= self.scale <= MAX_SCALE
    }

    /// The world-space x-interval currently visible.
    pub open spec fn spec_visible_xbounds(self) -> Bounds {
        Bounds {
            start: (self.centre_x - self.scale) as i64,
            end: (self.centre_x + self.scale) as i64,
        }
    }

    /// Half the visible y-extent: the scale stretched by the aspect ratio,
    /// rounded down to a micro-unit.
    pub open spec fn spec_visible_dy(self, window: WindowSize) -> int {
        self.scale * window.height / window.width as int
    }

    /// The world-space y-interval currently visible.
    pub open spec fn spec_visible_ybounds(self, window: WindowSize) -> Bounds {
        Bounds {
            start: (self.centre_y - self.spec_visible_dy(window)) as i64,
            end: (self.centre_y + self.spec_visible_dy(window)) as i64,
        }
    }

    /// Visible x-interval: `[centre_x - scale, centre_x + scale]`.
    pub fn visible_xbounds(&self, _window: &WindowSize) -> (r: Bounds)
        requires
            self.wf(),
        ensures
            r == self.spec_visible_xbounds(),
            r.start == self.centre_x - self.scale,
            r.end == self.centre_x + self.scale,
            r.wf(),
            r.spec_extent() == 2 * self.scale,
    {
        Bounds { start: self.centre_x - self.scale, end: self.centre_x + self.scale }
    }

    /// Visible y-interval: `[centre_y - dy, centre_y + dy]` with
    /// `dy = scale * height / width`.
    pub fn visible_ybounds(&self, window: &WindowSize) -> (r: Bounds)
        requires
            self.wf(),
            window.wf(),
        ensures
            r == self.spec_visible_ybounds(*window),
            r.start == self.centre_y - self.spec_visible_dy(*window),
            r.end == self.centre_y + self.spec_visible_dy(*window),
            r.wf(),
            r.spec_extent() == 2 * self.spec_visible_dy(*window),
    {
        proof {
            lemma_visible_dy_in_range(*self, *window);
            assert(self.scale * window.height <= 0x1_0000_0000_0000_0000_0000_0000int)
                by (nonlinear_arith)
                requires
                    0 <= self.scale <= MAX_SCALE,
                    0 <= window.height <= MAX_WINDOW_DIM,
            ;
        }
        let dy_wide: u128 = (self.scale as u128) * (window.height as u128) / (window.width
            as u128);
        let dy: i64 = dy_wide as i64;
        Bounds { start: self.centre_y - dy, end: self.centre_y + dy }
    }
}

/// The visible half-y-extent of a well-formed view in a well-formed window
/// is a small nonnegative number of micro-units.
pub proof fn lemma_visible_dy_in_range(view: GraphingView, window: WindowSize)
    requires
        view.wf(),
        window.wf(),
    ensures
        0 <= view.spec_visible_dy(window) <= 100_000_000_000_000_000,
{
    assert(view.scale * window.height >= 0) by (nonlinear_arith)
        requires
            view.scale >= 0,
            window.height >= 0,
    ;
    vstd::arithmetic::div_mod::lemma_div_pos_is_pos(view.scale * window.height, window.width as int);
    assert(view.scale * window.height <= MAX_SCALE * MAX_WINDOW_DIM) by (nonlinear_arith)
        requires
            0 <= view.scale <= MAX_SCALE,
            0 <= window.height <= MAX_WINDOW_DIM,
    ;
    vstd::arithmetic::div_mod::lemma_div_is_ordered(
        view.scale * window.height,
        MAX_SCALE * MAX_WINDOW_DIM,
        window.width as int,
    );
    vstd::arithmetic::div_mod::lemma_div_is_ordered_by_denominator(
        MAX_SCALE * MAX_WINDOW_DIM,
        MIN_WINDOW_DIM as int,
        window.width as int,
    );
}

impl WindowSize {
    /// Well-formed: both dimensions within the accepted pixel range.
    pub open spec fn wf(self) -> bool {
        &&& MIN_WINDOW_DIM <= self.width <= MAX_WINDOW_DIM
        &&& MIN_WINDOW_DIM <= self.height <= MAX_WINDOW_DIM
    }
}

impl Default for WindowSize {
    /// The startup window: 640 by 640 pixels.
    fn default() -> (r: Self)
        ensures
            r.width == DEFAULT_WINDOW_WIDTH,
            r.height == DEFAULT_WINDOW_HEIGHT,
            r.wf(),
    {
        WindowSize { width: DEFAULT_WINDOW_WIDTH, height: DEFAULT_WINDOW_HEIGHT }
    }
}

impl Default for GraphingView {
    /// The startup view: centred on the origin at the default scale.
    fn default() -> (r: Self)
        ensures
            r.centre_x == 0,
            r.centre_y == 0,
            r.scale == DEFAULT_SCALE,
            r.wf(),
    {
        GraphingView { centre_x: 0, centre_y: 0, scale: DEFAULT_SCALE }
    }
}

impl GraphingBounds {
    /// Well-formed: both intervals are.
    pub open spec fn wf(self) -> bool {
        self.xbounds.wf() && self.ybounds.wf()
    }
}

/// The hysteresis predicate: regeneration is due when the visible region
/// exceeds the generation bounds on any side, or when the visible extent
/// has shrunk below `1 / PREGENERATE_DISTANCE_FACTOR` of the generation
/// extent on either axis.
pub open spec fn spec_should_regenerate(
    visible_xbounds: Bounds,
    visible_ybounds: Bounds,
    bounds: GraphingBounds,
) -> bool {
    ||| visible_xbounds.start < bounds.xbounds.start
    ||| visible_xbounds.end > bounds.xbounds.end
    ||| visible_xbounds.spec_extent() * PREGENERATE_DISTANCE_FACTOR < bounds.xbounds.spec_extent()
    ||| visible_ybounds.start < bounds.ybounds.start
    ||| visible_ybounds.end > bounds.ybounds.end
    ||| visible_ybounds.spec_extent() * PREGENERATE_DISTANCE_FACTOR < bounds.ybounds.spec_extent()
}

/// Decides whether the cached generation bounds have become insufficient or
/// grossly oversized for the currently visible region.
pub fn should_regenerate(
    visible_xbounds: &Bounds,
    visible_ybounds: &Bounds,
    bounds: &GraphingBounds,
) -> (r: bool)
    requires
        visible_xbounds.wf(),
        visible_ybounds.wf(),
        bounds.wf(),
    ensures
        r == spec_should_regenerate(*visible_xbounds, *visible_ybounds, *bounds),
{
    visible_xbounds.start < bounds.xbounds.start || visible_xbounds.end > bounds.xbounds.end || (
    visible_xbounds.end - visible_xbounds.start) * PREGENERATE_DISTANCE_FACTOR < bounds.xbounds.end
        - bounds.xbounds.start || visible_ybounds.start < bounds.ybounds.start
        || visible_ybounds.end > bounds.ybounds.end || (visible_ybounds.end
        - visible_ybounds.start) * PREGENERATE_DISTANCE_FACTOR < bounds.ybounds.end
        - bounds.ybounds.start
}

/// The generation bounds a view and window call for: centred on the visible
/// centre, `PREGENERATE_DISTANCE_FACTOR` times its half-extents.
pub open spec fn spec_recalculate_graphing_bounds(
    view: GraphingView,
    window: WindowSize,
) -> GraphingBounds {
    let dy = view.spec_visible_dy(window);
    GraphingBounds {
        xbounds: Bounds {
            start: (view.centre_x - PREGENERATE_DISTANCE_FACTOR * view.scale) as i64,
            end: (view.centre_x + PREGENERATE_DISTANCE_FACTOR * view.scale) as i64,
        },
        ybounds: Bounds {
            start: (view.centre_y - PREGENERATE_DISTANCE_FACTOR * dy) as i64,
            end: (view.centre_y + PREGENERATE_DISTANCE_FACTOR * dy) as i64,
        },
    }
}

/// Builds fresh generation bounds: exactly `PREGENERATE_DISTANCE_FACTOR`
/// times the visible extent on each axis, sharing the visible centre.
pub fn recalculate_graphing_bounds(view: &GraphingView, window: &WindowSize) -> (r: GraphingBounds)
    requires
        view.wf(),
        window.wf(),
    ensures
        r == spec_recalculate_graphing_bounds(*view, *window),
        r.wf(),
        r.xbounds.spec_extent() == PREGENERATE_DISTANCE_FACTOR
            * view.spec_visible_xbounds().spec_extent(),
        r.ybounds.spec_extent() == PREGENERATE_DISTANCE_FACTOR * view.spec_visible_ybounds(
            *window,
        ).spec_extent(),
        r.xbounds.start + r.xbounds.end == view.spec_visible_xbounds().start
            + view.spec_visible_xbounds().end,
        r.ybounds.start + r.ybounds.end == view.spec_visible_ybounds(*window).start
            + view.spec_visible_ybounds(*window).end,
{
    proof {
        lemma_visible_dy_in_range(*view, *window);
    }
    let vis_y = view.visible_ybounds(window);
    let dy: i64 = vis_y.end - view.centre_y;
    GraphingBounds {
        xbounds: Bounds {
            start: view.centre_x - PREGENERATE_DISTANCE_FACTOR * view.scale,
            end: view.centre_x + PREGENERATE_DISTANCE_FACTOR * view.scale,
        },
        ybounds: Bounds {
            start: view.centre_y - PREGENERATE_DISTANCE_FACTOR * dy,
            end: view.centre_y + PREGENERATE_DISTANCE_FACTOR * dy,
        },
    }
}

/// Freshly recalculated bounds are quiescent: the hysteresis predicate does
/// not fire on the very view and window they were built from, so an
/// unchanged view never triggers regeneration twice in a row.
pub proof fn lemma_recalculated_bounds_are_quiescent(view: GraphingView, window: WindowSize)
    requires
        view.wf(),
        window.wf(),
    ensures
        !spec_should_regenerate(
            view.spec_visible_xbounds(),
            view.spec_visible_ybounds(window),
            spec_recalculate_graphing_bounds(view, window),
        ),
{
    lemma_visible_dy_in_range(view, window);
}

/// One zoom-in step: the scale shrinks by the zoom factor, clamped at
/// `MIN_SCALE`.
pub open spec fn spec_zoom_in_once(s: int) -> int {
    let t = s * ZOOM_DENOM / ZOOM_NUMER as int;
    if t < MIN_SCALE {
        MIN_SCALE as int
    } else {
        t
    }
}

/// One zoom-out step: the scale grows by the zoom factor, clamped at
/// `MAX_SCALE`.
pub open spec fn spec_zoom_out_once(s: int) -> int {
    let t = s * ZOOM_NUMER / ZOOM_DENOM as int;
    if t > MAX_SCALE {
        MAX_SCALE as int
    } else {
        t
    }
}

/// The scale after `n` cumulative scroll steps: positive `n` (scroll up)
/// zooms in, negative zooms out.
pub open spec fn spec_zoom(s: int, n: int) -> int
    decreases
            if n >= 0 {
                n
            } else {
                -n
            },
{
    if n == 0 {
        s
    } else if n > 0 {
        spec_zoom(spec_zoom_in_once(s), n - 1)
    } else {
        spec_zoom(spec_zoom_out_once(s), n + 1)
    }
}

/// A single zoom-in step shrinks the scale but keeps it in range.
proof fn lemma_zoom_in_once_range(s: int)
    requires
        MIN_SCALE <= s <= MAX_SCALE,
    ensures
        MIN_SCALE <= spec_zoom_in_once(s) <= s,
{
    vstd::arithmetic::mul::lemma_mul_inequality(ZOOM_DENOM as int, ZOOM_NUMER as int, s);
    vstd::arithmetic::div_mod::lemma_div_is_ordered(
        s * ZOOM_DENOM,
        s * ZOOM_NUMER,
        ZOOM_NUMER as int,
    );
    vstd::arithmetic::div_mod::lemma_div_by_multiple(s, ZOOM_NUMER as int);
    assert(s * ZOOM_DENOM == ZOOM_DENOM * s) by (nonlinear_arith);
    assert(s * ZOOM_NUMER == ZOOM_NUMER * s) by (nonlinear_arith);
}

/// A single zoom-out step grows the scale but keeps it in range.
proof fn lemma_zoom_out_once_range(s: int)
    requires
        MIN_SCALE <= s <= MAX_SCALE,
    ensures
        s <= spec_zoom_out_once(s) <= MAX_SCALE,
{
    vstd::arithmetic::mul::lemma_mul_inequality(ZOOM_DENOM as int, ZOOM_NUMER as int, s);
    vstd::arithmetic::div_mod::lemma_div_is_ordered(
        s * ZOOM_DENOM,
        s * ZOOM_NUMER,
        ZOOM_DENOM as int,
    );
    vstd::arithmetic::div_mod::lemma_div_by_multiple(s, ZOOM_DENOM as int);
    assert(s * ZOOM_DENOM == ZOOM_DENOM * s) by (nonlinear_arith);
    assert(s * ZOOM_NUMER == ZOOM_NUMER * s) by (nonlinear_arith);
}

/// Zooming preserves the clamped scale range.
pub proof fn lemma_zoom_stays_in_range(s: int, n: int)
    requires
        MIN_SCALE <= s <= MAX_SCALE,
    ensures
        MIN_SCALE <= spec_zoom(s, n) <= MAX_SCALE,
    decreases
            if n >= 0 {
                n
            } else {
                -n
            },
{
    if n > 0 {
        lemma_zoom_in_once_range(s);
        lemma_zoom_stays_in_range(spec_zoom_in_once(s), n - 1);
    } else if n < 0 {
        lemma_zoom_out_once_range(s);
        lemma_zoom_stays_in_range(spec_zoom_out_once(s), n + 1);
    }
}

/// Unfolds one zoom-in step off the right end of a step sequence.
proof fn lemma_zoom_in_unfold_right(s: int, n: int)
    requires
        n >= 0,
    ensures
        spec_zoom(s, n + 1) == spec_zoom_in_once(spec_zoom(s, n)),
    decreases n,
{
    if n > 0 {
        lemma_zoom_in_unfold_right(spec_zoom_in_once(s), n - 1);
    } else {
        assert(spec_zoom(s, 1) == spec_zoom(spec_zoom_in_once(s), 0));
    }
}

/// Unfolds one zoom-out step off the right end of a step sequence.
proof fn lemma_zoom_out_unfold_right(s: int, n: int)
    requires
        n <= 0,
    ensures
        spec_zoom(s, n - 1) == spec_zoom_out_once(spec_zoom(s, n)),
    decreases -n,
{
    if n < 0 {
        lemma_zoom_out_unfold_right(spec_zoom_out_once(s), n + 1);
    } else {
        assert(spec_zoom(s, -1) == spec_zoom(spec_zoom_out_once(s), 0));
    }
}

/// Once the scale sits at `MIN_SCALE`, further zooming in leaves it there.
proof fn lemma_zoom_in_saturates(n: int)
    requires
        n >= 0,
    ensures
        spec_zoom(MIN_SCALE as int, n) == MIN_SCALE,
    decreases n,
{
    if n > 0 {
        assert(spec_zoom_in_once(MIN_SCALE as int) == MIN_SCALE);
        lemma_zoom_in_saturates(n - 1);
    }
}

/// Once the scale sits at `MAX_SCALE`, further zooming out leaves it there.
proof fn lemma_zoom_out_saturates(n: int)
    requires
        n <= 0,
    ensures
        spec_zoom(MAX_SCALE as int, n) == MAX_SCALE,
    decreases -n,
{
    if n < 0 {
        assert(spec_zoom_out_once(MAX_SCALE as int) == MAX_SCALE);
        lemma_zoom_out_saturates(n + 1);
    }
}

/// Applies a tick's cumulative scroll to the view: `scroll_steps` whole
/// wheel clicks, positive for scroll up. The scale is multiplied by the
/// zoom factor once per step (shrunk for positive steps, grown for
/// negative), clamping at the edges of the scale range; the centre is
/// untouched.
pub fn zoom_system(view: &mut GraphingView, scroll_steps: i64)
    requires
        old(view).wf(),
    ensures
        final(view).wf(),
        final(view).centre_x == old(view).centre_x,
        final(view).centre_y == old(view).centre_y,
        final(view).scale == spec_zoom(old(view).scale as int, scroll_steps as int),
{
    proof {
        lemma_zoom_stays_in_range(old(view).scale as int, scroll_steps as int);
    }
    if scroll_steps >= 0 {
        let mut i: i64 = 0;
        while i < scroll_steps && view.scale > MIN_SCALE
            invariant
                0 <= i <= scroll_steps,
                MIN_SCALE <= view.scale <= MAX_SCALE,
                view.scale == spec_zoom(old(view).scale as int, i as int),
                view.centre_x == old(view).centre_x,
                view.centre_y == old(view).centre_y,
            decreases scroll_steps - i,
        {
            proof {
                lemma_zoom_in_unfold_right(old(view).scale as int, i as int);
                lemma_zoom_in_once_range(view.scale as int);
            }
            let t: i64 = ((view.scale as u64) * (ZOOM_DENOM as u64) / (ZOOM_NUMER as u64)) as i64;
            view.scale = if t < MIN_SCALE {
                MIN_SCALE
            } else {
                t
            };
            i = i + 1;
        }
        proof {
            if i < scroll_steps {
                lemma_zoom_in_saturates((scroll_steps - i) as int);
                lemma_zoom_compose(old(view).scale as int, i as int, (scroll_steps - i) as int);
            }
        }
    } else {
        let mut i: i64 = 0;
        while i > scroll_steps && view.scale < MAX_SCALE
            invariant
                scroll_steps <= i <= 0,
                MIN_SCALE <= view.scale <= MAX_SCALE,
                view.scale == spec_zoom(old(view).scale as int, i as int),
                view.centre_x == old(view).centre_x,
                view.centre_y == old(view).centre_y,
            decreases i - scroll_steps,
        {
            proof {
                lemma_zoom_out_unfold_right(old(view).scale as int, i as int);
                lemma_zoom_out_once_range(view.scale as int);
            }
            let t: i64 = ((view.scale as u64) * (ZOOM_NUMER as u64) / (ZOOM_DENOM as u64)) as i64;
            view.scale = if t > MAX_SCALE {
                MAX_SCALE
            } else {
                t
            };
            i = i - 1;
        }
        proof {
            if i > scroll_steps {
                lemma_zoom_out_saturates((scroll_steps - i) as int);
                lemma_zoom_compose(old(view).scale as int, i as int, (scroll_steps - i) as int);
            }
        }
    }
}

/// Step sequences compose: zooming `a` then `b` steps of the same sign is
/// zooming `a + b` steps.
proof fn lemma_zoom_compose(s: int, a: int, b: int)
    requires
        a >= 0 && b >= 0 || a <= 0 && b <= 0,
    ensures
        spec_zoom(s, a + b) == spec_zoom(spec_zoom(s, a), b),
    decreases
            if a >= 0 {
                a
            } else {
                -a
            },
{
    if a > 0 {
        lemma_zoom_compose(spec_zoom_in_once(s), a - 1, b);
    } else if a < 0 {
        lemma_zoom_compose(spec_zoom_out_once(s), a + 1, b);
    }
}

/// The world-space displacement of a pan: `2 * delta * scale / width`
/// micro-units, truncated toward zero, so pan speed stays proportional to
/// the current zoom.
pub open spec fn spec_pan_shift(delta: int, scale: int, width: int) -> int {
    if delta >= 0 {
        2 * delta * scale / width
    } else {
        -(2 * -delta * scale / width)
    }
}

/// Clamps a centre coordinate into the representable band.
pub open spec fn spec_clamp_coord(c: int) -> int {
    if c < -COORD_LIMIT {
        -COORD_LIMIT as int
    } else if c > COORD_LIMIT {
        COORD_LIMIT as int
    } else {
        c
    }
}

/// The screen-to-world inversion of the y drag component, saturating at
/// `i64::MAX` for the one unrepresentable negation.
pub open spec fn spec_negated_delta(d: i64) -> int {
    if d == i64::MIN {
        i64::MAX as int
    } else {
        -(d as int)
    }
}

/// Whether a tick's cumulative drag moves the view: the primary button
/// must be held and the squared screen distance must clear the dead-zone.
pub open spec fn spec_pan_moves(delta_x: int, delta_y: int, left_pressed: bool) -> bool {
    left_pressed && delta_x * delta_x + delta_y * delta_y > PAN_DEADZONE_SQ
}

/// Applies a tick's cumulative pointer drag to the view while the primary
/// button is held. The screen-space y component is inverted (screen y grows
/// downward, world y upward), the displacement is `2 * scale / width` world
/// micro-units per micro-pixel, and the centre saturates at the coordinate
/// band. Returns whether the view moved.
pub fn pan_system(
    view: &mut GraphingView,
    window: &WindowSize,
    delta_x: i64,
    delta_y: i64,
    left_pressed: bool,
) -> (moved: bool)
    requires
        old(view).wf(),
        window.wf(),
    ensures
        moved == spec_pan_moves(delta_x as int, delta_y as int, left_pressed),
        final(view).wf(),
        final(view).scale == old(view).scale,
        moved ==> final(view).centre_x == spec_clamp_coord(
            old(view).centre_x - spec_pan_shift(
                delta_x as int,
                old(view).scale as int,
                window.width as int,
            ),
        ),
        moved ==> final(view).centre_y == spec_clamp_coord(
            old(view).centre_y - spec_pan_shift(
                spec_negated_delta(delta_y),
                old(view).scale as int,
                window.width as int,
            ),
        ),
        !moved ==> *final(view) == *old(view),
{
    let dx2: u128 = square_magnitude(delta_x);
    let dy2: u128 = square_magnitude(delta_y);
    if left_pressed && dx2 + dy2 > PAN_DEADZONE_SQ as u128 {
        let cx: i64 = pan_coordinate(view.centre_x, delta_x, view.scale, window.width);
        let cy: i64 = pan_coordinate(view.centre_y, negated(delta_y), view.scale, window.width);
        view.centre_x = cx;
        view.centre_y = cy;
        true
    } else {
        false
    }
}

/// The square of a screen delta, computed on its magnitude so the widening
/// multiplication cannot overflow.
fn square_magnitude(d: i64) -> (r: u128)
    ensures
        r == d * d,
        r <= 0x4000_0000_0000_0000_0000_0000_0000_0000u128,
{
    let m: u128 = if d >= 0 {
        d as u128
    } else {
        (-(d as i128)) as u128
    };
    proof {
        assert(m * m == d * d && m * m <= 0x4000_0000_0000_0000_0000_0000_0000_0000int)
            by (nonlinear_arith)
            requires
                m == d && 0 <= d <= 0x8000_0000_0000_0000 || m == -(d as int) && 0 <= -(d as int)
                    <= 0x8000_0000_0000_0000,
        ;
    }
    m * m
}

/// Negation of a screen delta, saturating at `i64::MAX` so the screen-to-
/// world inversion is total.
fn negated(d: i64) -> (r: i64)
    ensures
        d == i64::MIN ==> r == i64::MAX,
        d != i64::MIN ==> r == -d,
{
    if d == i64::MIN {
        i64::MAX
    } else {
        -d
    }
}

/// One panned centre coordinate: the old value less the world-space
/// displacement of the drag, saturated at the coordinate band.
fn pan_coordinate(centre: i64, delta: i64, scale: i64, width: i64) -> (r: i64)
    requires
        -COORD_LIMIT <= centre <= COORD_LIMIT,
        MIN_SCALE <= scale <= MAX_SCALE,
        MIN_WINDOW_DIM <= width <= MAX_WINDOW_DIM,
    ensures
        r == spec_clamp_coord(centre - spec_pan_shift(delta as int, scale as int, width as int)),
        -COORD_LIMIT <= r <= COORD_LIMIT,
{
    let mag: u128 = if delta >= 0 {
        delta as u128
    } else {
        (-(delta as i128)) as u128
    };
    proof {
        assert(2 * mag * scale <= 0x400_0000_0000_0000_0000_0000_0000_0000int) by (nonlinear_arith)
            requires
                0 <= mag <= 0x8000_0000_0000_0000,
                0 <= scale <= MAX_SCALE,
        ;
    }
    let num: u128 = 2 * mag * (scale as u128);
    let shift_mag: u128 = num / (width as u128);
    proof {
        vstd::arithmetic::div_mod::lemma_div_pos_is_pos(num as int, width as int);
        vstd::arithmetic::div_mod::lemma_div_is_ordered_by_denominator(num as int, 1, width as int);
        vstd::arithmetic::div_mod::lemma_div_basics(num as int);
        assert(shift_mag <= num);
    }
    let shifted: i128 = if delta >= 0 {
        (centre as i128) - (shift_mag as i128)
    } else {
        (centre as i128) + (shift_mag as i128)
    };
    let clamped: i128 = if shifted < -(COORD_LIMIT as i128) {
        -(COORD_LIMIT as i128)
    } else if shifted > COORD_LIMIT as i128 {
        COORD_LIMIT as i128
    } else {
        shifted
    };
    clamped as i64
}

/// Overwrites the cached window size from a resize notification, rejecting
/// dimensions outside the accepted pixel range. On rejection the cached
/// size is untouched.
pub fn window_resize(window: &mut WindowSize, width: i64, height: i64) -> (r: Result<
    (),
    ViewportError,
>)
    ensures
        r is Ok <==> (MIN_WINDOW_DIM <= width <= MAX_WINDOW_DIM && MIN_WINDOW_DIM <= height
            <= MAX_WINDOW_DIM),
        r is Ok ==> *final(window) == (WindowSize { width, height }),
        r is Err ==> *final(window) == *old(window),
        r is Ok ==> final(window).wf(),
{
    if MIN_WINDOW_DIM <= width && width <= MAX_WINDOW_DIM && MIN_WINDOW_DIM <= height && height
        <= MAX_WINDOW_DIM {
        window.width = width;
        window.height = height;
        Ok(())
    } else {
        Err(ViewportError::InvalidWindowSize)
    }
}

} // verus!
