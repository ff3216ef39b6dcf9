//! The curve tessellator: turns a batch of evaluator samples over an
//! x-interval into a constant-width ribbon mesh.
//!
//! The external evaluator is an opaque batch function from x-values to
//! y-values; the host calls it on the grid `sample_xs` produces and hands
//! the samples back here. Samples are clamped into the representable band
//! first, so a wild or non-finite evaluator result (which the host maps to
//! the band's edge) cannot poison the whole ribbon. Each sample gets a
//! finite-difference unit normal, computed exactly with an integer square
//! root: the normal of the segment slope `s` is `(-s, 1) / sqrt(s^2 + 1)`,
//! scaled to `UNIT` micro-units of length, and the last normal is
//! duplicated so the normal array matches the sample count.

use vstd::prelude::*;
use crate::HALF_WIDTH;
use crate::UNIT;
use crate::VALUE_LIMIT;
use crate::gen_mesh::Point3;
use crate::scaling::Bounds;

verus! {

/// Triangle-strip geometry for the curve ribbon: two vertices per sample,
/// offset from the sample by plus and minus the scaled normal, with the
/// per-vertex normals and a contiguous index list.
#[derive(Clone, Debug, PartialEq, Eq)]
pub struct RibbonMesh {
    pub positions: Vec<Point3>,
    pub normals: Vec<Point3>,
    pub indices: Vec<u32>,
}

/// Error for sample batches the tessellator must reject.
#[derive(Clone, Copy, Debug, PartialEq, Eq, Structural)]
pub enum TessellationError {
    /// Fewer than two samples: no finite difference exists.
    InvalidSampleCount,
    /// The x-interval is too narrow for the sample count: the sample step
    /// collapses to zero micro-units.
    DegenerateBounds,
    /// More vertices than a 32-bit index can address.
    TooManyVertices,
}

/// The sample step across an interval: its extent split into `resolution`
/// equal micro-unit steps, rounded down.
pub open spec fn spec_dx(b: Bounds, resolution: int) -> int {
    b.spec_extent() / resolution
}

/// A sample value clamped into the representable band.
pub open spec fn spec_clamp_value(v: int) -> int {
    if v < -VALUE_LIMIT {
        -VALUE_LIMIT as int
    } else if v > VALUE_LIMIT {
        VALUE_LIMIT as int
    } else {
        v
    }
}

/// What the tessellator guarantees of the unit normal it derives from a
/// finite difference `dy` over a step `dx`: unit length to within a few
/// millionths, orthogonal to the segment direction to within one step,
/// pointing against the slope, and exactly `(0, UNIT)` on flat ground.
pub open spec fn spec_normal_props(n: (i64, i64), dy: int, dx: int) -> bool {
    let e = if dy >= 0 {
        dy
    } else {
        -dy
    };
    &&& 0 <= n.1 <= 1_000_000
    &&& -1_000_000 <= n.0 <= 1_000_000
    &&& (dy == 0 ==> n.0 == 0 && n.1 == UNIT)
    &&& (dy > 0 ==> n.0 <= 0)
    &&& (dy < 0 ==> n.0 >= 0)
    &&& 999_995_000_000 <= n.0 * n.0 + n.1 * n.1 <= 1_000_003_000_000
    &&& -(dx + e) < n.0 * dx + n.1 * dy < dx + e
}

/// Integer square root by bisection: the greatest `r` with `r * r <= x`.
fn isqrt_u128(x: u128) -> (r: u128)
    requires
        x < 0xfffffffffffffffe_0000000000000001u128,
    ensures
        r * r <= x,
        x < (r + 1) * (r + 1),
{
    let mut lo: u128 = 0;
    let mut hi: u128 = 0xffffffffffffffffu128;
    proof {
        assert(0xffffffffffffffffu128 * 0xffffffffffffffffu128
            == 0xfffffffffffffffe_0000000000000001u128) by (nonlinear_arith);
    }
    while lo + 1 < hi
        invariant
            lo < hi <= 0xffffffffffffffffu128,
            lo * lo <= x,
            x < hi * hi,
        decreases hi - lo,
    {
        proof {
            vstd::arithmetic::div_mod::lemma_div_is_ordered(2, (hi - lo) as int, 2);
            vstd::arithmetic::div_mod::lemma_div_is_strictly_smaller((hi - lo) as int, 2);
        }
        let mid: u128 = lo + (hi - lo) / 2;
        proof {
            assert(mid * mid <= 0xfffffffffffffffe_0000000000000001u128) by (nonlinear_arith)
                requires
                    0 <= mid <= 0xffffffffffffffffu128,
            ;
        }
        if mid * mid <= x {
            lo = mid;
        } else {
            hi = mid;
        }
    }
    lo
}

/// The finite-difference unit normal of a segment with rise `dy` over run
/// `dx`, scaled to `UNIT` micro-units: the segment direction rotated a
/// quarter turn and normalised by an integer square root.
fn unit_normal(dy: i64, dx: i64) -> (n: (i64, i64))
    requires
        1 <= dx <= 2_000_000_000_000_000_000,
        -2_000_000_000_000_000 <= dy <= 2_000_000_000_000_000,
    ensures
        spec_normal_props(n, dy as int, dx as int),
{
    let e: u128 = if dy >= 0 {
        dy as u128
    } else {
        (-dy) as u128
    };
    let dxu: u128 = dx as u128;
    proof {
        assert(dxu * dxu <= 4_000_000_000_000_000_000_000_000_000_000_000_000int && e * e
            <= 4_000_000_000_000_000_000_000_000_000_000int && dxu * dxu >= 1)
            by (nonlinear_arith)
            requires
                1 <= dxu <= 2_000_000_000_000_000_000,
                0 <= e <= 2_000_000_000_000_000,
        ;
    }
    let n2: u128 = dxu * dxu + e * e;
    let c: u128;
    let m: u128;
    if n2 < 1_000_000_000_000 {
        c = 1_000_000_000_000;
        m = n2 * 1_000_000_000_000;
    } else {
        c = 1_000_000;
        m = n2;
    }
    proof {
        assert(m * 1_000_000_000_000 == n2 * (c * c) && m >= 1_000_000_000_000 && m
            < 0xfffffffffffffffe_0000000000000001u128) by (nonlinear_arith)
            requires
                1 <= n2 <= 4_100_000_000_000_000_000_000_000_000_000_000_000int,
                n2 < 1_000_000_000_000 ==> (c == 1_000_000_000_000 && m == n2
                    * 1_000_000_000_000),
                n2 >= 1_000_000_000_000 ==> (c == 1_000_000 && m == n2),
        ;
    }
    let h: u128 = isqrt_u128(m);
    proof {
        assert(h >= 1_000_000) by (nonlinear_arith)
            requires
                (h + 1) * (h + 1) > m,
                m >= 1_000_000_000_000,
                h >= 0,
        ;
        assert(dxu * c <= 4_000_000_000_000_000_000_000_000_000_000int && e * c
            <= 4_000_000_000_000_000_000_000_000_000_000int) by (nonlinear_arith)
            requires
                1 <= dxu <= 2_000_000_000_000_000_000,
                0 <= e <= 2_000_000_000_000_000,
                c <= 1_000_000_000_000,
        ;
    }
    let a: u128 = dxu * c;
    let b: u128 = e * c;
    proof {
        lemma_component_bounds(
            a as int,
            b as int,
            h as int,
            m as int,
            n2 as int,
            c as int,
            dxu as int,
            e as int,
        );
    }
    let nyu: u128 = a / h;
    let nxu: u128 = b / h;
    proof {
        lemma_normal_quality(a as int, b as int, h as int, m as int, nyu as int, nxu as int);
        if e == 0 {
            assert(b == 0 && e * e == 0 && n2 == dxu * dxu) by (nonlinear_arith)
                requires
                    e == 0,
                    b == e * c,
                    n2 == dxu * dxu + e * e,
            ;
            vstd::arithmetic::div_mod::lemma_div_of0(h as int);
            lemma_flat_normal(a as int, h as int, m as int, c as int, dxu as int);
        }
        if e > 0 {
            assert(b * dxu == a * e) by (nonlinear_arith)
                requires
                    a == dxu * c,
                    b == e * c,
            ;
            lemma_cross_bounds(
                a as int,
                b as int,
                h as int,
                nyu as int,
                nxu as int,
                dxu as int,
                e as int,
            );
        }
    }
    let ny: i64 = nyu as i64;
    let nx: i64 = if dy > 0 {
        -(nxu as i64)
    } else {
        nxu as i64
    };
    proof {
        assert((-(nxu as int)) * (-(nxu as int)) == nxu * nxu) by (nonlinear_arith);
        if dy > 0 {
            assert((-(nxu as int)) * dx + nyu * dy == nyu * e - nxu * dxu) by (nonlinear_arith)
                requires
                    e == dy,
                    dxu == dx,
            ;
        } else if dy < 0 {
            assert(nxu * dx + nyu * dy == -(nyu * e - nxu * dxu)) by (nonlinear_arith)
                requires
                    e == -dy,
                    dxu == dx,
            ;
        }
    }
    (nx, ny)
}

/// The numerators stay under `(h + 1) * UNIT`, so each quotient fits in a
/// micro-unit normal component.
proof fn lemma_component_bounds(a: int, b: int, h: int, m: int, n2: int, c: int, dx: int, e: int)
    requires
        a == dx * c,
        b == e * c,
        m * 1_000_000_000_000 == n2 * (c * c),
        n2 == dx * dx + e * e,
        h * h <= m < (h + 1) * (h + 1),
        h >= 1_000_000,
        dx >= 1,
        e >= 0,
        c >= 1,
    ensures
        a * a + b * b == m * 1_000_000_000_000,
        0 < a < (h + 1) * 1_000_000,
        0 <= b < (h + 1) * 1_000_000,
        a < h * 1_000_001,
        b < h * 1_000_001,
        a / h <= 1_000_000,
        b / h <= 1_000_000,
{
    assert(a * a + b * b == n2 * (c * c)) by (nonlinear_arith)
        requires
            a == dx * c,
            b == e * c,
            n2 == dx * dx + e * e,
    ;
    assert(a * a < ((h + 1) * 1_000_000) * ((h + 1) * 1_000_000) && b * b < ((h + 1) * 1_000_000)
        * ((h + 1) * 1_000_000)) by (nonlinear_arith)
        requires
            a * a + b * b == m * 1_000_000_000_000,
            m < (h + 1) * (h + 1),
            a >= 0,
            b >= 0,
            h >= 0,
    ;
    assert(a < (h + 1) * 1_000_000 && b < (h + 1) * 1_000_000) by (nonlinear_arith)
        requires
            a * a < ((h + 1) * 1_000_000) * ((h + 1) * 1_000_000),
            b * b < ((h + 1) * 1_000_000) * ((h + 1) * 1_000_000),
            a >= 0,
            b >= 0,
            h >= 0,
    ;
    assert(a > 0) by (nonlinear_arith)
        requires
            a == dx * c,
            dx >= 1,
            c >= 1,
    ;
    assert((h + 1) * 1_000_000 <= h * 1_000_001) by (nonlinear_arith)
        requires
            h >= 1_000_000,
    ;
    vstd::arithmetic::div_mod::lemma_multiply_divide_lt(a, h, 1_000_001);
    vstd::arithmetic::div_mod::lemma_multiply_divide_lt(b, h, 1_000_001);
}

/// The squared length of the quotient pair sits within a few millionths
/// of the unit length.
proof fn lemma_normal_quality(a: int, b: int, h: int, m: int, ny: int, nx: int)
    requires
        a >= 0,
        b >= 0,
        h >= 1_000_000,
        h * h <= m < (h + 1) * (h + 1),
        a * a + b * b == m * 1_000_000_000_000,
        a < (h + 1) * 1_000_000,
        b < (h + 1) * 1_000_000,
        ny == a / h,
        nx == b / h,
    ensures
        999_995_000_000 <= nx * nx + ny * ny <= 1_000_003_000_000,
{
    vstd::arithmetic::div_mod::lemma_fundamental_div_mod(a, h);
    vstd::arithmetic::div_mod::lemma_mod_bound(a, h);
    vstd::arithmetic::div_mod::lemma_fundamental_div_mod(b, h);
    vstd::arithmetic::div_mod::lemma_mod_bound(b, h);
    let ra = a % h;
    let rb = b % h;
    assert(ny >= 0 && nx >= 0) by {
        vstd::arithmetic::div_mod::lemma_div_pos_is_pos(a, h);
        vstd::arithmetic::div_mod::lemma_div_pos_is_pos(b, h);
    }
    // upper bound: quotients only shrink the numerators
    assert((ny * ny) * (h * h) <= a * a) by (nonlinear_arith)
        requires
            h * ny == a - ra,
            0 <= ra,
            ny >= 0,
            h >= 1,
    ;
    assert((nx * nx) * (h * h) <= b * b) by (nonlinear_arith)
        requires
            h * nx == b - rb,
            0 <= rb,
            nx >= 0,
            h >= 1,
    ;
    assert(m * 1_000_000_000_000 <= (h * h + 2 * h) * 1_000_000_000_000) by (nonlinear_arith)
        requires
            m < (h + 1) * (h + 1),
    ;
    assert((nx * nx + ny * ny) * (h * h) == (nx * nx) * (h * h) + (ny * ny) * (h * h))
        by (nonlinear_arith);
    assert(nx * nx + ny * ny <= 1_000_003_000_000) by (nonlinear_arith)
        requires
            (nx * nx + ny * ny) * (h * h) <= (h * h + 2 * h) * 1_000_000_000_000,
            h >= 1_000_000,
            nx * nx + ny * ny >= 0,
    ;
    // lower bound: each quotient loses less than one unit of h
    assert((ny * ny) * (h * h) >= a * a - 2 * a * h) by (nonlinear_arith)
        requires
            h * ny == a - ra,
            0 <= ra < h,
            a >= 0,
    ;
    assert((nx * nx) * (h * h) >= b * b - 2 * b * h) by (nonlinear_arith)
        requires
            h * nx == b - rb,
            0 <= rb < h,
            b >= 0,
    ;
    assert(a + b <= 2 * ((h + 1) * 1_000_000));
    assert(2 * (a + b) * h <= 4_000_000 * (h * h) + 4_000_000 * h) by (nonlinear_arith)
        requires
            a + b <= 2 * ((h + 1) * 1_000_000),
            a + b >= 0,
            h >= 0,
    ;
    assert(2 * a * h + 2 * b * h == 2 * (a + b) * h) by (nonlinear_arith);
    assert(m * 1_000_000_000_000 >= (h * h) * 1_000_000_000_000) by (nonlinear_arith)
        requires
            m >= h * h,
    ;
    assert((nx * nx + ny * ny) * (h * h) >= (h * h) * 1_000_000_000_000 - (4_000_000 * (h * h)
        + 4_000_000 * h));
    assert(nx * nx + ny * ny >= 999_995_000_000) by (nonlinear_arith)
        requires
            (nx * nx + ny * ny) * (h * h) >= (h * h) * 1_000_000_000_000 - (4_000_000 * (h * h)
                + 4_000_000 * h),
            h >= 1_000_000,
    ;
}

/// On flat ground the square root is exact and the normal is exactly
/// `(0, UNIT)`.
proof fn lemma_flat_normal(a: int, h: int, m: int, c: int, dx: int)
    requires
        a == dx * c,
        m * 1_000_000_000_000 == (dx * dx) * (c * c),
        h * h <= m < (h + 1) * (h + 1),
        h >= 1,
        dx >= 1,
        c == 1_000_000 || c == 1_000_000_000_000,
    ensures
        a / h == 1_000_000,
{
    let g = dx * (c / 1_000_000);
    vstd::arithmetic::div_mod::lemma_fundamental_div_mod(c, 1_000_000);
    assert(c % 1_000_000 == 0) by (nonlinear_arith)
        requires
            c == 1_000_000 || c == 1_000_000_000_000,
    ;
    assert(m == g * g && a == g * 1_000_000) by (nonlinear_arith)
        requires
            a == dx * c,
            m * 1_000_000_000_000 == (dx * dx) * (c * c),
            c == 1_000_000 * (c / 1_000_000),
            g == dx * (c / 1_000_000),
    ;
    if c == 1_000_000 {
        assert(c / 1_000_000 == 1);
    } else {
        assert(c / 1_000_000 == 1_000_000);
    }
    assert(g >= 1) by (nonlinear_arith)
        requires
            g == dx * (c / 1_000_000),
            dx >= 1,
            c / 1_000_000 >= 1,
    ;
    assert(h == g) by (nonlinear_arith)
        requires
            h * h <= g * g < (h + 1) * (h + 1),
            h >= 0,
            g >= 0,
    ;
    vstd::arithmetic::div_mod::lemma_div_by_multiple(1_000_000, g);
    assert(g * 1_000_000 == 1_000_000 * g) by (nonlinear_arith);
}

/// The quotient pair is orthogonal to the segment direction to within one
/// sample step.
proof fn lemma_cross_bounds(a: int, b: int, h: int, ny: int, nx: int, dx: int, e: int)
    requires
        h >= 1,
        dx >= 1,
        e >= 1,
        b * dx == a * e,
        ny == a / h,
        nx == b / h,
        a >= 0,
        b >= 0,
    ensures
        ny * e - nx * dx < dx,
        nx * dx - ny * e < e,
{
    vstd::arithmetic::div_mod::lemma_fundamental_div_mod(a, h);
    vstd::arithmetic::div_mod::lemma_mod_bound(a, h);
    vstd::arithmetic::div_mod::lemma_fundamental_div_mod(b, h);
    vstd::arithmetic::div_mod::lemma_mod_bound(b, h);
    assert((ny * e) * h <= a * e) by (nonlinear_arith)
        requires
            h * ny == a - (a % h),
            0 <= a % h,
            e >= 0,
    ;
    assert(a * e < ((nx + 1) * dx) * h) by (nonlinear_arith)
        requires
            b * dx == a * e,
            h * nx == b - (b % h),
            0 <= b % h < h,
            dx >= 1,
    ;
    assert(ny * e - nx * dx < dx) by (nonlinear_arith)
        requires
            (ny * e) * h < ((nx + 1) * dx) * h,
            h >= 1,
    ;
    assert((nx * dx) * h <= b * dx) by (nonlinear_arith)
        requires
            h * nx == b - (b % h),
            0 <= b % h,
            dx >= 0,
    ;
    assert(b * dx < ((ny + 1) * e) * h) by (nonlinear_arith)
        requires
            b * dx == a * e,
            h * ny == a - (a % h),
            0 <= a % h < h,
            e >= 1,
    ;
    assert(nx * dx - ny * e < e) by (nonlinear_arith)
        requires
            (nx * dx) * h < ((ny + 1) * e) * h,
            h >= 1,
    ;
}

/// Clamps one evaluator sample into the representable band.
pub fn clamp_value(v: i64) -> (r: i64)
    ensures
        r == spec_clamp_value(v as int),
        -VALUE_LIMIT <= r <= VALUE_LIMIT,
{
    if v < -VALUE_LIMIT {
        -VALUE_LIMIT
    } else if v > VALUE_LIMIT {
        VALUE_LIMIT
    } else {
        v
    }
}

/// The evenly spaced x-values the evaluator is sampled at: `resolution`
/// points from the interval's start in steps of its extent over
/// `resolution`.
pub fn sample_xs(xbounds: &Bounds, resolution: usize) -> (xs: Vec<i64>)
    requires
        xbounds.wf(),
        1 <= resolution,
    ensures
        xs.len() == resolution,
        forall|i: int|
            0 <= i < resolution ==> #[trigger] xs@[i] == xbounds.start + i * spec_dx(
                *xbounds,
                resolution as int,
            ),
{
    let ext: u64 = (xbounds.end - xbounds.start) as u64;
    let dxv: i64 = (ext / (resolution as u64)) as i64;
    proof {
        vstd::arithmetic::div_mod::lemma_div_pos_is_pos(ext as int, resolution as int);
        vstd::arithmetic::div_mod::lemma_fundamental_div_mod(ext as int, resolution as int);
        vstd::arithmetic::div_mod::lemma_mod_bound(ext as int, resolution as int);
    }
    let mut xs: Vec<i64> = Vec::new();
    let mut i: usize = 0;
    let mut x: i64 = xbounds.start;
    while i < resolution
        invariant
            i <= resolution,
            xs.len() == i,
            dxv == spec_dx(*xbounds, resolution as int),
            0 <= dxv,
            resolution * dxv <= xbounds.spec_extent(),
            xbounds.wf(),
            x == xbounds.start + i * dxv,
            forall|k: int|
                0 <= k < i ==> #[trigger] xs@[k] == xbounds.start + k * spec_dx(
                    *xbounds,
                    resolution as int,
                ),
        decreases resolution - i,
    {
        proof {
            assert((i + 1) * dxv <= resolution * dxv && i * dxv >= 0 && (i + 1) * dxv == i * dxv
                + dxv) by (nonlinear_arith)
                requires
                    0 <= i < resolution,
                    0 <= dxv,
                    resolution * dxv <= xbounds.spec_extent(),
            ;
        }
        xs.push(x);
        x = x + dxv;
        i = i + 1;
    }
    xs
}

/// Per-sample unit normals from forward differences: one normal per
/// segment, the last duplicated so the array length equals the sample
/// count, every normal of unit length to within a few millionths.
pub fn normals(values: &Vec<i64>, dx: i64) -> (r: Vec<(i64, i64)>)
    requires
        values.len() >= 2,
        1 <= dx <= 2_000_000_000_000_000_000,
        forall|i: int|
            0 <= i < values.len() ==> -VALUE_LIMIT <= #[trigger] values@[i] <= VALUE_LIMIT,
    ensures
        r.len() == values.len(),
        forall|i: int|
            0 <= i < values.len() - 1 ==> spec_normal_props(
                #[trigger] r@[i],
                values@[i + 1] - values@[i],
                dx as int,
            ),
        r@[values.len() - 1] == r@[values.len() - 2],
{
    let n = values.len();
    let mut r: Vec<(i64, i64)> = Vec::new();
    let mut i: usize = 0;
    while i < n - 1
        invariant
            2 <= n == values.len(),
            i <= n - 1,
            r.len() == i,
            1 <= dx <= 2_000_000_000_000_000_000,
            forall|k: int|
                0 <= k < values.len() ==> -VALUE_LIMIT <= #[trigger] values@[k] <= VALUE_LIMIT,
            forall|k: int|
                0 <= k < i ==> spec_normal_props(
                    #[trigger] r@[k],
                    values@[k + 1] - values@[k],
                    dx as int,
                ),
        decreases n - 1 - i,
    {
        let dy: i64 = values[i + 1] - values[i];
        let nrm = unit_normal(dy, dx);
        r.push(nrm);
        i = i + 1;
    }
    let last = r[n - 2];
    r.push(last);
    r
}

/// A normal component scaled by the ribbon half-width: `HALF_WIDTH / UNIT`
/// of it, truncated toward zero, so a full unit normal moves a vertex by
/// exactly the half-width.
pub open spec fn spec_scaled_offset(component: int) -> int {
    if component >= 0 {
        component * HALF_WIDTH / UNIT as int
    } else {
        -(-component * HALF_WIDTH / UNIT as int)
    }
}

/// The vertex a ribbon slot holds: the sample of slot pair `k / 2` moved
/// by the slot's own normal scaled to the half-width.
pub open spec fn spec_ribbon_vertex(start: int, dx: int, y: int, nrm: Point3, k: int) -> Point3 {
    Point3 {
        x: (start + (k / 2) * dx + spec_scaled_offset(nrm.x as int)) as i64,
        y: (y + spec_scaled_offset(nrm.y as int)) as i64,
        z: 0,
    }
}

/// Scales a normal component by the ribbon half-width.
fn scaled_offset(component: i64) -> (r: i64)
    requires
        -2_000_000 <= component <= 2_000_000,
    ensures
        r == spec_scaled_offset(component as int),
        -60_000 <= r <= 60_000,
{
    let mg: u64 = if component >= 0 {
        component as u64
    } else {
        (-component) as u64
    };
    let q: u64 = mg * 30_000 / 1_000_000;
    proof {
        vstd::arithmetic::div_mod::lemma_div_is_ordered(
            (mg * 30_000) as int,
            60_000_000_000,
            1_000_000,
        );
        vstd::arithmetic::div_mod::lemma_div_pos_is_pos((mg * 30_000) as int, 1_000_000);
    }
    if component >= 0 {
        q as i64
    } else {
        -(q as i64)
    }
}

/// Negating a component negates its scaled offset exactly.
proof fn lemma_scaled_offset_negates(component: int)
    ensures
        spec_scaled_offset(-component) == -spec_scaled_offset(component),
{
}

/// What the tessellated ribbon holds for a sample batch over an
/// x-interval: two vertices and two opposite normals per clamped sample,
/// the normals unit-length finite-difference normals with the last pair
/// duplicated, and a contiguous index list.
pub open spec fn spec_ribbon_ok(m: RibbonMesh, values: Seq<i64>, b: Bounds) -> bool {
    let len = values.len() as int;
    let dx = spec_dx(b, len);
    &&& m.positions@.len() == 2 * len
    &&& m.normals@.len() == 2 * len
    &&& m.indices@.len() == 2 * len
    &&& forall|k: int| 0 <= k < 2 * len ==> #[trigger] m.indices@[k] == k
    &&& forall|i: int|
        0 <= i < len - 1 ==> spec_normal_props(
            ((m.normals@[2 * i]).x, (m.normals@[2 * i]).y),
            spec_clamp_value(values[i + 1] as int) - spec_clamp_value(#[trigger] values[i] as int),
            dx,
        )
    &&& m.normals@[2 * len - 2] == m.normals@[2 * len - 4]
    &&& m.normals@[2 * len - 1] == m.normals@[2 * len - 3]
    &&& forall|k: int|
        0 <= k < 2 * len && k % 2 == 1 ==> #[trigger] m.normals@[k] == (Point3 {
            x: (-m.normals@[k - 1].x) as i64,
            y: (-m.normals@[k - 1].y) as i64,
            z: 0,
        })
    &&& forall|k: int|
        0 <= k < 2 * len ==> #[trigger] m.positions@[k] == spec_ribbon_vertex(
            b.start as int,
            dx,
            spec_clamp_value(values[k / 2] as int),
            m.normals@[k],
            k,
        )
}

/// Assembles the ribbon mesh from clamped samples and their per-sample
/// normals: two vertices per sample, shifted by plus and minus the scaled
/// normal, the per-vertex normals alternating in sign, and a contiguous
/// index list. Rejects batches with fewer than two samples, an x-interval
/// whose sample step collapses to zero, and vertex counts beyond the
/// 32-bit index range.
pub fn build_ribbon(values: &Vec<i64>, ns: &Vec<(i64, i64)>, xbounds: &Bounds) -> (r: Result<
    RibbonMesh,
    TessellationError,
>)
    requires
        xbounds.wf(),
        ns.len() == values.len(),
        forall|i: int|
            0 <= i < values.len() ==> -VALUE_LIMIT <= #[trigger] values@[i] <= VALUE_LIMIT,
        forall|i: int|
            0 <= i < ns.len() ==> -1_000_000 <= (#[trigger] ns@[i]).0 <= 1_000_000 && 0
                <= ns@[i].1 <= 1_000_000,
    ensures
        values.len() < 2 ==> r == Err::<RibbonMesh, TessellationError>(
            TessellationError::InvalidSampleCount,
        ),
        values.len() >= 2 && spec_dx(*xbounds, values.len() as int) < 1 ==> r == Err::<
            RibbonMesh,
            TessellationError,
        >(TessellationError::DegenerateBounds),
        values.len() >= 2 && spec_dx(*xbounds, values.len() as int) >= 1 && values.len()
            > 2147483647 ==> r == Err::<RibbonMesh, TessellationError>(
            TessellationError::TooManyVertices,
        ),
        values.len() >= 2 && spec_dx(*xbounds, values.len() as int) >= 1 && values.len()
            <= 2147483647 ==> r is Ok,
        r is Ok ==> ({
            let m = r->Ok_0;
            let len = values.len() as int;
            let dx = spec_dx(*xbounds, len);
            &&& m.positions@.len() == 2 * len
            &&& m.normals@.len() == 2 * len
            &&& m.indices@.len() == 2 * len
            &&& forall|k: int| 0 <= k < 2 * len ==> #[trigger] m.indices@[k] == k
            &&& forall|k: int|
                0 <= k < 2 * len ==> #[trigger] m.normals@[k] == (if k % 2 == 0 {
                    Point3 { x: ns@[k / 2].0, y: ns@[k / 2].1, z: 0 }
                } else {
                    Point3 { x: (-ns@[k / 2].0) as i64, y: (-ns@[k / 2].1) as i64, z: 0 }
                })
            &&& forall|k: int|
                0 <= k < 2 * len ==> #[trigger] m.positions@[k] == spec_ribbon_vertex(
                    xbounds.start as int,
                    dx,
                    values@[k / 2] as int,
                    m.normals@[k],
                    k,
                )
        }),
{
    let len = values.len();
    if len < 2 {
        return Err(TessellationError::InvalidSampleCount);
    }
    let ext: u64 = (xbounds.end - xbounds.start) as u64;
    let dxv: i64 = (ext / (len as u64)) as i64;
    proof {
        vstd::arithmetic::div_mod::lemma_div_pos_is_pos(ext as int, len as int);
        vstd::arithmetic::div_mod::lemma_fundamental_div_mod(ext as int, len as int);
        vstd::arithmetic::div_mod::lemma_mod_bound(ext as int, len as int);
    }
    if dxv < 1 {
        return Err(TessellationError::DegenerateBounds);
    }
    if len > 2147483647 {
        return Err(TessellationError::TooManyVertices);
    }
    let mut positions: Vec<Point3> = Vec::new();
    let mut normals_out: Vec<Point3> = Vec::new();
    let mut i: usize = 0;
    while i < len
        invariant
            2 <= len == values.len() == ns.len(),
            i <= len,
            positions.len() == 2 * i,
            normals_out.len() == 2 * i,
            xbounds.wf(),
            dxv == spec_dx(*xbounds, len as int),
            1 <= dxv,
            len * dxv <= xbounds.spec_extent(),
            forall|q: int|
                0 <= q < values.len() ==> -VALUE_LIMIT <= #[trigger] values@[q] <= VALUE_LIMIT,
            forall|q: int|
                0 <= q < ns.len() ==> -1_000_000 <= (#[trigger] ns@[q]).0 <= 1_000_000 && 0
                    <= ns@[q].1 <= 1_000_000,
            forall|k: int|
                0 <= k < 2 * i ==> #[trigger] normals_out@[k] == (if k % 2 == 0 {
                    Point3 { x: ns@[k / 2].0, y: ns@[k / 2].1, z: 0 }
                } else {
                    Point3 { x: (-ns@[k / 2].0) as i64, y: (-ns@[k / 2].1) as i64, z: 0 }
                }),
            forall|k: int|
                0 <= k < 2 * i ==> #[trigger] positions@[k] == spec_ribbon_vertex(
                    xbounds.start as int,
                    dxv as int,
                    values@[k / 2] as int,
                    normals_out@[k],
                    k,
                ),
        decreases len - i,
    {
        proof {
            assert(i * dxv <= len * dxv && 0 <= i * dxv) by (nonlinear_arith)
                requires
                    0 <= i <= len,
                    0 <= dxv,
            ;
            vstd::arithmetic::div_mod::lemma_mod_multiples_basic(i as int, 2);
            vstd::arithmetic::div_mod::lemma_div_by_multiple(i as int, 2);
            assert(i * 2 == 2 * i) by (nonlinear_arith);
            vstd::arithmetic::div_mod::lemma_fundamental_div_mod_converse(
                2 * (i as int) + 1,
                2,
                i as int,
                1,
            );
            lemma_scaled_offset_negates(ns@[i as int].0 as int);
            lemma_scaled_offset_negates(ns@[i as int].1 as int);
        }
        let x: i64 = xbounds.start + (i as i64) * dxv;
        let y: i64 = values[i];
        let nrm: (i64, i64) = ns[i];
        let ox: i64 = scaled_offset(nrm.0);
        let oy: i64 = scaled_offset(nrm.1);
        positions.push(Point3 { x: x + ox, y: y + oy, z: 0 });
        positions.push(Point3 { x: x - ox, y: y - oy, z: 0 });
        normals_out.push(Point3 { x: nrm.0, y: nrm.1, z: 0 });
        normals_out.push(Point3 { x: -nrm.0, y: -nrm.1, z: 0 });
        i = i + 1;
    }
    let mut indices: Vec<u32> = Vec::new();
    let mut k: usize = 0;
    let total: usize = 2 * len;
    while k < total
        invariant
            k <= total,
            total == 2 * values.len(),
            values.len() <= 2147483647,
            indices.len() == k,
            forall|q: int| 0 <= q < k ==> #[trigger] indices@[q] == q,
        decreases total - k,
    {
        indices.push(k as u32);
        k = k + 1;
    }
    Ok(RibbonMesh { positions, normals: normals_out, indices })
}

/// Tessellates one batch of evaluator samples over the generation
/// x-interval into the curve ribbon: samples are clamped, each gets a
/// finite-difference unit normal (the last one duplicated), and each
/// sample emits two vertices shifted by plus and minus the scaled normal,
/// with a contiguous index list for strip rendering.
#[verifier::rlimit(100)]
#[verifier::spinoff_prover]
pub fn gen_expr_mesh(values: &Vec<i64>, xbounds: &Bounds) -> (r: Result<
    RibbonMesh,
    TessellationError,
>)
    requires
        xbounds.wf(),
    ensures
        values.len() < 2 ==> r == Err::<RibbonMesh, TessellationError>(
            TessellationError::InvalidSampleCount,
        ),
        values.len() >= 2 && spec_dx(*xbounds, values.len() as int) < 1 ==> r == Err::<
            RibbonMesh,
            TessellationError,
        >(TessellationError::DegenerateBounds),
        values.len() >= 2 && spec_dx(*xbounds, values.len() as int) >= 1 && values.len()
            > 2147483647 ==> r == Err::<RibbonMesh, TessellationError>(
            TessellationError::TooManyVertices,
        ),
        values.len() >= 2 && spec_dx(*xbounds, values.len() as int) >= 1 && values.len()
            <= 2147483647 ==> r is Ok,
        r is Ok ==> spec_ribbon_ok(r->Ok_0, values@, *xbounds),
{
    let len = values.len();
    if len < 2 {
        return Err(TessellationError::InvalidSampleCount);
    }
    let ext: u64 = (xbounds.end - xbounds.start) as u64;
    let dxv: i64 = (ext / (len as u64)) as i64;
    proof {
        vstd::arithmetic::div_mod::lemma_div_pos_is_pos(ext as int, len as int);
    }
    if dxv < 1 {
        return Err(TessellationError::DegenerateBounds);
    }
    if len > 2147483647 {
        return Err(TessellationError::TooManyVertices);
    }
    let mut cvals: Vec<i64> = Vec::new();
    let mut i: usize = 0;
    while i < len
        invariant
            i <= len == values.len(),
            cvals.len() == i,
            forall|q: int|
                0 <= q < i ==> #[trigger] cvals@[q] == spec_clamp_value(values@[q] as int),
            forall|q: int| 0 <= q < i ==> -VALUE_LIMIT <= #[trigger] cvals@[q] <= VALUE_LIMIT,
        decreases len - i,
    {
        let cv = clamp_value(values[i]);
        cvals.push(cv);
        i = i + 1;
    }
    let ns = normals(&cvals, dxv);
    proof {
        assert forall|q: int| 0 <= q < ns.len() implies -1_000_000 <= (#[trigger] ns@[q]).0
            <= 1_000_000 && 0 <= ns@[q].1 <= 1_000_000 by {
            if q < ns.len() - 1 {
                assert(spec_normal_props(ns@[q], cvals@[q + 1] - cvals@[q], dxv as int));
            } else {
                assert(ns@[q] == ns@[ns.len() - 2]);
                assert(spec_normal_props(
                    ns@[ns.len() - 2],
                    cvals@[ns.len() - 1] - cvals@[ns.len() - 2],
                    dxv as int,
                ));
            }
        }
    }
    let built = build_ribbon(&cvals, &ns, xbounds);
    proof {
        if built is Ok {
            let m = built->Ok_0;
            let lensp = len as int;
            assert forall|i2: int| 0 <= i2 < lensp - 1 implies spec_normal_props(
                ((m.normals@[2 * i2]).x, (m.normals@[2 * i2]).y),
                spec_clamp_value(values@[i2 + 1] as int) - spec_clamp_value(
                    (#[trigger] values@[i2]) as int,
                ),
                dxv as int,
            ) by {
                vstd::arithmetic::div_mod::lemma_div_by_multiple(i2, 2);
                assert(i2 * 2 == 2 * i2) by (nonlinear_arith);
                vstd::arithmetic::div_mod::lemma_mod_multiples_basic(i2, 2);
                assert(m.normals@[2 * i2] == (Point3 { x: ns@[i2].0, y: ns@[i2].1, z: 0 }));
                assert(spec_normal_props(ns@[i2], cvals@[i2 + 1] - cvals@[i2], dxv as int));
            }
            assert(m.normals@[2 * lensp - 2] == m.normals@[2 * lensp - 4] && m.normals@[2 * lensp
                - 1] == m.normals@[2 * lensp - 3]) by {
                lemma_dup_tail(m.normals@, ns@, lensp);
            }
            assert forall|k: int| 0 <= k < 2 * lensp && k % 2 == 1 implies #[trigger] m.normals@[k]
                == (Point3 { x: (-m.normals@[k - 1].x) as i64, y: (-m.normals@[k - 1].y) as i64, z: 0 }) by {
                vstd::arithmetic::div_mod::lemma_fundamental_div_mod(k, 2);
                vstd::arithmetic::div_mod::lemma_fundamental_div_mod_converse(k - 1, 2, k / 2, 0);
            }
        }
    }
    built
}

/// The duplicated last per-sample normal shows up as duplicated last
/// vertex-normal pairs.
proof fn lemma_dup_tail(vn: Seq<Point3>, ns: Seq<(i64, i64)>, len: int)
    requires
        len >= 2,
        ns.len() == len,
        vn.len() == 2 * len,
        ns[len - 1] == ns[len - 2],
        forall|k: int|
            0 <= k < 2 * len ==> #[trigger] vn[k] == (if k % 2 == 0 {
                Point3 { x: ns[k / 2].0, y: ns[k / 2].1, z: 0 }
            } else {
                Point3 { x: (-ns[k / 2].0) as i64, y: (-ns[k / 2].1) as i64, z: 0 }
            }),
    ensures
        vn[2 * len - 2] == vn[2 * len - 4],
        vn[2 * len - 1] == vn[2 * len - 3],
{
    vstd::arithmetic::div_mod::lemma_fundamental_div_mod_converse(2 * len - 2, 2, len - 1, 0);
    vstd::arithmetic::div_mod::lemma_fundamental_div_mod_converse(2 * len - 4, 2, len - 2, 0);
    vstd::arithmetic::div_mod::lemma_fundamental_div_mod_converse(2 * len - 1, 2, len - 1, 1);
    vstd::arithmetic::div_mod::lemma_fundamental_div_mod_converse(2 * len - 3, 2, len - 2, 1);
}


} // verus!
