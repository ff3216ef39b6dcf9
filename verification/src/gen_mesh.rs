//! The grid mesh builder: line-list geometry for the three axis tiers.
//!
//! The main tier is the two coordinate axes themselves. The mid tier draws
//! one reference line through the snapped centre and then mirrored pairs at
//! whole multiples of the spacing, each line spanning the full opposite
//! extent of the generation bounds; the minor tier reuses the same builder
//! with a fifth of the spacing and five times the counts. Horizontal lines
//! carry the shading normal `(0, 1, 0)` and vertical lines `(1, 0, 0)` — a
//! rendering hint, not geometric truth.
//!
//! Geometry leaves the library as plain buffers — positions, per-vertex
//! normals and an index list — in micro-units; the host renderer converts
//! to its own vertex format and owns the uploaded handles.

use vstd::prelude::*;
use crate::UNIT;
use crate::axis_spacing::MidAxisInfo;
use crate::axis_spacing::MinAxisInfo;
use crate::scaling::Bounds;
use crate::scaling::GraphingBounds;

verus! {

/// A point or direction in world space, in micro-units. The grid and the
/// curve live in the plane, so `z` is zero throughout.
#[derive(Clone, Copy, Debug, PartialEq, Eq, Structural)]
pub struct Point3 {
    pub x: i64,
    pub y: i64,
    pub z: i64,
}

/// Line-list geometry for one grid tier: consecutive position pairs are
/// segment endpoints, each vertex carries a shading normal, and the index
/// buffer enumerates the vertices in order.
#[derive(Clone, Debug, PartialEq, Eq)]
pub struct LineMesh {
    pub positions: Vec<Point3>,
    pub normals: Vec<Point3>,
    pub indices: Vec<u32>,
}

/// Error for grid geometry the chosen index width cannot address.
#[derive(Clone, Copy, Debug, PartialEq, Eq, Structural)]
pub enum GeometryError {
    /// The line counts call for more vertices than a 32-bit index holds.
    TooManyVertices,
}

/// The signed spacing multiple of the vertex at index `k` within one
/// block of lines: the reference line first, then mirrored pairs working
/// outward, two vertices per line.
pub open spec fn spec_mid_line_offset(separation: int, k: int) -> int {
    if k < 2 {
        0
    } else {
        let g = (k - 2) / 4;
        let w = (k - 2) % 4;
        if w < 2 {
            separation * (g + 1)
        } else {
            -(separation * (g + 1))
        }
    }
}

/// What a tier mesh holds: first the horizontal block (lines at the
/// snapped y-centre and its spacing multiples, spanning the x-bounds),
/// then the vertical block, with per-block shading normals and a
/// contiguous index list.
pub open spec fn spec_grid_mesh_ok(m: LineMesh, info: MidAxisInfo, bounds: GraphingBounds) -> bool {
    let h = 4 * info.yline_count - 2;
    let total = 4 * info.yline_count + 4 * info.xline_count - 4;
    &&& m.positions@.len() == total
    &&& m.normals@.len() == total
    &&& m.indices@.len() == total
    &&& forall|k: int| 0 <= k < total ==> #[trigger] m.indices@[k] == k
    &&& forall|k: int|
        0 <= k < h ==> #[trigger] m.positions@[k] == (Point3 {
            x: if k % 2 == 0 {
                bounds.xbounds.start
            } else {
                bounds.xbounds.end
            },
            y: (info.rounded_ycentre + spec_mid_line_offset(info.separation as int, k)) as i64,
            z: 0,
        })
    &&& forall|k: int|
        0 <= k < h ==> #[trigger] m.normals@[k] == (Point3 { x: 0, y: UNIT, z: 0 })
    &&& forall|k: int|
        h <= k < total ==> #[trigger] m.positions@[k] == (Point3 {
            x: (info.rounded_xcentre + spec_mid_line_offset(info.separation as int, k - h)) as i64,
            y: if (k - h) % 2 == 0 {
                bounds.ybounds.start
            } else {
                bounds.ybounds.end
            },
            z: 0,
        })
    &&& forall|k: int|
        h <= k < total ==> #[trigger] m.normals@[k] == (Point3 { x: UNIT, y: 0, z: 0 })
}

/// The main axis tier: exactly two lines, the x-axis spanning the
/// x-bounds and the y-axis spanning the y-bounds, always generated
/// whatever the spacing — they mark the coordinate origin, not a tier of
/// the spacing scheme.
pub fn gen_main_axis(xbounds: Bounds, ybounds: Bounds) -> (m: LineMesh)
    ensures
        m.positions@.len() == 4,
        m.normals@.len() == 4,
        m.indices@.len() == 4,
        m.positions@[0] == (Point3 { x: xbounds.start, y: 0, z: 0 }),
        m.positions@[1] == (Point3 { x: xbounds.end, y: 0, z: 0 }),
        m.positions@[2] == (Point3 { x: 0, y: ybounds.start, z: 0 }),
        m.positions@[3] == (Point3 { x: 0, y: ybounds.end, z: 0 }),
        m.normals@[0] == (Point3 { x: 0, y: UNIT, z: 0 }),
        m.normals@[1] == (Point3 { x: 0, y: UNIT, z: 0 }),
        m.normals@[2] == (Point3 { x: UNIT, y: 0, z: 0 }),
        m.normals@[3] == (Point3 { x: UNIT, y: 0, z: 0 }),
        forall|k: int| 0 <= k < 4 ==> #[trigger] m.indices@[k] == k,
{
    let mut positions: Vec<Point3> = Vec::new();
    positions.push(Point3 { x: xbounds.start, y: 0, z: 0 });
    positions.push(Point3 { x: xbounds.end, y: 0, z: 0 });
    positions.push(Point3 { x: 0, y: ybounds.start, z: 0 });
    positions.push(Point3 { x: 0, y: ybounds.end, z: 0 });
    let mut normals: Vec<Point3> = Vec::new();
    normals.push(Point3 { x: 0, y: UNIT, z: 0 });
    normals.push(Point3 { x: 0, y: UNIT, z: 0 });
    normals.push(Point3 { x: UNIT, y: 0, z: 0 });
    normals.push(Point3 { x: UNIT, y: 0, z: 0 });
    let mut indices: Vec<u32> = Vec::new();
    indices.push(0);
    indices.push(1);
    indices.push(2);
    indices.push(3);
    LineMesh { positions, normals, indices }
}

/// One tier of gridlines from spacing information and the generation
/// bounds: a horizontal reference line at the snapped y-centre with
/// mirrored pairs at spacing multiples, then the vertical block built the
/// same way, rejected only when the vertex count outruns the 32-bit index
/// range.
pub fn gen_mid_axis(info: &MidAxisInfo, bounds: &GraphingBounds) -> (r: Result<
    LineMesh,
    GeometryError,
>)
    requires
        info.wf(),
        bounds.wf(),
    ensures
        (r is Err <==> 4 * info.yline_count + 4 * info.xline_count - 4 > 4294967295),
        r is Err ==> r == Err::<LineMesh, GeometryError>(GeometryError::TooManyVertices),
        r is Ok ==> spec_grid_mesh_ok(r->Ok_0, *info, *bounds),
{
    let xc: usize = info.xline_count;
    let yc: usize = info.yline_count;
    let total64: u64 = 4 * (yc as u64) + 4 * (xc as u64) - 4;
    if total64 > 4294967295 {
        return Err(GeometryError::TooManyVertices);
    }
    let mut positions: Vec<Point3> = Vec::new();
    let mut normals: Vec<Point3> = Vec::new();
    positions.push(Point3 { x: bounds.xbounds.start, y: info.rounded_ycentre, z: 0 });
    positions.push(Point3 { x: bounds.xbounds.end, y: info.rounded_ycentre, z: 0 });
    normals.push(Point3 { x: 0, y: UNIT, z: 0 });
    normals.push(Point3 { x: 0, y: UNIT, z: 0 });
    let mut i: usize = 1;
    while i < yc
        invariant
            1 <= i <= yc,
            info.wf(),
            bounds.wf(),
            yc == info.yline_count,
            positions.len() == 4 * i - 2,
            normals.len() == 4 * i - 2,
            forall|k: int|
                0 <= k < 4 * i - 2 ==> #[trigger] positions@[k] == (Point3 {
                    x: if k % 2 == 0 {
                        bounds.xbounds.start
                    } else {
                        bounds.xbounds.end
                    },
                    y: (info.rounded_ycentre + spec_mid_line_offset(info.separation as int, k))
                        as i64,
                    z: 0,
                }),
            forall|k: int|
                0 <= k < 4 * i - 2 ==> #[trigger] normals@[k] == (Point3 { x: 0, y: UNIT, z: 0 }),
        decreases yc - i,
    {
        proof {
            lemma_line_offset_group(info.separation as int, i as int);
            assert(i * info.separation <= yc * info.separation) by (nonlinear_arith)
                requires
                    i <= yc,
                    0 <= info.separation,
            ;
            assert(yc * info.separation == info.separation * yc) by (nonlinear_arith);
        }
        let off: i64 = (i as i64) * info.separation;
        let yplus: i64 = info.rounded_ycentre + off;
        let yminus: i64 = info.rounded_ycentre - off;
        positions.push(Point3 { x: bounds.xbounds.start, y: yplus, z: 0 });
        positions.push(Point3 { x: bounds.xbounds.end, y: yplus, z: 0 });
        positions.push(Point3 { x: bounds.xbounds.start, y: yminus, z: 0 });
        positions.push(Point3 { x: bounds.xbounds.end, y: yminus, z: 0 });
        normals.push(Point3 { x: 0, y: UNIT, z: 0 });
        normals.push(Point3 { x: 0, y: UNIT, z: 0 });
        normals.push(Point3 { x: 0, y: UNIT, z: 0 });
        normals.push(Point3 { x: 0, y: UNIT, z: 0 });
        i = i + 1;
    }
    let h: usize = positions.len();
    positions.push(Point3 { x: info.rounded_xcentre, y: bounds.ybounds.start, z: 0 });
    positions.push(Point3 { x: info.rounded_xcentre, y: bounds.ybounds.end, z: 0 });
    normals.push(Point3 { x: UNIT, y: 0, z: 0 });
    normals.push(Point3 { x: UNIT, y: 0, z: 0 });
    let mut j: usize = 1;
    while j < xc
        invariant
            1 <= j <= xc,
            info.wf(),
            bounds.wf(),
            xc == info.xline_count,
            h == 4 * info.yline_count - 2,
            positions.len() == h + 4 * j - 2,
            normals.len() == h + 4 * j - 2,
            forall|k: int|
                0 <= k < h ==> #[trigger] positions@[k] == (Point3 {
                    x: if k % 2 == 0 {
                        bounds.xbounds.start
                    } else {
                        bounds.xbounds.end
                    },
                    y: (info.rounded_ycentre + spec_mid_line_offset(info.separation as int, k))
                        as i64,
                    z: 0,
                }),
            forall|k: int|
                0 <= k < h ==> #[trigger] normals@[k] == (Point3 { x: 0, y: UNIT, z: 0 }),
            forall|k: int|
                h <= k < h + 4 * j - 2 ==> #[trigger] positions@[k] == (Point3 {
                    x: (info.rounded_xcentre + spec_mid_line_offset(
                        info.separation as int,
                        k - h,
                    )) as i64,
                    y: if (k - h) % 2 == 0 {
                        bounds.ybounds.start
                    } else {
                        bounds.ybounds.end
                    },
                    z: 0,
                }),
            forall|k: int|
                h <= k < h + 4 * j - 2 ==> #[trigger] normals@[k] == (Point3 {
                    x: UNIT,
                    y: 0,
                    z: 0,
                }),
        decreases xc - j,
    {
        proof {
            lemma_line_offset_group(info.separation as int, j as int);
            assert(j * info.separation <= xc * info.separation) by (nonlinear_arith)
                requires
                    j <= xc,
                    0 <= info.separation,
            ;
            assert(xc * info.separation == info.separation * xc) by (nonlinear_arith);
        }
        let off: i64 = (j as i64) * info.separation;
        let xplus: i64 = info.rounded_xcentre + off;
        let xminus: i64 = info.rounded_xcentre - off;
        positions.push(Point3 { x: xplus, y: bounds.ybounds.start, z: 0 });
        positions.push(Point3 { x: xplus, y: bounds.ybounds.end, z: 0 });
        positions.push(Point3 { x: xminus, y: bounds.ybounds.start, z: 0 });
        positions.push(Point3 { x: xminus, y: bounds.ybounds.end, z: 0 });
        normals.push(Point3 { x: UNIT, y: 0, z: 0 });
        normals.push(Point3 { x: UNIT, y: 0, z: 0 });
        normals.push(Point3 { x: UNIT, y: 0, z: 0 });
        normals.push(Point3 { x: UNIT, y: 0, z: 0 });
        j = j + 1;
    }
    let total: usize = positions.len();
    let mut indices: Vec<u32> = Vec::new();
    let mut k: usize = 0;
    while k < total
        invariant
            k <= total <= 4294967295,
            indices.len() == k,
            forall|q: int| 0 <= q < k ==> #[trigger] indices@[q] == q,
        decreases total - k,
    {
        indices.push(k as u32);
        k = k + 1;
    }
    Ok(LineMesh { positions, normals, indices })
}

/// The four vertices a mirrored line pair adds sit at the offsets the
/// index scheme assigns them.
proof fn lemma_line_offset_group(separation: int, i: int)
    requires
        i >= 1,
    ensures
        spec_mid_line_offset(separation, 4 * i - 2) == separation * i,
        spec_mid_line_offset(separation, 4 * i - 1) == separation * i,
        spec_mid_line_offset(separation, 4 * i) == -(separation * i),
        spec_mid_line_offset(separation, 4 * i + 1) == -(separation * i),
        (4 * i - 2) % 2 == 0,
        (4 * i - 1) % 2 == 1,
        (4 * i) % 2 == 0,
        (4 * i + 1) % 2 == 1,
{
    vstd::arithmetic::div_mod::lemma_fundamental_div_mod_converse(4 * i - 4, 4, i - 1, 0);
    vstd::arithmetic::div_mod::lemma_fundamental_div_mod_converse(4 * i - 3, 4, i - 1, 1);
    vstd::arithmetic::div_mod::lemma_fundamental_div_mod_converse(4 * i - 2, 4, i - 1, 2);
    vstd::arithmetic::div_mod::lemma_fundamental_div_mod_converse(4 * i - 1, 4, i - 1, 3);
    vstd::arithmetic::div_mod::lemma_fundamental_div_mod_converse(4 * i - 2, 2, 2 * i - 1, 0);
    vstd::arithmetic::div_mod::lemma_fundamental_div_mod_converse(4 * i - 1, 2, 2 * i - 1, 1);
    vstd::arithmetic::div_mod::lemma_fundamental_div_mod_converse(4 * i, 2, 2 * i, 0);
    vstd::arithmetic::div_mod::lemma_fundamental_div_mod_converse(4 * i + 1, 2, 2 * i, 1);
}

/// The minor axis tier: the same construction as the mid tier, driven by
/// the minor spacing information.
pub fn gen_min_axis(info: &MinAxisInfo, bounds: &GraphingBounds) -> (r: Result<
    LineMesh,
    GeometryError,
>)
    requires
        info.wf(),
        bounds.wf(),
    ensures
        (r is Err <==> 4 * info.yline_count + 4 * info.xline_count - 4 > 4294967295),
        r is Err ==> r == Err::<LineMesh, GeometryError>(GeometryError::TooManyVertices),
        r is Ok ==> spec_grid_mesh_ok(r->Ok_0, *info, *bounds),
{
    gen_mid_axis(info, bounds)
}

} // verus!
