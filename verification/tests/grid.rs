//! Grid mesh building: the main axes and the tiered gridlines, in
//! micro-units (1 world unit = 1_000_000).

use grapher::axis_spacing::MidAxisInfo;
use grapher::gen_mesh::GeometryError;
use grapher::gen_mesh::Point3;
use grapher::gen_mesh::gen_main_axis;
use grapher::gen_mesh::gen_mid_axis;
use grapher::gen_mesh::gen_min_axis;
use grapher::scaling::Bounds;
use grapher::scaling::GraphingBounds;

fn small_bounds() -> GraphingBounds {
    GraphingBounds {
        xbounds: Bounds { start: -4_000_000, end: 4_000_000 },
        ybounds: Bounds { start: -2_000_000, end: 2_000_000 },
    }
}

#[test]
fn main_axis_is_the_two_coordinate_axes() {
    let b = small_bounds();
    let m = gen_main_axis(b.xbounds, b.ybounds);
    assert_eq!(m.positions.len(), 4);
    assert_eq!(m.positions[0], Point3 { x: -4_000_000, y: 0, z: 0 });
    assert_eq!(m.positions[1], Point3 { x: 4_000_000, y: 0, z: 0 });
    assert_eq!(m.positions[2], Point3 { x: 0, y: -2_000_000, z: 0 });
    assert_eq!(m.positions[3], Point3 { x: 0, y: 2_000_000, z: 0 });
    assert_eq!(m.normals[0], Point3 { x: 0, y: 1_000_000, z: 0 });
    assert_eq!(m.normals[2], Point3 { x: 1_000_000, y: 0, z: 0 });
    assert_eq!(m.indices, vec![0, 1, 2, 3]);
}

#[test]
fn mid_axis_lines_mirror_outward_from_the_snapped_centre() {
    let info = MidAxisInfo {
        separation: 1_000_000,
        xline_count: 3,
        yline_count: 2,
        rounded_xcentre: 1_000_000,
        rounded_ycentre: 0,
    };
    let b = small_bounds();
    let m = gen_mid_axis(&info, &b).unwrap();
    // 4 * yline_count - 2 horizontal vertices, then 4 * xline_count - 2
    assert_eq!(m.positions.len(), 6 + 10);
    assert_eq!(m.normals.len(), 16);
    assert_eq!(m.indices.len(), 16);
    // horizontal block: reference line at the snapped centre, then +1, -1
    assert_eq!(m.positions[0], Point3 { x: -4_000_000, y: 0, z: 0 });
    assert_eq!(m.positions[1], Point3 { x: 4_000_000, y: 0, z: 0 });
    assert_eq!(m.positions[2], Point3 { x: -4_000_000, y: 1_000_000, z: 0 });
    assert_eq!(m.positions[3], Point3 { x: 4_000_000, y: 1_000_000, z: 0 });
    assert_eq!(m.positions[4], Point3 { x: -4_000_000, y: -1_000_000, z: 0 });
    assert_eq!(m.positions[5], Point3 { x: 4_000_000, y: -1_000_000, z: 0 });
    for k in 0..6 {
        assert_eq!(m.normals[k], Point3 { x: 0, y: 1_000_000, z: 0 });
    }
    // vertical block: reference at x = 1, then 2, 0, then 3, -1
    assert_eq!(m.positions[6], Point3 { x: 1_000_000, y: -2_000_000, z: 0 });
    assert_eq!(m.positions[7], Point3 { x: 1_000_000, y: 2_000_000, z: 0 });
    assert_eq!(m.positions[8], Point3 { x: 2_000_000, y: -2_000_000, z: 0 });
    assert_eq!(m.positions[10], Point3 { x: 0, y: -2_000_000, z: 0 });
    assert_eq!(m.positions[12], Point3 { x: 3_000_000, y: -2_000_000, z: 0 });
    assert_eq!(m.positions[14], Point3 { x: -1_000_000, y: -2_000_000, z: 0 });
    for k in 6..16 {
        assert_eq!(m.normals[k], Point3 { x: 1_000_000, y: 0, z: 0 });
    }
    for (k, ix) in m.indices.iter().enumerate() {
        assert_eq!(*ix as usize, k);
    }
}

#[test]
fn minor_tier_reuses_the_construction_at_a_fifth_of_the_spacing() {
    let info = MidAxisInfo {
        separation: 1_000_000,
        xline_count: 2,
        yline_count: 2,
        rounded_xcentre: 0,
        rounded_ycentre: 0,
    };
    let minor = info.calculate_min_axis_info();
    let b = small_bounds();
    let m = gen_min_axis(&minor, &b).unwrap();
    assert_eq!(m.positions.len(), 4 * 10 + 4 * 10 - 4);
    // the first ring of minor lines sits at one fifth of the mid spacing
    assert_eq!(m.positions[2], Point3 { x: -4_000_000, y: 200_000, z: 0 });
    assert_eq!(m.positions[4], Point3 { x: -4_000_000, y: -200_000, z: 0 });
}

#[test]
fn grid_generation_rejects_vertex_counts_past_the_index_width() {
    let info = MidAxisInfo {
        separation: 1,
        xline_count: 2_000_000_000,
        yline_count: 1,
        rounded_xcentre: 0,
        rounded_ycentre: 0,
    };
    let b = small_bounds();
    assert_eq!(gen_mid_axis(&info, &b), Err(GeometryError::TooManyVertices));
}
