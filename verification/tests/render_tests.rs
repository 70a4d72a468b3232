//! Tests for the fixed-point rasterization pipeline.
//!
//! World coordinates are fixed point with 1024 raw units per world
//! unit, so the mesh value 1.0 appears as 1024 below.

use term3drender::build_triangles;
use term3drender::camera_fits;
use term3drender::clockwise;
use term3drender::barymetric;
use term3drender::flatten_buffer_to_color_frame;
use term3drender::pixel_color;
use term3drender::pixel_in_triangle;
use term3drender::ppm_encode;
use term3drender::render_frame;
use term3drender::tri_interpolate;
use term3drender::world_point;
use term3drender::Camera;
use term3drender::Color;
use term3drender::Depthpixel;
use term3drender::Display;
use term3drender::MeshError;
use term3drender::Triangle;
use term3drender::V3d;

/// The fixed-point cosine/sine pair of an angle in radians.
fn angle_pair(theta: f64) -> (i64, i64) {
    (
        (theta.cos() * 1024.0).round() as i64,
        (theta.sin() * 1024.0).round() as i64,
    )
}

/// The unit triangle (1,0,0), (0,1,0), (0,0,1) with zero normals.
fn unit_triangle() -> Triangle {
    Triangle::new(
        vec![
            V3d::new(1024, 0, 0),
            V3d::new(0, 1024, 0),
            V3d::new(0, 0, 1024),
        ],
        vec![V3d::new(0, 0, 0); 3],
    )
}

#[test]
fn test_pixel_in_triangle() {
    assert!(pixel_in_triangle(&unit_triangle(), (256, 256)));
}

#[test]
fn test_clockwise() {
    assert!(clockwise(
        &V3d::new(2048, 3072, 0),
        &V3d::new(6144, 7168, 0),
        &V3d::new(4096, -2048, 0),
    ));

    assert!(!clockwise(
        &V3d::new(6144, 7168, 0),
        &V3d::new(2048, 3072, 0),
        &V3d::new(4096, -2048, 0),
    ));
}

#[test]
fn test_rotation() {
    let (c, s) = angle_pair(1.570796);
    let p1 = V3d::new(7168, 1024, 0);
    let p1rot = p1.rotate_around_x(c, s);
    let expected = V3d::new(7168, 0, 1024);
    assert!((p1rot.x - expected.x).abs() <= 2);
    assert!((p1rot.y - expected.y).abs() <= 2);
    assert!((p1rot.z - expected.z).abs() <= 2);

    let p1 = V3d::new(7168, -1024, 0);
    let p1rot = p1.rotate_around_x(c, s);
    let expected = V3d::new(7168, 0, -1024);
    assert!((p1rot.x - expected.x).abs() <= 2);
    assert!((p1rot.y - expected.y).abs() <= 2);
    assert!((p1rot.z - expected.z).abs() <= 2);

    let p1 = V3d::new(7168, 1024, -1024);
    let p1rot = p1.rotate_around_x(c, s);
    let expected = V3d::new(7168, 1024, 1024);
    assert!((p1rot.x - expected.x).abs() <= 2);
    assert!((p1rot.y - expected.y).abs() <= 2);
    assert!((p1rot.z - expected.z).abs() <= 2);
}

#[test]
fn test_color_to_web_hex_format() {
    let c = Color { 0: 0, 1: 17, 2: 255 };
    assert_eq!(c.to_web_colors(), "#0011FF");
}

#[test]
fn test_rotation_preserves_magnitude() {
    let vectors = [
        V3d::new(3072, 4096, 0),
        V3d::new(0, 5120, 1024),
        V3d::new(-2048, 1024, 3072),
        V3d::new(1024, -1024, -1024),
    ];
    let angles = [0.3f64, 0.7, 1.1, 2.3, 4.0, 5.9];
    for v in vectors.iter() {
        for theta in angles.iter() {
            let (c, s) = angle_pair(*theta);
            let rotated = v.rotate_around_x(c, s);
            // The floor-rounded magnitudes agree within a few raw
            // units (a few thousandths of a world unit).
            assert!((v.abs() - rotated.abs()).abs() <= 4);
        }
    }
}

#[test]
fn test_quarter_turn_reference() {
    // cos(pi/2) = 0, sin(pi/2) = 1: exact in fixed point.
    let (c, s) = (0i64, 1024i64);
    let v = V3d::new(7168, 1024, 0);
    let r = v.rotate_around_x(c, s);
    assert_eq!((r.x, r.y, r.z), (7168, 0, 1024));
    let v = V3d::new(7168, 0, 1024);
    let r = v.rotate_around_x(c, s);
    assert_eq!((r.x, r.y, r.z), (7168, -1024, 0));
}

#[test]
fn test_barycentric_weights_interior() {
    let tri = unit_triangle();
    let samples: [(i64, i64); 4] = [(256, 256), (100, 200), (0, 0), (512, 512)];
    for p in samples.iter() {
        assert!(pixel_in_triangle(&tri, *p));
        let (n1, n2, n3, den) = barymetric(&tri, *p);
        // The weights sum to one ...
        assert_eq!(n1 + n2 + n3, den);
        // ... and each lies in [0, 1].
        assert!(den != 0);
        if den > 0 {
            assert!(0 <= n1 && n1 <= den);
            assert!(0 <= n2 && n2 <= den);
            assert!(0 <= n3 && n3 <= den);
        } else {
            assert!(den <= n1 && n1 <= 0);
            assert!(den <= n2 && n2 <= 0);
            assert!(den <= n3 && n3 <= 0);
        }
    }
}

#[test]
fn test_barycentric_exact_values() {
    // At the third vertex the third weight is one and the others zero.
    let (n1, n2, n3, den) = barymetric(&unit_triangle(), (0, 0));
    assert_eq!(den, 1048576);
    assert_eq!((n1, n2, n3), (0, 0, 1048576));
}

#[test]
fn test_interpolate_outside_is_background() {
    let r = tri_interpolate(&unit_triangle(), (2048, 2048)).unwrap();
    assert_eq!(r, Depthpixel::background());
}

#[test]
fn test_interpolate_inside_exact() {
    // At world point (0, 0) the weights are (0, 0, 1), so the depth is
    // vertex3.z / 3 = 1024/3 raw units and the shading value is zero.
    let r = tri_interpolate(&unit_triangle(), (0, 0)).unwrap();
    assert_eq!(
        r,
        Depthpixel {
            z_num: 1024 * 1048576,
            v0_num: 0,
            v1_num: 0,
            v2_num: 0,
            den: 3 * 1048576,
        }
    );
}

#[test]
fn test_interpolate_mixed_weights() {
    // At world point (0.25, 0.25) the weights are (1/4, 1/4, 1/2).
    // With unit normals along each axis the shading numerators are the
    // negated weight times 1024, over the common denominator 3 * det.
    let tri = Triangle::new(
        vec![
            V3d::new(1024, 0, 0),
            V3d::new(0, 1024, 0),
            V3d::new(0, 0, 1024),
        ],
        vec![
            V3d::new(1024, 0, 0),
            V3d::new(0, 1024, 0),
            V3d::new(0, 0, 1024),
        ],
    );
    let r = tri_interpolate(&tri, (256, 256)).unwrap();
    assert_eq!(
        r,
        Depthpixel {
            z_num: 524288 * 1024,
            v0_num: -262144 * 1024,
            v1_num: -262144 * 1024,
            v2_num: -524288 * 1024,
            den: 3 * 1048576,
        }
    );
}

fn flat_camera() -> Camera {
    Camera { shift_x: 0, shift_y: 0, zoom: 1024, aspectratio: 1024 }
}

#[test]
fn test_end_to_end_single_triangle() {
    // A 4x4 raster with unit camera samples world points
    // (row, column) in whole world units; only the three cells under
    // the triangle's footprint are hit, every other cell keeps the
    // background sentinel.
    let tris = vec![unit_triangle()];
    let display = Display { xdim: 4, ydim: 4 };
    let camera = flat_camera();
    assert!(camera_fits(&camera, &display));
    let buf = render_frame(&tris, 1024, 0, &display, &camera);
    assert_eq!(buf.len(), 4);
    let d: i128 = 1048576;
    for (i, row) in buf.iter().enumerate() {
        assert_eq!(row.len(), 4);
        for (j, cell) in row.iter().enumerate() {
            match (i, j) {
                (0, 0) => {
                    // weights (0, 0, 1): depth = 1024/3 raw.
                    assert_eq!(
                        *cell,
                        Depthpixel { z_num: 1024 * d, v0_num: 0, v1_num: 0, v2_num: 0, den: 3 * d }
                    );
                }
                (0, 1) | (1, 0) => {
                    // weights concentrated on a vertex with z = 0.
                    assert_eq!(
                        *cell,
                        Depthpixel { z_num: 0, v0_num: 0, v1_num: 0, v2_num: 0, den: 3 * d }
                    );
                }
                _ => {
                    assert_eq!(*cell, Depthpixel::background());
                }
            }
        }
    }
}

#[test]
fn test_depth_merge_picks_larger_depth() {
    // A second triangle lies in the plane z = 0.5 with normals pointing
    // down the z axis.  Where the first triangle is deeper it must
    // survive; where the flat one is deeper it must win.
    let t2 = Triangle::new(
        vec![
            V3d::new(1024, 0, 512),
            V3d::new(0, 1024, 512),
            V3d::new(0, 0, 512),
        ],
        vec![V3d::new(0, 0, -1024); 3],
    );
    let tris = vec![unit_triangle(), t2];
    let display = Display { xdim: 2, ydim: 2 };
    let camera = flat_camera();
    let buf = render_frame(&tris, 1024, 0, &display, &camera);
    let d: i128 = 1048576;
    // Cell (0,0): first triangle depth 1024/3, flat triangle 512/3.
    assert_eq!(
        buf[0][0],
        Depthpixel { z_num: 1024 * d, v0_num: 0, v1_num: 0, v2_num: 0, den: 3 * d }
    );
    // Cell (0,1): first triangle depth 0, flat triangle 512/3 wins,
    // with shading value +1 on the third axis from the negated normal.
    assert_eq!(
        buf[0][1],
        Depthpixel { z_num: 512 * d, v0_num: 0, v1_num: 0, v2_num: 1024 * d, den: 3 * d }
    );
}

#[test]
fn test_render_deterministic() {
    let t2 = Triangle::new(
        vec![
            V3d::new(1024, 0, 512),
            V3d::new(0, 1024, 512),
            V3d::new(0, 0, 512),
        ],
        vec![V3d::new(0, 0, -1024); 3],
    );
    let tris = vec![unit_triangle(), t2];
    let display = Display { xdim: 3, ydim: 3 };
    let camera = flat_camera();
    let first = render_frame(&tris, 1024, 0, &display, &camera);
    let second = render_frame(&tris, 1024, 0, &display, &camera);
    assert_eq!(first, second);
}

#[test]
fn test_full_turn_reproduces_initial_frame() {
    let tris = vec![unit_triangle()];
    let display = Display { xdim: 4, ydim: 4 };
    let camera = flat_camera();
    let (c0, s0) = angle_pair(0.0);
    assert_eq!((c0, s0), (1024, 0));
    let (c1, s1) = angle_pair(2.0 * std::f64::consts::PI);
    assert_eq!((c1, s1), (1024, 0));
    let initial = render_frame(&tris, c0, s0, &display, &camera);
    let full_turn = render_frame(&tris, c1, s1, &display, &camera);
    assert_eq!(initial, full_turn);
}

#[test]
fn test_quarter_turn_render() {
    // After a quarter turn about the x axis, (x, y, z) maps to
    // (x, -z, y): the unit triangle's projected footprint moves to
    // negative y, so cell (0,1) loses it while cell (0,0) — now the
    // vertex carrying z = 1 — keeps depth 1/3.
    let tris = vec![unit_triangle()];
    let display = Display { xdim: 2, ydim: 2 };
    let camera = flat_camera();
    let buf = render_frame(&tris, 0, 1024, &display, &camera);
    let d: i128 = 1048576;
    assert_eq!(
        buf[0][0],
        Depthpixel { z_num: 1024 * d, v0_num: 0, v1_num: 0, v2_num: 0, den: 3 * d }
    );
    assert_eq!(buf[0][1], Depthpixel::background());
}

#[test]
fn test_world_point_truncates_toward_zero() {
    // -1023/1024 world units truncates to 0, not down to -1.
    let camera = Camera { shift_x: 0, shift_y: -1, zoom: 1023, aspectratio: 1024 };
    let display = Display { xdim: 1, ydim: 1 };
    assert!(camera_fits(&camera, &display));
    assert_eq!(world_point(0, 0, &camera, &display), (0, 0));
}

#[test]
fn test_build_triangles_ok() {
    let positions = vec![V3d::new(1024, 0, 0), V3d::new(0, 1024, 0), V3d::new(0, 0, 1024)];
    let normals = vec![V3d::new(0, 0, -1024); 3];
    let indices: Vec<u64> = vec![0, 1, 2];
    let tris = build_triangles(&positions, &normals, &indices).unwrap();
    assert_eq!(tris.len(), 1);
    assert_eq!(tris[0].vertices, positions);
    assert_eq!(tris[0].normals, normals);
}

#[test]
fn test_build_triangles_mismatched() {
    let positions = vec![V3d::new(0, 0, 0), V3d::new(0, 0, 0)];
    let normals = vec![V3d::new(0, 0, 0)];
    let indices: Vec<u64> = vec![0, 1, 0];
    assert_eq!(
        build_triangles(&positions, &normals, &indices).unwrap_err(),
        MeshError::MismatchedAttributes
    );
}

#[test]
fn test_build_triangles_incomplete() {
    let positions = vec![V3d::new(0, 0, 0), V3d::new(0, 0, 0)];
    let normals = vec![V3d::new(0, 0, 0), V3d::new(0, 0, 0)];
    let indices: Vec<u64> = vec![0, 1];
    assert_eq!(
        build_triangles(&positions, &normals, &indices).unwrap_err(),
        MeshError::IncompleteTriangle
    );
}

#[test]
fn test_build_triangles_coordinate_out_of_range() {
    let positions = vec![V3d::new(600000, 0, 0); 3];
    let normals = vec![V3d::new(0, 0, 0); 3];
    let indices: Vec<u64> = vec![0, 1, 2];
    assert_eq!(
        build_triangles(&positions, &normals, &indices).unwrap_err(),
        MeshError::CoordinateOutOfRange
    );
}

#[test]
fn test_build_triangles_index_out_of_range() {
    let positions = vec![V3d::new(0, 0, 0); 3];
    let normals = vec![V3d::new(0, 0, 0); 3];
    let indices: Vec<u64> = vec![0, 1, 5];
    assert_eq!(
        build_triangles(&positions, &normals, &indices).unwrap_err(),
        MeshError::IndexOutOfRange
    );
}

#[test]
fn test_vector_magnitude() {
    assert_eq!(V3d::new(3072, 4096, 0).abs(), 5120);
    assert_eq!(V3d::new(0, 0, 0).abs(), 0);
}

#[test]
fn test_vector_sub() {
    let d = V3d::new(5, 7, 9).sub(V3d::new(1, 2, 3));
    assert_eq!((d.x, d.y, d.z), (4, 5, 6));
}

#[test]
fn test_world_point_default_camera() {
    let camera = Camera::default();
    let display = Display::default();
    assert!(camera_fits(&camera, &display));
    // Row 0 samples world x = -39 * 1.8 = -70.2 (raw -71877); column 0
    // samples world y = -80 * 1.8 = -144 (raw -147440).
    assert_eq!(world_point(0, 0, &camera, &display), (-71877, -147440));
}

#[test]
fn test_default_display_and_camera() {
    let d = Display::default();
    assert_eq!((d.xdim, d.ydim), (180, 70));
    let c = Camera::default();
    assert_eq!(c.shift_x, -39 * 1024);
    assert_eq!(c.shift_y, -80 * 1024);
    assert_eq!(c.zoom, 1843);
    assert_eq!(c.aspectratio, 1024);
}

#[test]
fn test_pixel_color_quantization() {
    // Background (value 1.0 per channel) darkens to black; value 0
    // darkens to (1 - 0) * 256 * 0.4 = 102, hex 66.
    let bg = Depthpixel::background();
    assert_eq!(pixel_color(&bg), Color { 0: 0, 1: 0, 2: 0 });
    let zero = Depthpixel { z_num: 0, v0_num: 0, v1_num: 0, v2_num: 0, den: 1 };
    assert_eq!(pixel_color(&zero), Color { 0: 102, 1: 102, 2: 102 });
}

#[test]
fn test_flatten_buffer_to_color_frame() {
    let zero = Depthpixel { z_num: 0, v0_num: 0, v1_num: 0, v2_num: 0, den: 1 };
    let frame = flatten_buffer_to_color_frame(vec![vec![Depthpixel::background(), zero]]);
    assert_eq!(frame, vec![vec!["#000000".to_string(), "#666666".to_string()]]);
}

#[test]
fn test_ppm_encode() {
    // Background channels clamp at 255: white pixels.
    let display = Display { xdim: 2, ydim: 1 };
    let buf = vec![vec![Depthpixel::background(), Depthpixel::background()]];
    let s = ppm_encode(&display, &buf);
    assert_eq!(
        s,
        "P3\n2 1\n255 #max value for each color\n255 255 255   255 255 255   \n"
    );
}

#[test]
fn test_merge_strictly_greater_replaces() {
    let bg = Depthpixel::background();
    let near = Depthpixel { z_num: 100, v0_num: 1, v1_num: 2, v2_num: 3, den: 1 };
    assert_eq!(bg.merge(near), near);
    assert_eq!(near.merge(bg), near);
    // A tie keeps the current cell.
    let tie = Depthpixel { z_num: 200, v0_num: 9, v1_num: 9, v2_num: 9, den: 2 };
    assert_eq!(near.merge(tie), near);
}
