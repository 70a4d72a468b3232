//! The per-pixel rasterizer: orientation test, triangle membership,
//! barycentric weights, and depth/shading interpolation, all in exact
//! integer arithmetic.
//!
//! An interpolated cell is an exact rational: a numerator per channel
//! over one shared positive denominator.  The background and the
//! "outside this triangle" result are the same sentinel, a depth of
//! `DEPTH_FLOOR / SCALE` world units with a white shading value, so the
//! depth merge needs no special case for either.

use vstd::prelude::*;
use crate::math::SCALE;
use crate::math::COORD_LIMIT;
use crate::math::lemma_mul_bound;
use crate::vec3::V3d;
use crate::vec3::Vec3M;
use crate::triangle::Triangle;
use crate::triangle::TriM;

verus! {

/// Sentinel depth of the background, in raw units: -9999 world units,
/// far below every depth a triangle within `COORD_LIMIT` can produce.
pub const DEPTH_FLOOR: i64 = -9999 * SCALE;

/// Magnitude cap on every numerator of an interpolated cell (2^66).
pub const NUM_LIMIT: i128 = 73786976294838206464;

/// Cap on the denominator of an interpolated cell (2^45).
pub const DEN_LIMIT: i128 = 35184372088832;

/// One cell of the frame buffer: an exact rational depth
/// `z_num / den` and shading triple `v*_num / den`, all in raw
/// fixed-point units, with `den > 0`.
#[derive(Clone, Copy, Debug, PartialEq, Eq, Structural)]
pub struct Depthpixel {
    pub z_num: i128,
    pub v0_num: i128,
    pub v1_num: i128,
    pub v2_num: i128,
    pub den: i128,
}

/// The mathematical value of a cell: the same numerators and denominator
/// as unbounded integers.
pub struct PixM {
    pub z_num: int,
    pub v0_num: int,
    pub v1_num: int,
    pub v2_num: int,
    pub den: int,
}

impl View for Depthpixel {
    type V = PixM;

    open spec fn view(&self) -> PixM {
        PixM {
            z_num: self.z_num as int,
            v0_num: self.v0_num as int,
            v1_num: self.v1_num as int,
            v2_num: self.v2_num as int,
            den: self.den as int,
        }
    }
}

impl PixM {
    /// Denominator positive and everything small enough that a depth
    /// comparison of two such cells stays inside `i128`.
    pub open spec fn wf(self) -> bool {
        &&& 1 <= self.den <= DEN_LIMIT
        &&& -(NUM_LIMIT as int) <= self.z_num <= NUM_LIMIT as int
        &&& -(NUM_LIMIT as int) <= self.v0_num <= NUM_LIMIT as int
        &&& -(NUM_LIMIT as int) <= self.v1_num <= NUM_LIMIT as int
        &&& -(NUM_LIMIT as int) <= self.v2_num <= NUM_LIMIT as int
    }
}

/// The background cell: sentinel depth, white shading value (1.0 world
/// units, that is `SCALE` raw units per channel).
pub open spec fn background() -> PixM {
    PixM {
        z_num: DEPTH_FLOOR as int,
        v0_num: SCALE as int,
        v1_num: SCALE as int,
        v2_num: SCALE as int,
        den: 1,
    }
}

/// Twice the signed area of the 2D triangle (p, q, r), depth dropped.
pub open spec fn cross2d(p: Vec3M, q: Vec3M, r: Vec3M) -> int {
    (q.x - p.x) * (r.y - p.y) - (q.y - p.y) * (r.x - p.x)
}

/// Whether the 2D triangle (p, q, r) winds clockwise (negative area).
pub open spec fn is_clockwise(p: Vec3M, q: Vec3M, r: Vec3M) -> bool {
    cross2d(p, q, r) < 0
}

/// Membership of a 2D sample point in the triangle: the sample is inside
/// exactly when it lies on the triangle's own side of all three edges.
/// A sample exactly on an edge counts as inside.
pub open spec fn inside(t: TriM, x: int, y: int) -> bool {
    let a = Vec3M { x: x, y: y, z: 0 };
    let o = is_clockwise(t.v0, t.v1, t.v2);
    &&& is_clockwise(t.v0, t.v1, a) == o
    &&& is_clockwise(t.v1, t.v2, a) == o
    &&& is_clockwise(t.v2, t.v0, a) == o
}

/// Denominator of the barycentric weights: the determinant of the
/// triangle's 2D edge matrix.
pub open spec fn bary_den(t: TriM) -> int {
    (t.v1.y - t.v2.y) * (t.v0.x - t.v2.x) + (t.v2.x - t.v1.x) * (t.v0.y - t.v2.y)
}

/// Numerator of the first barycentric weight of sample (x, y).
pub open spec fn bary1(t: TriM, x: int, y: int) -> int {
    (t.v1.y - t.v2.y) * (x - t.v2.x) + (t.v2.x - t.v1.x) * (y - t.v2.y)
}

/// Numerator of the second barycentric weight of sample (x, y).
pub open spec fn bary2(t: TriM, x: int, y: int) -> int {
    (t.v2.y - t.v0.y) * (x - t.v2.x) + (t.v0.x - t.v2.x) * (y - t.v2.y)
}

/// Numerator of the third barycentric weight: the weights sum to one.
pub open spec fn bary3(t: TriM, x: int, y: int) -> int {
    bary_den(t) - bary1(t, x, y) - bary2(t, x, y)
}

/// The interpolated cell of one triangle at one sample point.
///
/// Outside the triangle — and for a degenerate (zero-area) triangle,
/// whose interpolation has no defined weights — the result is the
/// background sentinel, which never displaces anything in the depth
/// merge.  Inside, depth is `sum(weight_i * vertex_i.z) / 3` and the
/// shading value per axis is `-sum(weight_i * normal_i.axis) / 3`, kept
/// as one exact rational with a positive denominator.
pub open spec fn interpolate(t: TriM, x: int, y: int) -> PixM {
    let d = bary_den(t);
    if !inside(t, x, y) || d == 0 {
        background()
    } else {
        let n1 = bary1(t, x, y);
        let n2 = bary2(t, x, y);
        let n3 = bary3(t, x, y);
        let zn = n1 * t.v0.z + n2 * t.v1.z + n3 * t.v2.z;
        let v0n = -(n1 * t.n0.x + n2 * t.n1.x + n3 * t.n2.x);
        let v1n = -(n1 * t.n0.y + n2 * t.n1.y + n3 * t.n2.y);
        let v2n = -(n1 * t.n0.z + n2 * t.n1.z + n3 * t.n2.z);
        if d > 0 {
            PixM { z_num: zn, v0_num: v0n, v1_num: v1n, v2_num: v2n, den: 3 * d }
        } else {
            PixM { z_num: -zn, v0_num: -v0n, v1_num: -v1n, v2_num: -v2n, den: -3 * d }
        }
    }
}

/// Depth merge of one cell: the candidate replaces the current cell
/// exactly when its depth is strictly larger.
pub open spec fn merge(cur: PixM, cand: PixM) -> PixM {
    if cand.z_num * cur.den > cur.z_num * cand.den {
        cand
    } else {
        cur
    }
}

impl Depthpixel {
    /// The background cell.
    pub fn background() -> (r: Depthpixel)
        ensures
            r@ == background(),
            r@.wf(),
    {
        Depthpixel { z_num: DEPTH_FLOOR as i128, v0_num: SCALE as i128, v1_num: SCALE as i128, v2_num: SCALE as i128, den: 1 }
    }

    /// Depth merge: keep the closer (larger-depth) of the two cells,
    /// the current one on a tie.
    pub fn merge(self, cand: Depthpixel) -> (r: Depthpixel)
        requires
            self@.wf(),
            cand@.wf(),
        ensures
            r@ == merge(self@, cand@),
            r@.wf(),
    {
        proof {
            lemma_mul_bound(cand@.z_num, self@.den, NUM_LIMIT as int, DEN_LIMIT as int);
            lemma_mul_bound(self@.z_num, cand@.den, NUM_LIMIT as int, DEN_LIMIT as int);
        }
        if cand.z_num * self.den > self.z_num * cand.den {
            cand
        } else {
            self
        }
    }
}

impl Default for Depthpixel {
    /// A fresh frame buffer cell: the background sentinel.
    fn default() -> (r: Depthpixel)
        ensures
            r@ == background(),
            r@.wf(),
    {
        Depthpixel::background()
    }
}

/// Whether the three vertices of the triangle wind clockwise in 2D.
/// This fixes the triangle's reference orientation for the membership
/// test.
pub fn clockwise(p: &V3d, q: &V3d, r: &V3d) -> (res: bool)
    requires
        p@.bounded(COORD_LIMIT as int),
        q@.bounded(COORD_LIMIT as int),
        r@.bounded(COORD_LIMIT as int),
    ensures
        res == is_clockwise(p@, q@, r@),
{
    let ux: i64 = q.x - p.x;
    let uy: i64 = q.y - p.y;
    let vx: i64 = r.x - p.x;
    let vy: i64 = r.y - p.y;
    proof {
        lemma_mul_bound(ux as int, vy as int, 2 * COORD_LIMIT as int, 2 * COORD_LIMIT as int);
        lemma_mul_bound(uy as int, vx as int, 2 * COORD_LIMIT as int, 2 * COORD_LIMIT as int);
    }
    ux * vy - uy * vx < 0
}

/// Whether the 2D sample point lies in the triangle (depth dropped):
/// on the triangle's own side of all three edges, edges included.
pub fn pixel_in_triangle(tri: &Triangle, pixel: (i64, i64)) -> (res: bool)
    requires
        tri.complete(),
        tri@.bounded(COORD_LIMIT as int),
        -(COORD_LIMIT as int) <= pixel.0 <= COORD_LIMIT as int,
        -(COORD_LIMIT as int) <= pixel.1 <= COORD_LIMIT as int,
    ensures
        res == inside(tri@, pixel.0 as int, pixel.1 as int),
{
    let a = V3d::new(pixel.0, pixel.1, 0);
    let p = &tri.vertices[0];
    let q = &tri.vertices[1];
    let r = &tri.vertices[2];
    let orientation = clockwise(p, q, r);
    clockwise(p, q, &a) == orientation && clockwise(q, r, &a) == orientation && clockwise(
        r,
        p,
        &a,
    ) == orientation
}

/// The barycentric weights of the sample point with respect to the
/// triangle, as the three numerators and the shared denominator of the
/// standard determinant ratios: weight `i` is `r.i / r.3`.  By
/// construction the numerators sum to the denominator, so the weights
/// sum to one.
pub fn barymetric(tri: &Triangle, pixel: (i64, i64)) -> (r: (i64, i64, i64, i64))
    requires
        tri.complete(),
        tri@.bounded(COORD_LIMIT as int),
        -(COORD_LIMIT as int) <= pixel.0 <= COORD_LIMIT as int,
        -(COORD_LIMIT as int) <= pixel.1 <= COORD_LIMIT as int,
    ensures
        r.0 == bary1(tri@, pixel.0 as int, pixel.1 as int),
        r.1 == bary2(tri@, pixel.0 as int, pixel.1 as int),
        r.2 == bary3(tri@, pixel.0 as int, pixel.1 as int),
        r.3 == bary_den(tri@),
{
    let x = pixel.0;
    let y = pixel.1;
    let x1 = tri.vertices[0].x;
    let y1 = tri.vertices[0].y;
    let x2 = tri.vertices[1].x;
    let y2 = tri.vertices[1].y;
    let x3 = tri.vertices[2].x;
    let y3 = tri.vertices[2].y;
    proof {
        let m = 2 * COORD_LIMIT as int;
        lemma_mul_bound(y2 as int - y3 as int, x1 as int - x3 as int, m, m);
        lemma_mul_bound(x3 as int - x2 as int, y1 as int - y3 as int, m, m);
        lemma_mul_bound(y2 as int - y3 as int, x as int - x3 as int, m, m);
        lemma_mul_bound(x3 as int - x2 as int, y as int - y3 as int, m, m);
        lemma_mul_bound(y3 as int - y1 as int, x as int - x3 as int, m, m);
        lemma_mul_bound(x1 as int - x3 as int, y as int - y3 as int, m, m);
    }
    let den: i64 = (y2 - y3) * (x1 - x3) + (x3 - x2) * (y1 - y3);
    let n1: i64 = (y2 - y3) * (x - x3) + (x3 - x2) * (y - y3);
    let n2: i64 = (y3 - y1) * (x - x3) + (x1 - x3) * (y - y3);
    let n3: i64 = den - n1 - n2;
    (n1, n2, n3, den)
}

/// Magnitude bounds of the barycentric numerators and denominator of a
/// bounded triangle and sample point.
pub proof fn lemma_bary_bounds(t: TriM, x: int, y: int)
    requires
        t.bounded(COORD_LIMIT as int),
        -(COORD_LIMIT as int) <= x <= COORD_LIMIT as int,
        -(COORD_LIMIT as int) <= y <= COORD_LIMIT as int,
    ensures
        -8 * (COORD_LIMIT as int) * (COORD_LIMIT as int) <= bary_den(t)
            <= 8 * (COORD_LIMIT as int) * (COORD_LIMIT as int),
        -8 * (COORD_LIMIT as int) * (COORD_LIMIT as int) <= bary1(t, x, y)
            <= 8 * (COORD_LIMIT as int) * (COORD_LIMIT as int),
        -8 * (COORD_LIMIT as int) * (COORD_LIMIT as int) <= bary2(t, x, y)
            <= 8 * (COORD_LIMIT as int) * (COORD_LIMIT as int),
        -24 * (COORD_LIMIT as int) * (COORD_LIMIT as int) <= bary3(t, x, y)
            <= 24 * (COORD_LIMIT as int) * (COORD_LIMIT as int),
{
    let c = COORD_LIMIT as int;
    lemma_mul_bound(t.v1.y - t.v2.y, t.v0.x - t.v2.x, 2 * c, 2 * c);
    lemma_mul_bound(t.v2.x - t.v1.x, t.v0.y - t.v2.y, 2 * c, 2 * c);
    lemma_mul_bound(t.v1.y - t.v2.y, x - t.v2.x, 2 * c, 2 * c);
    lemma_mul_bound(t.v2.x - t.v1.x, y - t.v2.y, 2 * c, 2 * c);
    lemma_mul_bound(t.v2.y - t.v0.y, x - t.v2.x, 2 * c, 2 * c);
    lemma_mul_bound(t.v0.x - t.v2.x, y - t.v2.y, 2 * c, 2 * c);
    assert((2 * c) * (2 * c) == 4 * c * c) by (nonlinear_arith);
}

/// The interpolated cell of a bounded triangle at a bounded sample point
/// is well-formed.
pub proof fn lemma_interpolate_wf(t: TriM, x: int, y: int)
    requires
        t.bounded(COORD_LIMIT as int),
        -(COORD_LIMIT as int) <= x <= COORD_LIMIT as int,
        -(COORD_LIMIT as int) <= y <= COORD_LIMIT as int,
    ensures
        interpolate(t, x, y).wf(),
{
    let c = COORD_LIMIT as int;
    let d = bary_den(t);
    if !inside(t, x, y) || d == 0 {
    } else {
        lemma_bary_bounds(t, x, y);
        let n1 = bary1(t, x, y);
        let n2 = bary2(t, x, y);
        let n3 = bary3(t, x, y);
        lemma_mul_bound(n1, t.v0.z, 8 * c * c, c);
        lemma_mul_bound(n2, t.v1.z, 8 * c * c, c);
        lemma_mul_bound(n3, t.v2.z, 24 * c * c, c);
        lemma_mul_bound(n1, t.n0.x, 8 * c * c, c);
        lemma_mul_bound(n2, t.n1.x, 8 * c * c, c);
        lemma_mul_bound(n3, t.n2.x, 24 * c * c, c);
        lemma_mul_bound(n1, t.n0.y, 8 * c * c, c);
        lemma_mul_bound(n2, t.n1.y, 8 * c * c, c);
        lemma_mul_bound(n3, t.n2.y, 24 * c * c, c);
        lemma_mul_bound(n1, t.n0.z, 8 * c * c, c);
        lemma_mul_bound(n2, t.n1.z, 8 * c * c, c);
        lemma_mul_bound(n3, t.n2.z, 24 * c * c, c);
        assert((8 * c * c) * c + (8 * c * c) * c + (24 * c * c) * c <= NUM_LIMIT as int)
            by (nonlinear_arith)
            requires
                c == 1048576;
    }
}

/// Per-pixel interpolation of one triangle, matching `interpolate`:
/// the background sentinel outside the triangle (or for a degenerate
/// one), and the exact rational depth and shading blend inside.
pub fn tri_interpolate(tri: &Triangle, pixel: (i64, i64)) -> (r: Option<Depthpixel>)
    requires
        tri.complete(),
        tri@.bounded(COORD_LIMIT as int),
        -(COORD_LIMIT as int) <= pixel.0 <= COORD_LIMIT as int,
        -(COORD_LIMIT as int) <= pixel.1 <= COORD_LIMIT as int,
    ensures
        r is Some,
        r->0@ == interpolate(tri@, pixel.0 as int, pixel.1 as int),
        r->0@.wf(),
{
    proof {
        lemma_interpolate_wf(tri@, pixel.0 as int, pixel.1 as int);
    }
    if !pixel_in_triangle(tri, pixel) {
        return Some(Depthpixel::background());
    }
    let (n1, n2, n3, den) = barymetric(tri, pixel);
    if den == 0 {
        return Some(Depthpixel::background());
    }
    proof {
        let c = COORD_LIMIT as int;
        lemma_bary_bounds(tri@, pixel.0 as int, pixel.1 as int);
        lemma_mul_bound(n1 as int, tri@.v0.z, 8 * c * c, c);
        lemma_mul_bound(n2 as int, tri@.v1.z, 8 * c * c, c);
        lemma_mul_bound(n3 as int, tri@.v2.z, 24 * c * c, c);
        lemma_mul_bound(n1 as int, tri@.n0.x, 8 * c * c, c);
        lemma_mul_bound(n2 as int, tri@.n1.x, 8 * c * c, c);
        lemma_mul_bound(n3 as int, tri@.n2.x, 24 * c * c, c);
        lemma_mul_bound(n1 as int, tri@.n0.y, 8 * c * c, c);
        lemma_mul_bound(n2 as int, tri@.n1.y, 8 * c * c, c);
        lemma_mul_bound(n3 as int, tri@.n2.y, 24 * c * c, c);
        lemma_mul_bound(n1 as int, tri@.n0.z, 8 * c * c, c);
        lemma_mul_bound(n2 as int, tri@.n1.z, 8 * c * c, c);
        lemma_mul_bound(n3 as int, tri@.n2.z, 24 * c * c, c);
    }
    let m1: i128 = n1 as i128;
    let m2: i128 = n2 as i128;
    let m3: i128 = n3 as i128;
    let zn: i128 = m1 * (tri.vertices[0].z as i128) + m2 * (tri.vertices[1].z as i128) + m3 * (
    tri.vertices[2].z as i128);
    let v0n: i128 = -(m1 * (tri.normals[0].x as i128) + m2 * (tri.normals[1].x as i128) + m3 * (
    tri.normals[2].x as i128));
    let v1n: i128 = -(m1 * (tri.normals[0].y as i128) + m2 * (tri.normals[1].y as i128) + m3 * (
    tri.normals[2].y as i128));
    let v2n: i128 = -(m1 * (tri.normals[0].z as i128) + m2 * (tri.normals[1].z as i128) + m3 * (
    tri.normals[2].z as i128));
    if den > 0 {
        Some(Depthpixel { z_num: zn, v0_num: v0n, v1_num: v1n, v2_num: v2n, den: 3 * (den as i128) })
    } else {
        Some(
            Depthpixel {
                z_num: -zn,
                v0_num: -v0n,
                v1_num: -v1n,
                v2_num: -v2n,
                den: -3 * (den as i128),
            },
        )
    }
}

/// Swapping the first two vertices negates the signed area, so the
/// orientation test flips for every non-degenerate vertex triple.
pub proof fn lemma_orientation_flips(p: Vec3M, q: Vec3M, r: Vec3M)
    ensures
        cross2d(q, p, r) == -cross2d(p, q, r),
        cross2d(p, q, r) != 0 ==> (is_clockwise(q, p, r) <==> !is_clockwise(p, q, r)),
{
    assert((p.x - q.x) * (r.y - q.y) - (p.y - q.y) * (r.x - q.x) == -((q.x - p.x) * (r.y - p.y) - (
    q.y - p.y) * (r.x - p.x))) by (nonlinear_arith);
}

/// The background sentinel is below every real surface: a sample inside
/// a non-degenerate bounded triangle interpolates to a depth strictly
/// above `DEPTH_FLOOR`, so it always displaces the background in the
/// depth merge and the background never displaces it.
pub proof fn lemma_sentinel_loses(t: TriM, x: int, y: int)
    requires
        t.bounded(COORD_LIMIT as int),
        -(COORD_LIMIT as int) <= x <= COORD_LIMIT as int,
        -(COORD_LIMIT as int) <= y <= COORD_LIMIT as int,
        inside(t, x, y),
        bary_den(t) != 0,
    ensures
        interpolate(t, x, y).z_num > (DEPTH_FLOOR as int) * interpolate(t, x, y).den,
        merge(background(), interpolate(t, x, y)) == interpolate(t, x, y),
{
    let c = COORD_LIMIT as int;
    let d = bary_den(t);
    let ad = if d < 0 { -d } else { d };
    lemma_barycentric_weights(t, x, y);
    let n1 = bary1(t, x, y);
    let n2 = bary2(t, x, y);
    let n3 = bary3(t, x, y);
    lemma_mul_bound(n1, t.v0.z, ad, c);
    lemma_mul_bound(n2, t.v1.z, ad, c);
    lemma_mul_bound(n3, t.v2.z, ad, c);
    let zn = n1 * t.v0.z + n2 * t.v1.z + n3 * t.v2.z;
    let p = interpolate(t, x, y);
    assert(p.den == 3 * ad);
    assert(p.z_num >= -3 * (ad * c));
    assert((DEPTH_FLOOR as int) * (3 * ad) < -3 * (ad * c)) by (nonlinear_arith)
        requires
            ad > 0 && c == 1048576 && DEPTH_FLOOR as int == -10238976;
    assert((DEPTH_FLOOR as int) * p.den == (DEPTH_FLOOR as int) * (3 * ad));
    assert(p.z_num * 1 > (DEPTH_FLOOR as int) * p.den);
}

/// Barycentric weights of a sample inside a non-degenerate triangle:
/// the three numerators sum to the denominator exactly (the weights sum
/// to one), and each numerator lies between zero and the denominator
/// (each weight lies in [0, 1]).
pub proof fn lemma_barycentric_weights(t: TriM, x: int, y: int)
    requires
        inside(t, x, y),
        bary_den(t) != 0,
    ensures
        bary1(t, x, y) + bary2(t, x, y) + bary3(t, x, y) == bary_den(t),
        bary_den(t) > 0 ==> 0 <= bary1(t, x, y) <= bary_den(t) && 0 <= bary2(t, x, y)
            <= bary_den(t) && 0 <= bary3(t, x, y) <= bary_den(t),
        bary_den(t) < 0 ==> bary_den(t) <= bary1(t, x, y) <= 0 && bary_den(t) <= bary2(t, x, y)
            <= 0 && bary_den(t) <= bary3(t, x, y) <= 0,
{
    let a = Vec3M { x: x, y: y, z: 0 };
    let x0 = t.v0.x;
    let y0 = t.v0.y;
    let x1 = t.v1.x;
    let y1 = t.v1.y;
    let x2 = t.v2.x;
    let y2 = t.v2.y;
    assert((y1 - y2) * (x - x2) + (x2 - x1) * (y - y2) == (x2 - x1) * (y - y1) - (y2 - y1) * (x
        - x1)) by (nonlinear_arith);
    assert(bary1(t, x, y) == cross2d(t.v1, t.v2, a));
    assert((y2 - y0) * (x - x2) + (x0 - x2) * (y - y2) == (x0 - x2) * (y - y2) - (y0 - y2) * (x
        - x2)) by (nonlinear_arith);
    assert(bary2(t, x, y) == cross2d(t.v2, t.v0, a));
    assert(((y1 - y2) * (x0 - x2) + (x2 - x1) * (y0 - y2)) - ((y1 - y2) * (x - x2) + (x2 - x1) * (y
        - y2)) - ((y2 - y0) * (x - x2) + (x0 - x2) * (y - y2)) == (x1 - x0) * (y - y0) - (y1 - y0)
        * (x - x0)) by (nonlinear_arith);
    assert(bary3(t, x, y) == cross2d(t.v0, t.v1, a));
    assert((y1 - y2) * (x0 - x2) + (x2 - x1) * (y0 - y2) == (x1 - x0) * (y2 - y0) - (y1 - y0) * (x2
        - x0)) by (nonlinear_arith);
    assert(bary_den(t) == cross2d(t.v0, t.v1, t.v2));
}

} // verus!
