//! Three-component vectors in fixed-point world coordinates, with
//! subtraction, magnitude, and rotation about the x axis.

use vstd::prelude::*;
use crate::math::SCALE;
use crate::math::COORD_LIMIT;
use crate::math::MESH_LIMIT;
use crate::math::tdiv;
use crate::math::tdiv_i64;
use crate::math::isqrt_u64;
use crate::math::lemma_mul_bound;
use crate::math::lemma_tdiv_bound;
use crate::math::lemma_tdiv_exact;

verus! {

/// A vector in raw fixed-point units: the world-space vector is this one
/// divided by `SCALE`.
#[derive(Clone, Copy, Debug, PartialEq, Eq, Structural)]
pub struct V3d {
    pub x: i64,
    pub y: i64,
    pub z: i64,
}

/// The mathematical value of a `V3d`: the same three components as
/// unbounded integers.
pub struct Vec3M {
    pub x: int,
    pub y: int,
    pub z: int,
}

impl View for V3d {
    type V = Vec3M;

    open spec fn view(&self) -> Vec3M {
        Vec3M { x: self.x as int, y: self.y as int, z: self.z as int }
    }
}

impl Vec3M {
    /// Every component has magnitude at most `m`.
    pub open spec fn bounded(self, m: int) -> bool {
        &&& -m <= self.x <= m
        &&& -m <= self.y <= m
        &&& -m <= self.z <= m
    }

    /// Squared Euclidean magnitude.
    pub open spec fn norm_sq(self) -> int {
        self.x * self.x + self.y * self.y + self.z * self.z
    }

    /// Rotation about the x axis by the angle whose cosine and sine are
    /// `c / SCALE` and `s / SCALE`: the x component is unchanged and the
    /// (y, z) pair is rotated in its plane, with one truncating rescale.
    pub open spec fn rotated_x(self, c: int, s: int) -> Vec3M {
        Vec3M {
            x: self.x,
            y: tdiv(self.y * c - self.z * s, SCALE as int),
            z: tdiv(self.y * s + self.z * c, SCALE as int),
        }
    }
}

impl V3d {
    pub fn new(x: i64, y: i64, z: i64) -> (r: V3d)
        ensures
            r@ == (Vec3M { x: x as int, y: y as int, z: z as int }),
    {
        V3d { x, y, z }
    }

    /// Component-wise difference.
    pub fn sub(self, rhs: V3d) -> (r: V3d)
        requires
            i64::MIN <= self@.x - rhs@.x <= i64::MAX,
            i64::MIN <= self@.y - rhs@.y <= i64::MAX,
            i64::MIN <= self@.z - rhs@.z <= i64::MAX,
        ensures
            r@ == (Vec3M { x: self@.x - rhs@.x, y: self@.y - rhs@.y, z: self@.z - rhs@.z }),
    {
        V3d { x: self.x - rhs.x, y: self.y - rhs.y, z: self.z - rhs.z }
    }

    /// Euclidean magnitude in raw units, rounded down to an integer.
    pub fn abs(&self) -> (r: i64)
        requires
            self@.bounded(0x4000_0000),
        ensures
            0 <= r,
            r * r <= self@.norm_sq() < (r + 1) * (r + 1),
    {
        proof {
            lemma_mul_bound(self@.x, self@.x, 0x4000_0000, 0x4000_0000);
            lemma_mul_bound(self@.y, self@.y, 0x4000_0000, 0x4000_0000);
            lemma_mul_bound(self@.z, self@.z, 0x4000_0000, 0x4000_0000);
            assert(self@.x * self@.x >= 0) by (nonlinear_arith);
            assert(self@.y * self@.y >= 0) by (nonlinear_arith);
            assert(self@.z * self@.z >= 0) by (nonlinear_arith);
        }
        let sq: i64 = self.x * self.x + self.y * self.y + self.z * self.z;
        let root: u64 = isqrt_u64(sq as u64);
        proof {
            assert(root * root <= sq as int);
            assert((sq as int) < (root + 1) * (root + 1));
            assert(root <= 0x1_0000_0000) by (nonlinear_arith)
                requires
                    root * root <= 0x4000_0000_0000_0000 && 0 <= root;
        }
        root as i64
    }

    /// Rotation about the x axis: `c` and `s` are the cosine and sine of
    /// the angle, in `SCALE` units.
    pub fn rotate_around_x(self, c: i64, s: i64) -> (r: V3d)
        requires
            self@.bounded(MESH_LIMIT as int),
            -(SCALE as int) <= c <= SCALE as int,
            -(SCALE as int) <= s <= SCALE as int,
        ensures
            r@ == self@.rotated_x(c as int, s as int),
            r@.bounded(COORD_LIMIT as int),
    {
        proof {
            lemma_mul_bound(self@.y, c as int, MESH_LIMIT as int, SCALE as int);
            lemma_mul_bound(self@.z, s as int, MESH_LIMIT as int, SCALE as int);
            lemma_mul_bound(self@.y, s as int, MESH_LIMIT as int, SCALE as int);
            lemma_mul_bound(self@.z, c as int, MESH_LIMIT as int, SCALE as int);
            lemma_tdiv_bound(
                self@.y * c - self@.z * s,
                SCALE as int,
                COORD_LIMIT as int,
            );
            lemma_tdiv_bound(
                self@.y * s + self@.z * c,
                SCALE as int,
                COORD_LIMIT as int,
            );
        }
        let ny: i64 = tdiv_i64(self.y * c - self.z * s, SCALE);
        let nz: i64 = tdiv_i64(self.y * s + self.z * c, SCALE);
        V3d { x: self.x, y: ny, z: nz }
    }
}

/// Rotation preserves the squared magnitude exactly, before the final
/// rescale by `SCALE`: for any (y, z) pair and any (c, s) pair, the
/// rotated products satisfy the Pythagorean identity, so a unit (c, s)
/// pair with `c * c + s * s == SCALE * SCALE` scales the squared
/// magnitude of the (y, z) plane by exactly `SCALE * SCALE`.
pub proof fn lemma_rotation_preserves_norm_sq(y: int, z: int, c: int, s: int)
    ensures
        (y * c - z * s) * (y * c - z * s) + (y * s + z * c) * (y * s + z * c)
            == (y * y + z * z) * (c * c + s * s),
{
    let yc = y * c;
    let zs = z * s;
    let ys = y * s;
    let zc = z * c;
    assert((yc - zs) * (yc - zs) == yc * yc - 2 * (yc * zs) + zs * zs) by (nonlinear_arith);
    assert((ys + zc) * (ys + zc) == ys * ys + 2 * (ys * zc) + zc * zc) by (nonlinear_arith);
    assert(yc * zs == ys * zc) by (nonlinear_arith)
        requires
            yc == y * c && zs == z * s && ys == y * s && zc == z * c;
    assert(yc * yc == (y * y) * (c * c)) by (nonlinear_arith)
        requires
            yc == y * c;
    assert(zs * zs == (z * z) * (s * s)) by (nonlinear_arith)
        requires
            zs == z * s;
    assert(ys * ys == (y * y) * (s * s)) by (nonlinear_arith)
        requires
            ys == y * s;
    assert(zc * zc == (z * z) * (c * c)) by (nonlinear_arith)
        requires
            zc == z * c;
    assert((y * y) * (c * c) + (z * z) * (s * s) + (y * y) * (s * s) + (z * z) * (c * c)
        == (y * y + z * z) * (c * c + s * s))
        by (nonlinear_arith);
}

/// Rotating by the unit pair (SCALE, 0) — the fixed-point cosine and sine
/// of a full turn — is the identity, so a frame rotated by a whole number
/// of turns reproduces the unrotated frame.
pub proof fn lemma_rotation_identity(v: Vec3M)
    ensures
        v.rotated_x(SCALE as int, 0) == v,
{
    lemma_tdiv_exact(v.y, SCALE as int);
    lemma_tdiv_exact(v.z, SCALE as int);
    assert(v.y * (SCALE as int) - v.z * 0 == v.y * (SCALE as int));
    assert(v.y * 0 + v.z * (SCALE as int) == v.z * (SCALE as int));
}

} // verus!
