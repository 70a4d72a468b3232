//! Triangles: three vertex positions with three matching vertex normals,
//! rotated as a unit, and assembly of a triangle list from indexed mesh
//! data.

use vstd::prelude::*;
use crate::math::SCALE;
use crate::math::COORD_LIMIT;
use crate::math::MESH_LIMIT;
use crate::vec3::V3d;
use crate::vec3::Vec3M;

verus! {

/// A triangle: `vertices[i]` corresponds to `normals[i]`.  A well-formed
/// triangle has exactly three of each; the constructors below enforce
/// that, so the rasterizer never meets a malformed one.
#[derive(Debug)]
pub struct Triangle {
    pub vertices: Vec<V3d>,
    pub normals: Vec<V3d>,
}

/// The mathematical value of a well-formed triangle: its three vertex
/// positions and three vertex normals.
pub struct TriM {
    pub v0: Vec3M,
    pub v1: Vec3M,
    pub v2: Vec3M,
    pub n0: Vec3M,
    pub n1: Vec3M,
    pub n2: Vec3M,
}

impl View for Triangle {
    type V = TriM;

    open spec fn view(&self) -> TriM {
        TriM {
            v0: self.vertices@[0]@,
            v1: self.vertices@[1]@,
            v2: self.vertices@[2]@,
            n0: self.normals@[0]@,
            n1: self.normals@[1]@,
            n2: self.normals@[2]@,
        }
    }
}

impl TriM {
    /// Every coordinate of every vertex and normal has magnitude at most `m`.
    pub open spec fn bounded(self, m: int) -> bool {
        &&& self.v0.bounded(m)
        &&& self.v1.bounded(m)
        &&& self.v2.bounded(m)
        &&& self.n0.bounded(m)
        &&& self.n1.bounded(m)
        &&& self.n2.bounded(m)
    }

    /// The triangle rotated about the x axis by the (c, s) cosine/sine
    /// pair, vertices and normals alike.
    pub open spec fn rotated_x(self, c: int, s: int) -> TriM {
        TriM {
            v0: self.v0.rotated_x(c, s),
            v1: self.v1.rotated_x(c, s),
            v2: self.v2.rotated_x(c, s),
            n0: self.n0.rotated_x(c, s),
            n1: self.n1.rotated_x(c, s),
            n2: self.n2.rotated_x(c, s),
        }
    }
}

impl Triangle {
    /// Exactly three vertices and three normals.
    pub open spec fn complete(&self) -> bool {
        self.vertices@.len() == 3 && self.normals@.len() == 3
    }

    pub fn new(vertices: Vec<V3d>, normals: Vec<V3d>) -> (r: Triangle)
        requires
            vertices@.len() == 3,
            normals@.len() == 3,
        ensures
            r.complete(),
            r.vertices@ == vertices@,
            r.normals@ == normals@,
    {
        Triangle { vertices, normals }
    }

    /// A rotated copy: every vertex and every normal turned about the x
    /// axis by the (c, s) pair; the receiver is left as it is.
    pub fn rotate_x(&self, c: i64, s: i64) -> (r: Triangle)
        requires
            self.complete(),
            self@.bounded(MESH_LIMIT as int),
            -(SCALE as int) <= c <= SCALE as int,
            -(SCALE as int) <= s <= SCALE as int,
        ensures
            r.complete(),
            r@ == self@.rotated_x(c as int, s as int),
            r@.bounded(COORD_LIMIT as int),
    {
        let mut vertices: Vec<V3d> = Vec::new();
        vertices.push(self.vertices[0].rotate_around_x(c, s));
        vertices.push(self.vertices[1].rotate_around_x(c, s));
        vertices.push(self.vertices[2].rotate_around_x(c, s));
        let mut normals: Vec<V3d> = Vec::new();
        normals.push(self.normals[0].rotate_around_x(c, s));
        normals.push(self.normals[1].rotate_around_x(c, s));
        normals.push(self.normals[2].rotate_around_x(c, s));
        Triangle { vertices, normals }
    }
}

/// A triangle list, as loaded from a mesh.
pub struct TriangleGeometry {
    pub tris: Vec<Triangle>,
}

/// Why a mesh was rejected at construction time.
#[derive(Clone, Copy, Debug, PartialEq, Eq, Structural)]
pub enum MeshError {
    /// The position and normal lists have different lengths.
    MismatchedAttributes,
    /// The index list does not split into whole triangles.
    IncompleteTriangle,
    /// Some vertex position or normal has a coordinate beyond `MESH_LIMIT`.
    CoordinateOutOfRange,
    /// Some index points past the end of the vertex list.
    IndexOutOfRange,
}

/// Every vector in the sequence is bounded by `m` in every coordinate.
pub open spec fn all_bounded(vs: Seq<V3d>, m: int) -> bool {
    forall|i: int| 0 <= i < vs.len() ==> (#[trigger] vs[i])@.bounded(m)
}

/// Every index refers into a list of length `n`.
pub open spec fn indices_in_range(idx: Seq<u64>, n: int) -> bool {
    forall|i: int| 0 <= i < idx.len() ==> (#[trigger] idx[i]) < n
}

/// The `k`-th triangle of the result gathers the positions and normals
/// selected by the `k`-th index triple.
pub open spec fn gathers(
    tri: Triangle,
    positions: Seq<V3d>,
    normals: Seq<V3d>,
    idx: Seq<u64>,
    k: int,
) -> bool {
    &&& tri.complete()
    &&& tri.vertices@[0] == positions[idx[3 * k] as int]
    &&& tri.vertices@[1] == positions[idx[3 * k + 1] as int]
    &&& tri.vertices@[2] == positions[idx[3 * k + 2] as int]
    &&& tri.normals@[0] == normals[idx[3 * k] as int]
    &&& tri.normals@[1] == normals[idx[3 * k + 1] as int]
    &&& tri.normals@[2] == normals[idx[3 * k + 2] as int]
}

/// Builds the triangle list of an indexed mesh: index triple `k` selects
/// the three corners of triangle `k`.  Malformed meshes are rejected
/// here, before any rasterization, with the first applicable error in
/// the order of the `MeshError` variants.
pub fn build_triangles(
    positions: &Vec<V3d>,
    normals: &Vec<V3d>,
    indices: &Vec<u64>,
) -> (r: Result<Vec<Triangle>, MeshError>)
    ensures
        r is Ok <==> {
            &&& positions@.len() == normals@.len()
            &&& indices@.len() % 3 == 0
            &&& all_bounded(positions@, MESH_LIMIT as int)
            &&& all_bounded(normals@, MESH_LIMIT as int)
            &&& indices_in_range(indices@, positions@.len() as int)
        },
        r == Result::<Vec<Triangle>, MeshError>::Err(MeshError::MismatchedAttributes)
            <==> positions@.len() != normals@.len(),
        r == Result::<Vec<Triangle>, MeshError>::Err(MeshError::IncompleteTriangle)
            <==> positions@.len() == normals@.len() && indices@.len() % 3 != 0,
        r == Result::<Vec<Triangle>, MeshError>::Err(MeshError::CoordinateOutOfRange)
            <==> {
                &&& positions@.len() == normals@.len()
                &&& indices@.len() % 3 == 0
                &&& !(all_bounded(positions@, MESH_LIMIT as int)
                    && all_bounded(normals@, MESH_LIMIT as int))
            },
        r == Result::<Vec<Triangle>, MeshError>::Err(MeshError::IndexOutOfRange)
            <==> {
                &&& positions@.len() == normals@.len()
                &&& indices@.len() % 3 == 0
                &&& all_bounded(positions@, MESH_LIMIT as int)
                &&& all_bounded(normals@, MESH_LIMIT as int)
                &&& !indices_in_range(indices@, positions@.len() as int)
            },
        r is Ok ==> {
            &&& r->Ok_0@.len() == indices@.len() / 3
            &&& forall|k: int|
                0 <= k < r->Ok_0@.len() ==> gathers(
                    #[trigger] r->Ok_0@[k],
                    positions@,
                    normals@,
                    indices@,
                    k,
                )
        },
{
    if positions.len() != normals.len() {
        return Err(MeshError::MismatchedAttributes);
    }
    if indices.len() % 3 != 0 {
        return Err(MeshError::IncompleteTriangle);
    }
    if !(vectors_bounded(positions) && vectors_bounded(normals)) {
        return Err(MeshError::CoordinateOutOfRange);
    }
    let mut i: usize = 0;
    while i < indices.len()
        invariant
            i <= indices@.len(),
            positions@.len() == normals@.len(),
            indices@.len() % 3 == 0,
            all_bounded(positions@, MESH_LIMIT as int),
            all_bounded(normals@, MESH_LIMIT as int),
            forall|j: int| 0 <= j < i ==> (#[trigger] indices@[j]) < positions@.len(),
        decreases indices@.len() - i,
    {
        if indices[i] >= positions.len() as u64 {
            return Err(MeshError::IndexOutOfRange);
        }
        i = i + 1;
    }
    let count: usize = indices.len() / 3;
    let mut tris: Vec<Triangle> = Vec::new();
    let mut k: usize = 0;
    while k < count
        invariant
            k <= count,
            count == indices@.len() / 3,
            indices@.len() <= usize::MAX,
            positions@.len() <= usize::MAX,
            indices@.len() % 3 == 0,
            positions@.len() == normals@.len(),
            indices_in_range(indices@, positions@.len() as int),
            tris@.len() == k,
            forall|j: int|
                0 <= j < k ==> gathers(#[trigger] tris@[j], positions@, normals@, indices@, j),
        decreases count - k,
    {
        proof {
            vstd::arithmetic::div_mod::lemma_fundamental_div_mod(indices@.len() as int, 3);
            assert(3 * (indices@.len() as int / 3) == indices@.len());
            assert(3 * (k as int) + 2 < indices@.len());
        }
        let i0: usize = indices[3 * k] as usize;
        let i1: usize = indices[3 * k + 1] as usize;
        let i2: usize = indices[3 * k + 2] as usize;
        let mut vertices: Vec<V3d> = Vec::new();
        vertices.push(positions[i0]);
        vertices.push(positions[i1]);
        vertices.push(positions[i2]);
        let mut tnormals: Vec<V3d> = Vec::new();
        tnormals.push(normals[i0]);
        tnormals.push(normals[i1]);
        tnormals.push(normals[i2]);
        tris.push(Triangle { vertices, normals: tnormals });
        k = k + 1;
    }
    Ok(tris)
}

/// True exactly when every coordinate of every vector in the list has
/// magnitude at most `MESH_LIMIT`.
pub fn vectors_bounded(vs: &Vec<V3d>) -> (r: bool)
    ensures
        r == all_bounded(vs@, MESH_LIMIT as int),
{
    let mut i: usize = 0;
    while i < vs.len()
        invariant
            i <= vs@.len(),
            forall|j: int| 0 <= j < i ==> (#[trigger] vs@[j])@.bounded(MESH_LIMIT as int),
        decreases vs@.len() - i,
    {
        let v = vs[i];
        if v.x < -MESH_LIMIT || v.x > MESH_LIMIT || v.y < -MESH_LIMIT || v.y > MESH_LIMIT
            || v.z < -MESH_LIMIT || v.z > MESH_LIMIT {
            return false;
        }
        i = i + 1;
    }
    true
}

} // verus!
