//! The render pass: rotate the triangle list, sample every raster cell,
//! and merge every triangle's interpolation by depth into one frame
//! buffer.

use vstd::prelude::*;
use crate::math::SCALE;
use crate::math::COORD_LIMIT;
use crate::math::MESH_LIMIT;
use crate::triangle::Triangle;
use crate::triangle::TriM;
use crate::raster::Depthpixel;
use crate::raster::PixM;
use crate::raster::background;
use crate::raster::interpolate;
use crate::raster::merge;
use crate::raster::tri_interpolate;
use crate::raster::lemma_interpolate_wf;
use crate::camera::Camera;
use crate::camera::Display;
use crate::camera::maps_into_range;
use crate::camera::world_x;
use crate::camera::world_y;
use crate::camera::world_point;
use crate::vec3::lemma_rotation_identity;

verus! {

/// Every triangle of the sequence has three vertices and normals and
/// rests within `MESH_LIMIT`, so a rotated copy can be rasterized.
pub open spec fn renderable(tris: Seq<Triangle>) -> bool {
    forall|i: int|
        0 <= i < tris.len() ==> (#[trigger] tris[i]).complete() && tris[i]@.bounded(
            MESH_LIMIT as int,
        )
}

/// The value of one frame-buffer cell at world sample point (x, y):
/// the depth merge, in list order, of every triangle's interpolation
/// after rotation by the (c, s) pair, starting from the background.
pub open spec fn cell_render(tris: Seq<Triangle>, c: int, s: int, x: int, y: int) -> PixM
    decreases tris.len(),
{
    if tris.len() == 0 {
        background()
    } else {
        merge(
            cell_render(tris.drop_last(), c, s, x, y),
            interpolate(tris.last()@.rotated_x(c, s), x, y),
        )
    }
}

/// The whole frame relation: row `i`, column `j` of the buffer holds the
/// merged cell of the world point that cell (i, j) samples.
pub open spec fn frame_rendered(
    buf: Seq<Vec<Depthpixel>>,
    tris: Seq<Triangle>,
    c: int,
    s: int,
    cam: Camera,
    disp: Display,
) -> bool {
    &&& buf.len() == disp.ydim
    &&& forall|i: int| 0 <= i < buf.len() ==> (#[trigger] buf[i])@.len() == disp.xdim
    &&& forall|i: int, j: int|
        0 <= i < buf.len() && 0 <= j < buf[i]@.len() ==> (#[trigger] buf[i]@[j])@ == cell_render(
            tris,
            c,
            s,
            world_x(cam, i),
            world_y(cam, j),
        )
}

/// Renders one frame: every triangle is rotated about the x axis by the
/// (c, s) cosine/sine pair, then every raster cell receives the
/// depth-merged interpolation of all triangles at its world sample
/// point, over a fresh background buffer.
pub fn render_frame(
    tris: &Vec<Triangle>,
    c: i64,
    s: i64,
    display: &Display,
    camera: &Camera,
) -> (buf: Vec<Vec<Depthpixel>>)
    requires
        renderable(tris@),
        -(SCALE as int) <= c <= SCALE as int,
        -(SCALE as int) <= s <= SCALE as int,
        display.wf(),
        maps_into_range(*camera, *display),
    ensures
        frame_rendered(buf@, tris@, c as int, s as int, *camera, *display),
        forall|i: int, j: int|
            0 <= i < buf@.len() && 0 <= j < buf@[i]@.len() ==> (#[trigger] buf@[i]@[j])@.wf(),
{
    let mut rotated: Vec<Triangle> = Vec::new();
    let mut t: usize = 0;
    while t < tris.len()
        invariant
            t <= tris@.len(),
            renderable(tris@),
            -(SCALE as int) <= c <= SCALE as int,
            -(SCALE as int) <= s <= SCALE as int,
            rotated@.len() == t,
            forall|i: int|
                0 <= i < t ==> (#[trigger] rotated@[i]).complete() && rotated@[i]@ == tris@[i]@
                    .rotated_x(c as int, s as int) && rotated@[i]@.bounded(COORD_LIMIT as int),
        decreases tris@.len() - t,
    {
        rotated.push(tris[t].rotate_x(c, s));
        t = t + 1;
    }
    let mut buf: Vec<Vec<Depthpixel>> = Vec::new();
    let mut i: usize = 0;
    while i < display.ydim
        invariant
            i <= display.ydim,
            renderable(tris@),
            -(SCALE as int) <= c <= SCALE as int,
            -(SCALE as int) <= s <= SCALE as int,
            display.wf(),
            maps_into_range(*camera, *display),
            rotated@.len() == tris@.len(),
            forall|k: int|
                0 <= k < tris@.len() ==> (#[trigger] rotated@[k]).complete() && rotated@[k]@
                    == tris@[k]@.rotated_x(c as int, s as int) && rotated@[k]@.bounded(
                    COORD_LIMIT as int,
                ),
            buf@.len() == i,
            forall|a: int| 0 <= a < i ==> (#[trigger] buf@[a])@.len() == display.xdim,
            forall|a: int, b: int|
                0 <= a < i && 0 <= b < buf@[a]@.len() ==> (#[trigger] buf@[a]@[b])@ == cell_render(
                    tris@,
                    c as int,
                    s as int,
                    world_x(*camera, a),
                    world_y(*camera, b),
                ) && buf@[a]@[b]@.wf(),
        decreases display.ydim - i,
    {
        let mut row: Vec<Depthpixel> = Vec::new();
        let mut j: usize = 0;
        while j < display.xdim
            invariant
                j <= display.xdim,
                i < display.ydim,
                renderable(tris@),
                -(SCALE as int) <= c <= SCALE as int,
                -(SCALE as int) <= s <= SCALE as int,
                display.wf(),
                maps_into_range(*camera, *display),
                rotated@.len() == tris@.len(),
                forall|k: int|
                    0 <= k < tris@.len() ==> (#[trigger] rotated@[k]).complete() && rotated@[k]@
                        == tris@[k]@.rotated_x(c as int, s as int) && rotated@[k]@.bounded(
                        COORD_LIMIT as int,
                    ),
                row@.len() == j,
                forall|b: int|
                    0 <= b < j ==> (#[trigger] row@[b])@ == cell_render(
                        tris@,
                        c as int,
                        s as int,
                        world_x(*camera, i as int),
                        world_y(*camera, b),
                    ) && row@[b]@.wf(),
            decreases display.xdim - j,
        {
            let p = world_point(i, j, camera, display);
            let mut cur: Depthpixel = Depthpixel::background();
            let mut k: usize = 0;
            proof {
                assert(tris@.take(0) =~= Seq::<Triangle>::empty());
            }
            while k < tris.len()
                invariant
                    k <= tris@.len(),
                    renderable(tris@),
                    -(SCALE as int) <= c <= SCALE as int,
                    -(SCALE as int) <= s <= SCALE as int,
                    rotated@.len() == tris@.len(),
                    forall|m: int|
                        0 <= m < tris@.len() ==> (#[trigger] rotated@[m]).complete() && rotated@[m]@
                            == tris@[m]@.rotated_x(c as int, s as int) && rotated@[m]@.bounded(
                            COORD_LIMIT as int,
                        ),
                    -(COORD_LIMIT as int) <= p.0 <= COORD_LIMIT as int,
                    -(COORD_LIMIT as int) <= p.1 <= COORD_LIMIT as int,
                    cur@ == cell_render(tris@.take(k as int), c as int, s as int, p.0 as int, p.1 as int),
                    cur@.wf(),
                decreases tris@.len() - k,
            {
                let cand = tri_interpolate(&rotated[k], p).unwrap();
                cur = cur.merge(cand);
                proof {
                    assert(tris@.take(k as int + 1).drop_last() =~= tris@.take(k as int));
                    assert(tris@.take(k as int + 1).last() == tris@[k as int]);
                }
                k = k + 1;
            }
            proof {
                assert(tris@.take(tris@.len() as int) =~= tris@);
            }
            row.push(cur);
            j = j + 1;
        }
        buf.push(row);
        i = i + 1;
    }
    buf
}

/// Rendering is deterministic: two buffers that both stand in the frame
/// relation for the same triangle list, rotation pair, camera and
/// display agree cell for cell, so re-rasterizing the same scene into a
/// fresh buffer reproduces the first buffer exactly.
pub proof fn lemma_render_deterministic(
    b1: Seq<Vec<Depthpixel>>,
    b2: Seq<Vec<Depthpixel>>,
    tris: Seq<Triangle>,
    c: int,
    s: int,
    cam: Camera,
    disp: Display,
)
    requires
        frame_rendered(b1, tris, c, s, cam, disp),
        frame_rendered(b2, tris, c, s, cam, disp),
    ensures
        b1.len() == b2.len(),
        forall|i: int| 0 <= i < b1.len() ==> (#[trigger] b1[i])@.len() == b2[i]@.len(),
        forall|i: int, j: int|
            0 <= i < b1.len() && 0 <= j < b1[i]@.len() ==> (#[trigger] b1[i]@[j]) == b2[i]@[j],
{
    assert forall|i: int, j: int|
        0 <= i < b1.len() && 0 <= j < b1[i]@.len() implies (#[trigger] b1[i]@[j]) == b2[i]@[j] by {
        let p1 = b1[i]@[j];
        let p2 = b2[i]@[j];
        assert(p1@ == p2@);
        assert(p1.z_num == p2.z_num && p1.v0_num == p2.v0_num && p1.v1_num == p2.v1_num
            && p1.v2_num == p2.v2_num && p1.den == p2.den);
    }
}

/// A whole turn changes nothing: rotating a triangle by the fixed-point
/// cosine/sine pair of a full turn, (SCALE, 0), is the identity, so a
/// frame rendered after a whole number of turns equals the unrotated
/// frame.
pub proof fn lemma_full_turn_is_identity(t: TriM)
    ensures
        t.rotated_x(SCALE as int, 0) == t,
{
    lemma_rotation_identity(t.v0);
    lemma_rotation_identity(t.v1);
    lemma_rotation_identity(t.v2);
    lemma_rotation_identity(t.n0);
    lemma_rotation_identity(t.n1);
    lemma_rotation_identity(t.n2);
}

} // verus!
