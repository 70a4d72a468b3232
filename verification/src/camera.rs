//! The raster target and the fixed screen-to-world mapping: a raster
//! cell address becomes a world-space sample point through zoom, offset
//! and character-aspect correction.

use vstd::prelude::*;
use crate::math::SCALE;
use crate::math::COORD_LIMIT;
use crate::math::tdiv;
use crate::math::lemma_mul_bound;
use crate::math::lemma_tdiv_bound;
use crate::math::tdiv_i128;

verus! {

/// Largest raster dimension accepted, in cells.
pub const MAX_DIM: usize = 4096;

/// Magnitude cap on the camera's shift fields (2^40 raw units).
pub const MAX_SHIFT: i64 = 1099511627776;

/// Cap on the camera's zoom and aspect factors (2^40, in `SCALE` units).
pub const MAX_FACTOR: i64 = 1099511627776;

/// Output raster dimensions in cells: `ydim` rows of `xdim` cells.
#[derive(Clone, Copy, Debug, PartialEq, Eq, Structural)]
pub struct Display {
    pub xdim: usize,
    pub ydim: usize,
}

impl Display {
    /// Both dimensions positive and small enough to iterate safely.
    pub open spec fn wf(&self) -> bool {
        0 < self.xdim <= MAX_DIM && 0 < self.ydim <= MAX_DIM
    }
}

impl Default for Display {
    /// The stock terminal raster: 180 cells by 70 rows.
    fn default() -> (r: Display)
        ensures
            r.xdim == 180usize && r.ydim == 70usize,
            r.wf(),
    {
        Display { xdim: 180, ydim: 70 }
    }
}

/// The fixed mapping from raster cell addresses to world sample points.
/// `shift_x` and `shift_y` are raw world units; `zoom` and
/// `aspectratio` are factors in `SCALE` units (so `SCALE` itself is a
/// factor of one).
#[derive(Clone, Copy, Debug, PartialEq, Eq, Structural)]
pub struct Camera {
    pub shift_x: i64,
    pub shift_y: i64,
    pub zoom: i64,
    pub aspectratio: i64,
}

impl Default for Camera {
    /// The stock camera: shift (-39, -80) world units, zoom 1.8 (rounded
    /// down to fixed point), square aspect.
    fn default() -> (r: Camera)
        ensures
            r.shift_x == -39 * SCALE,
            r.shift_y == -80 * SCALE,
            r.zoom == 1843i64,
            r.aspectratio == SCALE,
    {
        Camera { shift_x: -39 * SCALE, shift_y: -80 * SCALE, zoom: 1843, aspectratio: SCALE }
    }
}

/// World x coordinate sampled by raster row `r`:
/// `(r + shift_x / SCALE) * zoom * aspectratio` world units, as one
/// truncating fixed-point division.
pub open spec fn world_x(cam: Camera, r: int) -> int {
    tdiv((r * SCALE + cam.shift_x) * cam.zoom * cam.aspectratio, SCALE as int * SCALE as int)
}

/// World y coordinate sampled by raster column `c`:
/// `(c + shift_y / SCALE) * zoom` world units.
pub open spec fn world_y(cam: Camera, c: int) -> int {
    tdiv((c * SCALE + cam.shift_y) * cam.zoom, SCALE as int)
}

/// Magnitude of an integer.
pub open spec fn iabs(a: int) -> int {
    if a < 0 {
        -a
    } else {
        a
    }
}

/// The camera maps every cell of the display into the rasterizer's
/// coordinate range: non-negative factors within the machine caps, and
/// the extreme sample coordinates stay within `COORD_LIMIT`.
pub open spec fn maps_into_range(cam: Camera, disp: Display) -> bool {
    &&& 0 <= cam.zoom <= MAX_FACTOR
    &&& 0 <= cam.aspectratio <= MAX_FACTOR
    &&& -MAX_SHIFT <= cam.shift_x <= MAX_SHIFT
    &&& -MAX_SHIFT <= cam.shift_y <= MAX_SHIFT
    &&& (disp.ydim * SCALE + iabs(cam.shift_x as int)) * cam.zoom * cam.aspectratio <= (
    COORD_LIMIT as int) * SCALE * SCALE
    &&& (disp.xdim * SCALE + iabs(cam.shift_y as int)) * cam.zoom <= (COORD_LIMIT as int) * SCALE
}

/// Runtime check of `maps_into_range` together with `Display::wf`, so a
/// caller outside the library can validate a configuration before
/// rendering with it.
pub fn camera_fits(cam: &Camera, disp: &Display) -> (r: bool)
    ensures
        r == (disp.wf() && maps_into_range(*cam, *disp)),
{
    if !(0 < disp.xdim && disp.xdim <= MAX_DIM && 0 < disp.ydim && disp.ydim <= MAX_DIM) {
        return false;
    }
    if !(0 <= cam.zoom && cam.zoom <= MAX_FACTOR && 0 <= cam.aspectratio && cam.aspectratio
        <= MAX_FACTOR) {
        return false;
    }
    if !(-MAX_SHIFT <= cam.shift_x && cam.shift_x <= MAX_SHIFT && -MAX_SHIFT <= cam.shift_y
        && cam.shift_y <= MAX_SHIFT) {
        return false;
    }
    let sx_abs: i128 = if cam.shift_x < 0 {
        -(cam.shift_x as i128)
    } else {
        cam.shift_x as i128
    };
    let sy_abs: i128 = if cam.shift_y < 0 {
        -(cam.shift_y as i128)
    } else {
        cam.shift_y as i128
    };
    let reach_x: i128 = (disp.ydim as i128) * (SCALE as i128) + sx_abs;
    let reach_y: i128 = (disp.xdim as i128) * (SCALE as i128) + sy_abs;
    proof {
        lemma_mul_bound(reach_x as int, cam.zoom as int, 1099511627776int + 4194304int, MAX_FACTOR as int);
        lemma_mul_bound(
            reach_x as int * cam.zoom as int,
            cam.aspectratio as int,
            (1099511627776int + 4194304int) * (MAX_FACTOR as int),
            MAX_FACTOR as int,
        );
        lemma_mul_bound(reach_y as int, cam.zoom as int, 1099511627776int + 4194304int, MAX_FACTOR as int);
    }
    let lhs_x: i128 = reach_x * (cam.zoom as i128) * (cam.aspectratio as i128);
    let lhs_y: i128 = reach_y * (cam.zoom as i128);
    let rhs_x: i128 = (COORD_LIMIT as i128) * (SCALE as i128) * (SCALE as i128);
    let rhs_y: i128 = (COORD_LIMIT as i128) * (SCALE as i128);
    lhs_x <= rhs_x && lhs_y <= rhs_y
}

/// The world sample point of raster cell (row `r`, column `c`), with
/// both coordinates inside the rasterizer's range.
pub fn world_point(r: usize, c: usize, cam: &Camera, disp: &Display) -> (p: (i64, i64))
    requires
        disp.wf(),
        maps_into_range(*cam, *disp),
        r < disp.ydim,
        c < disp.xdim,
    ensures
        p.0 == world_x(*cam, r as int),
        p.1 == world_y(*cam, c as int),
        -(COORD_LIMIT as int) <= p.0 <= COORD_LIMIT as int,
        -(COORD_LIMIT as int) <= p.1 <= COORD_LIMIT as int,
{
    let bx: i128 = (r as i128) * (SCALE as i128) + (cam.shift_x as i128);
    let by: i128 = (c as i128) * (SCALE as i128) + (cam.shift_y as i128);
    proof {
        let reach_x = disp.ydim * SCALE + iabs(cam.shift_x as int);
        let reach_y = disp.xdim * SCALE + iabs(cam.shift_y as int);
        assert(-reach_x <= bx as int <= reach_x);
        assert(-reach_y <= by as int <= reach_y);
        lemma_mul_bound(bx as int, cam.zoom as int, 1099511627776int + 4194304int, MAX_FACTOR as int);
        lemma_mul_bound(
            bx as int * cam.zoom as int,
            cam.aspectratio as int,
            (1099511627776int + 4194304int) * (MAX_FACTOR as int),
            MAX_FACTOR as int,
        );
        lemma_mul_bound(by as int, cam.zoom as int, 1099511627776int + 4194304int, MAX_FACTOR as int);
        lemma_mul_bound(bx as int, cam.zoom as int, reach_x, cam.zoom as int);
        lemma_mul_bound(bx as int * cam.zoom as int, cam.aspectratio as int, reach_x * cam.zoom,
            cam.aspectratio as int);
        assert((reach_x * cam.zoom) * cam.aspectratio == reach_x * cam.zoom * cam.aspectratio)
            by (nonlinear_arith);
        lemma_mul_bound(by as int, cam.zoom as int, reach_y, cam.zoom as int);
        lemma_tdiv_bound(
            bx as int * cam.zoom as int * cam.aspectratio as int,
            SCALE as int * SCALE as int,
            COORD_LIMIT as int,
        );
        lemma_tdiv_bound(by as int * cam.zoom as int, SCALE as int, COORD_LIMIT as int);
    }
    let tx: i128 = bx * (cam.zoom as i128) * (cam.aspectratio as i128);
    let ty: i128 = by * (cam.zoom as i128);
    let wx: i128 = tdiv_i128(tx, (SCALE as i128) * (SCALE as i128));
    let wy: i128 = tdiv_i128(ty, SCALE as i128);
    (wx as i64, wy as i64)
}

} // verus!
