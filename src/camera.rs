use vstd::prelude::*;
use crate::fixed::{clamp, div_trunc, saturate, wide_div, LIMIT, ONE};
use crate::geometry::Ray;
use crate::vec3::{normalize_spec, v3, Vec3};

verus! {

/// Camera-space coordinate of a jittered pixel position along one axis, on
/// the scale where the image's half height is `ONE`: with a vertical field of
/// view of 90 degrees this is the tangent of the angle off the view axis.
pub open spec fn screen_coord(p: int, jitter: int, extent: int, height: int) -> int {
    clamp(div_trunc(2 * (p * ONE + jitter) - extent * ONE, height))
}

/// The primary ray through pixel `(px, py)` of a `width` by `height` image,
/// offset inside the pixel by `(jx, jy)` in `ONE`ths. The camera sits at the
/// origin, looks down `-z` with `+y` up; row 0 is the top of the image.
pub open spec fn generate_ray_spec(
    px: usize,
    py: usize,
    width: usize,
    height: usize,
    jx: i64,
    jy: i64,
) -> Ray {
    let sx = screen_coord(px as int, jx as int, width as int, height as int);
    let sy = -screen_coord(py as int, jy as int, height as int, height as int);
    Ray {
        origin: v3(0, 0, 0),
        dir: normalize_spec(v3(sx, sy, -ONE)),
        t_max: LIMIT,
    }
}

fn screen_coord_exec(p: usize, jitter: i64, extent: usize, height: usize) -> (r: i64)
    requires
        height > 0,
        0 <= jitter < ONE,
    ensures
        r == screen_coord(p as int, jitter as int, extent as int, height as int),
{
    let num: i128 = 2 * (p as i128 * ONE as i128 + jitter as i128) - extent as i128 * ONE as i128;
    saturate(wide_div(num, height as i128))
}

/// Maps a pixel and a sub-pixel jitter in `[0, ONE)` to a world-space ray.
pub fn generate_ray(px: usize, py: usize, width: usize, height: usize, jx: i64, jy: i64) -> (r: Ray)
    requires
        height > 0,
        0 <= jx < ONE,
        0 <= jy < ONE,
    ensures
        r == generate_ray_spec(px, py, width, height, jx, jy),
{
    let sx = screen_coord_exec(px, jx, width, height);
    let sy = -screen_coord_exec(py, jy, height, height);
    Ray { origin: Vec3::new(0, 0, 0), dir: Vec3::new(sx, sy, -ONE).normalize(), t_max: LIMIT }
}

} // verus!
