use vstd::prelude::*;
use crate::fixed::{
    abs, add_spec, div_spec, fadd, fdiv, fsqrt, fsub, fmul, mul_spec, sqrt_spec, sub_spec, ONE,
};
use crate::vec3::{
    cross_spec, dot_spec, normalize_spec, vadd_spec, vneg_spec, vscale_spec, vsub_spec, Vec3,
};

verus! {

/// Smallest distance along a ray that counts as a hit; keeps secondary rays
/// from finding the surface they start on.
pub const T_MIN: i64 = 64;

/// A ray whose direction meets a plane at a smaller cosine than this is parallel to it.
pub const PARALLEL_EPS: i64 = 16;

/// Two hits closer than this are a tie, won by the primitive declared first.
pub const TIE_EPS: i64 = 16;

/// A half-line `origin + t * dir` restricted to `T_MIN < t < t_max`.
#[derive(Clone, Copy, Debug, PartialEq, Eq, Structural)]
pub struct Ray {
    pub origin: Vec3,
    pub dir: Vec3,
    pub t_max: i64,
}

/// A surface of the scene, with the index of its material in the scene's table.
#[derive(Clone, Copy, Debug, PartialEq, Eq, Structural)]
pub enum Primitive {
    Sphere { center: Vec3, radius: i64, material: usize },
    Plane { point: Vec3, normal: Vec3, material: usize },
    Triangle { v0: Vec3, v1: Vec3, v2: Vec3, material: usize },
}

/// The nearest intersection of a ray with the scene.
#[derive(Clone, Copy, Debug, PartialEq, Eq, Structural)]
pub struct Hit {
    pub t: i64,
    pub point: Vec3,
    /// Unit normal, turned to face the incoming ray.
    pub normal: Vec3,
    pub material: usize,
    /// Position of the primitive in the scene's list.
    pub index: usize,
}

pub open spec fn in_span(t: int, ray: Ray) -> bool {
    T_MIN < t < ray.t_max
}

pub open spec fn sphere_t_spec(center: Vec3, radius: i64, ray: Ray) -> Option<i64> {
    let oc = vsub_spec(ray.origin, center);
    let b = dot_spec(oc, ray.dir);
    let c = sub_spec(dot_spec(oc, oc), mul_spec(radius as int, radius as int));
    let disc = sub_spec(mul_spec(b, b), c);
    if disc < 0 {
        None
    } else {
        let sq = sqrt_spec(disc);
        let t1 = sub_spec(sub_spec(0, b), sq);
        let t2 = add_spec(sub_spec(0, b), sq);
        if in_span(t1, ray) {
            Some(t1 as i64)
        } else if in_span(t2, ray) {
            Some(t2 as i64)
        } else {
            None
        }
    }
}

pub open spec fn plane_t_spec(point: Vec3, normal: Vec3, ray: Ray) -> Option<i64> {
    let denom = dot_spec(ray.dir, normal);
    if abs(denom) <= PARALLEL_EPS {
        None
    } else {
        let t = div_spec(dot_spec(vsub_spec(point, ray.origin), normal), denom);
        if in_span(t, ray) {
            Some(t as i64)
        } else {
            None
        }
    }
}

/// Moller-Trumbore: barycentric coordinates `u`, `v` of the crossing point.
pub open spec fn triangle_t_spec(v0: Vec3, v1: Vec3, v2: Vec3, ray: Ray) -> Option<i64> {
    let e1 = vsub_spec(v1, v0);
    let e2 = vsub_spec(v2, v0);
    let p = cross_spec(ray.dir, e2);
    let det = dot_spec(e1, p);
    if abs(det) <= PARALLEL_EPS {
        None
    } else {
        let s = vsub_spec(ray.origin, v0);
        let u = div_spec(dot_spec(s, p), det);
        if u < 0 || u > ONE {
            None
        } else {
            let q = cross_spec(s, e1);
            let v = div_spec(dot_spec(ray.dir, q), det);
            if v < 0 || u + v > ONE {
                None
            } else {
                let t = div_spec(dot_spec(e2, q), det);
                if in_span(t, ray) {
                    Some(t as i64)
                } else {
                    None
                }
            }
        }
    }
}

pub open spec fn prim_t_spec(p: Primitive, ray: Ray) -> Option<i64> {
    match p {
        Primitive::Sphere { center, radius, .. } => sphere_t_spec(center, radius, ray),
        Primitive::Plane { point, normal, .. } => plane_t_spec(point, normal, ray),
        Primitive::Triangle { v0, v1, v2, .. } => triangle_t_spec(v0, v1, v2, ray),
    }
}

pub open spec fn material_of(p: Primitive) -> usize {
    match p {
        Primitive::Sphere { material, .. } => material,
        Primitive::Plane { material, .. } => material,
        Primitive::Triangle { material, .. } => material,
    }
}

/// The outward normal of the primitive at a point on it.
pub open spec fn surface_normal_spec(p: Primitive, at: Vec3) -> Vec3 {
    match p {
        Primitive::Sphere { center, .. } => normalize_spec(vsub_spec(at, center)),
        Primitive::Plane { normal, .. } => normal,
        Primitive::Triangle { v0, v1, v2, .. } => normalize_spec(
            cross_spec(vsub_spec(v1, v0), vsub_spec(v2, v0)),
        ),
    }
}

/// A normal turned so that it faces against `dir`.
pub open spec fn facing_spec(n: Vec3, dir: Vec3) -> Vec3 {
    if dot_spec(n, dir) > 0 {
        vneg_spec(n)
    } else {
        n
    }
}

pub open spec fn point_at_spec(ray: Ray, t: i64) -> Vec3 {
    vadd_spec(ray.origin, vscale_spec(ray.dir, t as int))
}

pub open spec fn hit_spec(p: Primitive, ray: Ray, t: i64, index: usize) -> Hit {
    let at = point_at_spec(ray, t);
    Hit {
        t,
        point: at,
        normal: facing_spec(surface_normal_spec(p, at), ray.dir),
        material: material_of(p),
        index,
    }
}

/// The nearest hit among the first `n` primitives, as distance and index;
/// a later primitive replaces the current best only when nearer by more than `TIE_EPS`.
pub open spec fn nearest_upto(prims: Seq<Primitive>, ray: Ray, n: nat) -> Option<(i64, usize)>
    decreases n,
{
    if n == 0 {
        None
    } else {
        let prev = nearest_upto(prims, ray, (n - 1) as nat);
        match prim_t_spec(prims[n - 1], ray) {
            None => prev,
            Some(t) => match prev {
                None => Some((t, (n - 1) as usize)),
                Some(best) => if t + TIE_EPS < best.0 {
                    Some((t, (n - 1) as usize))
                } else {
                    prev
                },
            },
        }
    }
}

pub open spec fn nearest_hit_spec(prims: Seq<Primitive>, ray: Ray) -> Option<Hit> {
    match nearest_upto(prims, ray, prims.len()) {
        None => None,
        Some(best) => Some(hit_spec(prims[best.1 as int], ray, best.0, best.1)),
    }
}

/// Whether anything lies on the ray within its span.
pub open spec fn occluded_spec(prims: Seq<Primitive>, ray: Ray) -> bool {
    nearest_upto(prims, ray, prims.len()) is Some
}

fn in_span_exec(t: i64, ray: &Ray) -> (r: bool)
    ensures
        r == in_span(t as int, *ray),
{
    T_MIN < t && t < ray.t_max
}

fn abs_exec(a: i64) -> (r: i64)
    requires
        -LIMIT_ABS <= a <= LIMIT_ABS,
    ensures
        r == abs(a as int),
{
    if a >= 0 {
        a
    } else {
        -a
    }
}

const LIMIT_ABS: i64 = 1099511627776;

pub fn intersect_sphere(center: Vec3, radius: i64, ray: &Ray) -> (r: Option<i64>)
    ensures
        r == sphere_t_spec(center, radius, *ray),
{
    let oc = ray.origin.sub(center);
    let b = oc.dot(ray.dir);
    let c = fsub(oc.dot(oc), fmul(radius, radius));
    let disc = fsub(fmul(b, b), c);
    if disc < 0 {
        None
    } else {
        let sq = fsqrt(disc);
        let t1 = fsub(fsub(0, b), sq);
        let t2 = fadd(fsub(0, b), sq);
        if in_span_exec(t1, ray) {
            Some(t1)
        } else if in_span_exec(t2, ray) {
            Some(t2)
        } else {
            None
        }
    }
}

pub fn intersect_plane(point: Vec3, normal: Vec3, ray: &Ray) -> (r: Option<i64>)
    ensures
        r == plane_t_spec(point, normal, *ray),
{
    let denom = ray.dir.dot(normal);
    if abs_exec(denom) <= PARALLEL_EPS {
        None
    } else {
        let t = fdiv(point.sub(ray.origin).dot(normal), denom);
        if in_span_exec(t, ray) {
            Some(t)
        } else {
            None
        }
    }
}

pub fn intersect_triangle(v0: Vec3, v1: Vec3, v2: Vec3, ray: &Ray) -> (r: Option<i64>)
    ensures
        r == triangle_t_spec(v0, v1, v2, *ray),
{
    let e1 = v1.sub(v0);
    let e2 = v2.sub(v0);
    let p = ray.dir.cross(e2);
    let det = e1.dot(p);
    if abs_exec(det) <= PARALLEL_EPS {
        return None;
    }
    let s = ray.origin.sub(v0);
    let u = fdiv(s.dot(p), det);
    if u < 0 || u > ONE {
        return None;
    }
    let q = s.cross(e1);
    let v = fdiv(ray.dir.dot(q), det);
    if v < 0 || u + v > ONE {
        return None;
    }
    let t = fdiv(e2.dot(q), det);
    if in_span_exec(t, ray) {
        Some(t)
    } else {
        None
    }
}

impl Primitive {
    /// Distance along the ray to this primitive, if the ray meets it within its span.
    pub fn intersect(&self, ray: &Ray) -> (r: Option<i64>)
        ensures
            r == prim_t_spec(*self, *ray),
    {
        match *self {
            Primitive::Sphere { center, radius, .. } => intersect_sphere(center, radius, ray),
            Primitive::Plane { point, normal, .. } => intersect_plane(point, normal, ray),
            Primitive::Triangle { v0, v1, v2, .. } => intersect_triangle(v0, v1, v2, ray),
        }
    }

    pub fn material(&self) -> (r: usize)
        ensures
            r == material_of(*self),
    {
        match *self {
            Primitive::Sphere { material, .. } => material,
            Primitive::Plane { material, .. } => material,
            Primitive::Triangle { material, .. } => material,
        }
    }

    pub fn surface_normal(&self, at: Vec3) -> (r: Vec3)
        ensures
            r == surface_normal_spec(*self, at),
    {
        match *self {
            Primitive::Sphere { center, .. } => at.sub(center).normalize(),
            Primitive::Plane { normal, .. } => normal,
            Primitive::Triangle { v0, v1, v2, .. } => v1.sub(v0).cross(v2.sub(v0)).normalize(),
        }
    }
}

fn make_hit(p: &Primitive, ray: &Ray, t: i64, index: usize) -> (r: Hit)
    ensures
        r == hit_spec(*p, *ray, t, index),
{
    let at = ray.origin.add(ray.dir.scale(t));
    let n = p.surface_normal(at);
    let normal = if n.dot(ray.dir) > 0 {
        n.neg()
    } else {
        n
    };
    Hit { t, point: at, normal, material: p.material(), index }
}

/// Distance and index of the nearest primitive on the ray.
fn nearest_index(prims: &Vec<Primitive>, ray: &Ray) -> (r: Option<(i64, usize)>)
    ensures
        r == nearest_upto(prims@, *ray, prims@.len()),
        match r {
            Some(best) => best.1 < prims@.len(),
            None => true,
        },
{
    let mut best: Option<(i64, usize)> = None;
    let mut i: usize = 0;
    while i < prims.len()
        invariant
            i <= prims@.len(),
            best == nearest_upto(prims@, *ray, i as nat),
            match best {
                Some(b) => b.1 < i,
                None => true,
            },
        decreases prims@.len() - i,
    {
        match prims[i].intersect(ray) {
            None => {},
            Some(t) => {
                match best {
                    None => {
                        best = Some((t, i));
                    },
                    Some(b) => {
                        if t + TIE_EPS < b.0 {
                            best = Some((t, i));
                        }
                    },
                }
            },
        }
        i += 1;
    }
    best
}

/// The nearest hit of the ray among the primitives, or `None` on a miss.
pub fn nearest_hit(prims: &Vec<Primitive>, ray: &Ray) -> (r: Option<Hit>)
    ensures
        r == nearest_hit_spec(prims@, *ray),
        match r {
            Some(h) => h.index < prims@.len() && h.material == material_of(prims@[h.index as int]),
            None => true,
        },
{
    match nearest_index(prims, ray) {
        None => None,
        Some(best) => Some(make_hit(&prims[best.1], ray, best.0, best.1)),
    }
}

/// Whether any primitive lies on the ray within its span.
pub fn occluded(prims: &Vec<Primitive>, ray: &Ray) -> (r: bool)
    ensures
        r == occluded_spec(prims@, *ray),
{
    nearest_index(prims, ray).is_some()
}

} // verus!
