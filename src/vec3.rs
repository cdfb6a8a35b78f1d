use vstd::prelude::*;
use crate::fixed::{
    add_spec, div_spec, fadd, fdiv, fmul, fsqrt, fsub, mul_spec, sqrt_spec, sub_spec,
};

verus! {

/// A point, direction or colour with fixed-point components.
#[derive(Clone, Copy, Debug, PartialEq, Eq, Structural)]
pub struct Vec3 {
    pub x: i64,
    pub y: i64,
    pub z: i64,
}

pub open spec fn v3(x: int, y: int, z: int) -> Vec3 {
    Vec3 { x: x as i64, y: y as i64, z: z as i64 }
}

pub open spec fn vadd_spec(a: Vec3, b: Vec3) -> Vec3 {
    v3(add_spec(a.x as int, b.x as int), add_spec(a.y as int, b.y as int), add_spec(a.z as int, b.z as int))
}

pub open spec fn vsub_spec(a: Vec3, b: Vec3) -> Vec3 {
    v3(sub_spec(a.x as int, b.x as int), sub_spec(a.y as int, b.y as int), sub_spec(a.z as int, b.z as int))
}

pub open spec fn vneg_spec(a: Vec3) -> Vec3 {
    v3(sub_spec(0, a.x as int), sub_spec(0, a.y as int), sub_spec(0, a.z as int))
}

pub open spec fn vscale_spec(a: Vec3, s: int) -> Vec3 {
    v3(mul_spec(a.x as int, s), mul_spec(a.y as int, s), mul_spec(a.z as int, s))
}

/// Component-wise product, used to filter a colour by another.
pub open spec fn vmul_spec(a: Vec3, b: Vec3) -> Vec3 {
    v3(mul_spec(a.x as int, b.x as int), mul_spec(a.y as int, b.y as int), mul_spec(a.z as int, b.z as int))
}

pub open spec fn dot_spec(a: Vec3, b: Vec3) -> int {
    add_spec(
        add_spec(mul_spec(a.x as int, b.x as int), mul_spec(a.y as int, b.y as int)),
        mul_spec(a.z as int, b.z as int),
    )
}

pub open spec fn cross_spec(a: Vec3, b: Vec3) -> Vec3 {
    v3(
        sub_spec(mul_spec(a.y as int, b.z as int), mul_spec(a.z as int, b.y as int)),
        sub_spec(mul_spec(a.z as int, b.x as int), mul_spec(a.x as int, b.z as int)),
        sub_spec(mul_spec(a.x as int, b.y as int), mul_spec(a.y as int, b.x as int)),
    )
}

pub open spec fn length_spec(a: Vec3) -> int {
    sqrt_spec(dot_spec(a, a))
}

/// The vector scaled to unit length; a zero vector stays as it is.
pub open spec fn normalize_spec(a: Vec3) -> Vec3 {
    let len = length_spec(a);
    if len == 0 {
        a
    } else {
        v3(div_spec(a.x as int, len), div_spec(a.y as int, len), div_spec(a.z as int, len))
    }
}

impl Vec3 {
    pub fn new(x: i64, y: i64, z: i64) -> (r: Vec3)
        ensures
            r == (Vec3 { x, y, z }),
    {
        Vec3 { x, y, z }
    }

    pub fn add(self, b: Vec3) -> (r: Vec3)
        ensures
            r == vadd_spec(self, b),
    {
        Vec3 { x: fadd(self.x, b.x), y: fadd(self.y, b.y), z: fadd(self.z, b.z) }
    }

    pub fn sub(self, b: Vec3) -> (r: Vec3)
        ensures
            r == vsub_spec(self, b),
    {
        Vec3 { x: fsub(self.x, b.x), y: fsub(self.y, b.y), z: fsub(self.z, b.z) }
    }

    pub fn neg(self) -> (r: Vec3)
        ensures
            r == vneg_spec(self),
    {
        Vec3 { x: fsub(0, self.x), y: fsub(0, self.y), z: fsub(0, self.z) }
    }

    pub fn scale(self, s: i64) -> (r: Vec3)
        ensures
            r == vscale_spec(self, s as int),
    {
        Vec3 { x: fmul(self.x, s), y: fmul(self.y, s), z: fmul(self.z, s) }
    }

    pub fn mul(self, b: Vec3) -> (r: Vec3)
        ensures
            r == vmul_spec(self, b),
    {
        Vec3 { x: fmul(self.x, b.x), y: fmul(self.y, b.y), z: fmul(self.z, b.z) }
    }

    pub fn dot(self, b: Vec3) -> (r: i64)
        ensures
            r == dot_spec(self, b),
    {
        fadd(fadd(fmul(self.x, b.x), fmul(self.y, b.y)), fmul(self.z, b.z))
    }

    pub fn cross(self, b: Vec3) -> (r: Vec3)
        ensures
            r == cross_spec(self, b),
    {
        Vec3 {
            x: fsub(fmul(self.y, b.z), fmul(self.z, b.y)),
            y: fsub(fmul(self.z, b.x), fmul(self.x, b.z)),
            z: fsub(fmul(self.x, b.y), fmul(self.y, b.x)),
        }
    }

    pub fn length(self) -> (r: i64)
        ensures
            r == length_spec(self),
            r >= 0,
    {
        fsqrt(self.dot(self))
    }

    pub fn normalize(self) -> (r: Vec3)
        ensures
            r == normalize_spec(self),
    {
        let len = self.length();
        if len == 0 {
            self
        } else {
            Vec3 { x: fdiv(self.x, len), y: fdiv(self.y, len), z: fdiv(self.z, len) }
        }
    }
}

} // verus!
