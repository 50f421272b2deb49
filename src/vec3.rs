//! Three-component vectors of fixed-point scalars, used for points, directions
//! and RGB colours alike.
use vstd::prelude::*;
use crate::fixed;
use crate::fixed::{add_spec, div_spec, mul_spec, neg_spec, sqrt_spec, sub_spec};

verus! {

#[derive(Clone, Copy, Debug, PartialEq, Eq, Structural)]
pub struct Vec3 {
    pub x: i64,
    pub y: i64,
    pub z: i64,
}

pub open spec fn vadd(a: Vec3, b: Vec3) -> Vec3 {
    Vec3 { x: add_spec(a.x, b.x), y: add_spec(a.y, b.y), z: add_spec(a.z, b.z) }
}

pub open spec fn vsub(a: Vec3, b: Vec3) -> Vec3 {
    Vec3 { x: sub_spec(a.x, b.x), y: sub_spec(a.y, b.y), z: sub_spec(a.z, b.z) }
}

pub open spec fn vneg(a: Vec3) -> Vec3 {
    Vec3 { x: neg_spec(a.x), y: neg_spec(a.y), z: neg_spec(a.z) }
}

pub open spec fn vscale(s: i64, a: Vec3) -> Vec3 {
    Vec3 { x: mul_spec(s, a.x), y: mul_spec(s, a.y), z: mul_spec(s, a.z) }
}

/// Component-wise product.
pub open spec fn vmul(a: Vec3, b: Vec3) -> Vec3 {
    Vec3 { x: mul_spec(a.x, b.x), y: mul_spec(a.y, b.y), z: mul_spec(a.z, b.z) }
}

/// Each component divided by the scalar `s`.
pub open spec fn vdiv(a: Vec3, s: i64) -> Vec3 {
    Vec3 { x: div_spec(a.x, s), y: div_spec(a.y, s), z: div_spec(a.z, s) }
}

pub open spec fn vdot(a: Vec3, b: Vec3) -> i64 {
    add_spec(add_spec(mul_spec(a.x, b.x), mul_spec(a.y, b.y)), mul_spec(a.z, b.z))
}

pub open spec fn vcross(a: Vec3, b: Vec3) -> Vec3 {
    Vec3 {
        x: sub_spec(mul_spec(a.y, b.z), mul_spec(a.z, b.y)),
        y: sub_spec(mul_spec(a.z, b.x), mul_spec(a.x, b.z)),
        z: sub_spec(mul_spec(a.x, b.y), mul_spec(a.y, b.x)),
    }
}

pub open spec fn vlength(a: Vec3) -> i64 {
    sqrt_spec(vdot(a, a))
}

/// The vector scaled to unit length; a vector of length zero is kept as it is.
pub open spec fn vnormalize(a: Vec3) -> Vec3 {
    if vlength(a) == 0 {
        a
    } else {
        vdiv(a, vlength(a))
    }
}

impl Vec3 {
    pub fn new(x: i64, y: i64, z: i64) -> (r: Vec3)
        ensures
            r == (Vec3 { x, y, z }),
    {
        Vec3 { x, y, z }
    }

    pub fn add(&self, b: &Vec3) -> (r: Vec3)
        ensures
            r == vadd(*self, *b),
    {
        Vec3 { x: fixed::add(self.x, b.x), y: fixed::add(self.y, b.y), z: fixed::add(self.z, b.z) }
    }

    pub fn sub(&self, b: &Vec3) -> (r: Vec3)
        ensures
            r == vsub(*self, *b),
    {
        Vec3 { x: fixed::sub(self.x, b.x), y: fixed::sub(self.y, b.y), z: fixed::sub(self.z, b.z) }
    }

    pub fn neg(&self) -> (r: Vec3)
        ensures
            r == vneg(*self),
    {
        Vec3 { x: fixed::neg(self.x), y: fixed::neg(self.y), z: fixed::neg(self.z) }
    }

    pub fn scale(&self, s: i64) -> (r: Vec3)
        ensures
            r == vscale(s, *self),
    {
        Vec3 { x: fixed::mul(s, self.x), y: fixed::mul(s, self.y), z: fixed::mul(s, self.z) }
    }

    pub fn mul_elem(&self, b: &Vec3) -> (r: Vec3)
        ensures
            r == vmul(*self, *b),
    {
        Vec3 { x: fixed::mul(self.x, b.x), y: fixed::mul(self.y, b.y), z: fixed::mul(self.z, b.z) }
    }

    pub fn div_scalar(&self, s: i64) -> (r: Vec3)
        ensures
            r == vdiv(*self, s),
    {
        Vec3 { x: fixed::div(self.x, s), y: fixed::div(self.y, s), z: fixed::div(self.z, s) }
    }

    pub fn dot(&self, b: &Vec3) -> (r: i64)
        ensures
            r == vdot(*self, *b),
    {
        fixed::add(fixed::add(fixed::mul(self.x, b.x), fixed::mul(self.y, b.y)), fixed::mul(self.z, b.z))
    }

    pub fn cross(&self, b: &Vec3) -> (r: Vec3)
        ensures
            r == vcross(*self, *b),
    {
        Vec3 {
            x: fixed::sub(fixed::mul(self.y, b.z), fixed::mul(self.z, b.y)),
            y: fixed::sub(fixed::mul(self.z, b.x), fixed::mul(self.x, b.z)),
            z: fixed::sub(fixed::mul(self.x, b.y), fixed::mul(self.y, b.x)),
        }
    }

    pub fn length(&self) -> (r: i64)
        ensures
            r == vlength(*self),
    {
        fixed::sqrt(self.dot(self))
    }

    pub fn normalize(&self) -> (r: Vec3)
        ensures
            r == vnormalize(*self),
    {
        let l = self.length();
        if l == 0 {
            *self
        } else {
            self.div_scalar(l)
        }
    }
}

} // verus!
