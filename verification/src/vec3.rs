//! 3D fixed-point vectors, used for points, directions and RGB colors.
//!
//! Each operation's `ensures` equates the result with a spec-level mirror,
//! so a whole vector expression is pinned down exactly.

use vstd::prelude::*;

use crate::fixed::Fx;
use crate::fixed::fx_add_v;
use crate::fixed::fx_div_v;
use crate::fixed::fx_mul_v;
use crate::fixed::fx_neg_v;
use crate::fixed::fx_sqrt_v;
use crate::fixed::fx_sub_v;

verus! {

#[derive(Clone, Copy, Debug, PartialEq, Eq, Structural)]
pub struct Vec3 {
    pub x: Fx,
    pub y: Fx,
    pub z: Fx,
}

/// The `Fx` with the given (in-range) underlying value.
pub open spec fn fx_of(v: int) -> Fx {
    Fx { raw: v as i64 }
}

pub open spec fn v3(x: int, y: int, z: int) -> Vec3 {
    Vec3 { x: fx_of(x), y: fx_of(y), z: fx_of(z) }
}

pub open spec fn v3_neg(u: Vec3) -> Vec3 {
    v3(fx_neg_v(u.x@), fx_neg_v(u.y@), fx_neg_v(u.z@))
}

pub open spec fn v3_add(u: Vec3, v: Vec3) -> Vec3 {
    v3(fx_add_v(u.x@, v.x@), fx_add_v(u.y@, v.y@), fx_add_v(u.z@, v.z@))
}

pub open spec fn v3_sub(u: Vec3, v: Vec3) -> Vec3 {
    v3(fx_sub_v(u.x@, v.x@), fx_sub_v(u.y@, v.y@), fx_sub_v(u.z@, v.z@))
}

/// Component-wise product (color attenuation).
pub open spec fn v3_mul(u: Vec3, v: Vec3) -> Vec3 {
    v3(fx_mul_v(u.x@, v.x@), fx_mul_v(u.y@, v.y@), fx_mul_v(u.z@, v.z@))
}

pub open spec fn v3_scale(u: Vec3, t: Fx) -> Vec3 {
    v3(fx_mul_v(u.x@, t@), fx_mul_v(u.y@, t@), fx_mul_v(u.z@, t@))
}

pub open spec fn v3_div_s(u: Vec3, t: Fx) -> Vec3 {
    v3(fx_div_v(u.x@, t@), fx_div_v(u.y@, t@), fx_div_v(u.z@, t@))
}

pub open spec fn v3_dot(u: Vec3, v: Vec3) -> int {
    fx_add_v(fx_add_v(fx_mul_v(u.x@, v.x@), fx_mul_v(u.y@, v.y@)), fx_mul_v(u.z@, v.z@))
}

pub open spec fn v3_cross(u: Vec3, v: Vec3) -> Vec3 {
    v3(
        fx_sub_v(fx_mul_v(u.y@, v.z@), fx_mul_v(u.z@, v.y@)),
        fx_sub_v(fx_mul_v(u.z@, v.x@), fx_mul_v(u.x@, v.z@)),
        fx_sub_v(fx_mul_v(u.x@, v.y@), fx_mul_v(u.y@, v.x@)),
    )
}

pub open spec fn v3_length_sq(u: Vec3) -> int {
    v3_dot(u, u)
}

pub open spec fn v3_length(u: Vec3) -> int {
    fx_sqrt_v(v3_length_sq(u))
}

/// `u` divided by its own length (all zero when the length is zero).
pub open spec fn v3_unit(u: Vec3) -> Vec3 {
    v3_div_s(u, fx_of(v3_length(u)))
}

impl Vec3 {
    pub fn new(x: Fx, y: Fx, z: Fx) -> (r: Vec3)
        ensures
            r == (Vec3 { x, y, z }),
    {
        Vec3 { x, y, z }
    }

    /// The red channel when this vector is read as a color.
    pub fn r(self) -> (r: Fx)
        ensures
            r == self.x,
    {
        self.x
    }

    /// The green channel when this vector is read as a color.
    pub fn g(self) -> (r: Fx)
        ensures
            r == self.y,
    {
        self.y
    }

    /// The blue channel when this vector is read as a color.
    pub fn b(self) -> (r: Fx)
        ensures
            r == self.z,
    {
        self.z
    }

    pub fn neg(self) -> (r: Vec3)
        ensures
            r == v3_neg(self),
    {
        Vec3 { x: self.x.neg(), y: self.y.neg(), z: self.z.neg() }
    }

    pub fn add(self, o: Vec3) -> (r: Vec3)
        ensures
            r == v3_add(self, o),
    {
        Vec3 { x: self.x.add(o.x), y: self.y.add(o.y), z: self.z.add(o.z) }
    }

    pub fn sub(self, o: Vec3) -> (r: Vec3)
        ensures
            r == v3_sub(self, o),
    {
        Vec3 { x: self.x.sub(o.x), y: self.y.sub(o.y), z: self.z.sub(o.z) }
    }

    /// Component-wise product.
    pub fn mul(self, o: Vec3) -> (r: Vec3)
        ensures
            r == v3_mul(self, o),
    {
        Vec3 { x: self.x.mul(o.x), y: self.y.mul(o.y), z: self.z.mul(o.z) }
    }

    pub fn scale(self, t: Fx) -> (r: Vec3)
        ensures
            r == v3_scale(self, t),
    {
        Vec3 { x: self.x.mul(t), y: self.y.mul(t), z: self.z.mul(t) }
    }

    pub fn div_s(self, t: Fx) -> (r: Vec3)
        ensures
            r == v3_div_s(self, t),
    {
        Vec3 { x: self.x.div(t), y: self.y.div(t), z: self.z.div(t) }
    }

    pub fn dot(u: Vec3, v: Vec3) -> (r: Fx)
        ensures
            r@ == v3_dot(u, v),
    {
        u.x.mul(v.x).add(u.y.mul(v.y)).add(u.z.mul(v.z))
    }

    pub fn cross(u: Vec3, v: Vec3) -> (r: Vec3)
        ensures
            r == v3_cross(u, v),
    {
        Vec3 {
            x: u.y.mul(v.z).sub(u.z.mul(v.y)),
            y: u.z.mul(v.x).sub(u.x.mul(v.z)),
            z: u.x.mul(v.y).sub(u.y.mul(v.x)),
        }
    }

    pub fn length_squared(self) -> (r: Fx)
        ensures
            r@ == v3_length_sq(self),
    {
        Vec3::dot(self, self)
    }

    pub fn length(self) -> (r: Fx)
        ensures
            r@ == v3_length(self),
    {
        self.length_squared().sqrt()
    }

    pub fn unit_vector(v: Vec3) -> (r: Vec3)
        ensures
            r == v3_unit(v),
    {
        v.div_s(v.length())
    }
}

} // verus!
