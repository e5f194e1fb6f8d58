//! Rays: an origin and a direction, with parameterized point evaluation.

use vstd::prelude::*;

use crate::fixed::Fx;
use crate::vec3::Vec3;
use crate::vec3::v3_add;
use crate::vec3::v3_scale;

verus! {

#[derive(Clone, Copy, Debug, PartialEq, Eq, Structural)]
pub struct Ray {
    pub orig: Vec3,
    pub dir: Vec3,
}

/// The point `origin + t * direction`.
pub open spec fn ray_at_v(r: Ray, t: Fx) -> Vec3 {
    v3_add(r.orig, v3_scale(r.dir, t))
}

impl Ray {
    pub fn new(origin: Vec3, direction: Vec3) -> (r: Ray)
        ensures
            r.orig == origin,
            r.dir == direction,
    {
        Ray { orig: origin, dir: direction }
    }

    pub fn origin(self) -> (r: Vec3)
        ensures
            r == self.orig,
    {
        self.orig
    }

    pub fn direction(self) -> (r: Vec3)
        ensures
            r == self.dir,
    {
        self.dir
    }

    pub fn at(self, t: Fx) -> (r: Vec3)
        ensures
            r == ray_at_v(self, t),
    {
        self.orig.add(self.dir.scale(t))
    }
}

} // verus!
