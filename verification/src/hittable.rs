//! Surfaces and ray-surface intersection.
//!
//! `Sphere::hit` solves the fixed-point quadratic for the nearest root
//! strictly inside the open interval `(t_min, t_max)`; `HittableList::hit`
//! scans all spheres with a shrinking upper bound, so the final record is
//! the globally closest hit.  Both results are pinned to spec mirrors.

use vstd::prelude::*;

use crate::fixed::FX_MAX;
use crate::fixed::Fx;
use crate::fixed::fx_add_v;
use crate::fixed::fx_div_v;
use crate::fixed::fx_mul_v;
use crate::fixed::fx_neg_v;
use crate::fixed::fx_sqrt_v;
use crate::fixed::fx_sub_v;
use crate::material::Material;
use crate::ray::Ray;
use crate::ray::ray_at_v;
use crate::vec3::Vec3;
use crate::vec3::fx_of;
use crate::vec3::v3_div_s;
use crate::vec3::v3_dot;
use crate::vec3::v3_sub;

verus! {

/// The transient result of an intersection query.
#[derive(Clone, Copy, Debug, PartialEq, Eq, Structural)]
pub struct HitRecord {
    pub t: Fx,
    pub point: Vec3,
    pub normal: Vec3,
    pub material: Material,
}

#[derive(Clone, Copy, Debug, PartialEq, Eq, Structural)]
pub struct Sphere {
    pub center: Vec3,
    pub radius: Fx,
    pub material: Material,
}

/// The record a sphere reports for a hit at parameter `t`: the point on the
/// ray and the normal `(point - center) / radius` (not re-normalized).
pub open spec fn sphere_record_v(s: Sphere, r: Ray, t: int) -> HitRecord {
    let p = ray_at_v(r, fx_of(t));
    HitRecord {
        t: fx_of(t),
        point: p,
        normal: v3_div_s(v3_sub(p, s.center), s.radius),
        material: s.material,
    }
}

/// Mirror of `Sphere::hit`: the quadratic `|O + tD - C|^2 = r^2` is solved
/// through `a`, `half_b`, `c`; a positive discriminant offers the smaller
/// root first, then the larger, each accepted only strictly inside
/// `(t_min, t_max)`.
pub open spec fn sphere_hit_v(s: Sphere, r: Ray, t_min: Fx, t_max: Fx) -> Option<HitRecord> {
    let oc = v3_sub(r.orig, s.center);
    let a = v3_dot(r.dir, r.dir);
    let half_b = v3_dot(oc, r.dir);
    let c = fx_sub_v(v3_dot(oc, oc), fx_mul_v(s.radius@, s.radius@));
    let disc = fx_sub_v(fx_mul_v(half_b, half_b), fx_mul_v(a, c));
    if disc > 0 {
        let sq = fx_sqrt_v(disc);
        let root0 = fx_div_v(fx_sub_v(fx_neg_v(half_b), sq), a);
        if t_min@ < root0 && root0 < t_max@ {
            Some(sphere_record_v(s, r, root0))
        } else {
            let root1 = fx_div_v(fx_add_v(fx_neg_v(half_b), sq), a);
            if t_min@ < root1 && root1 < t_max@ {
                Some(sphere_record_v(s, r, root1))
            } else {
                None
            }
        }
    } else {
        None
    }
}

impl Sphere {
    pub fn new(center: Vec3, radius: Fx, material: Material) -> (r: Sphere)
        ensures
            r == (Sphere { center, radius, material }),
    {
        Sphere { center, radius, material }
    }

    /// The closest intersection strictly inside `(t_min, t_max)`, if any.
    pub fn hit(&self, r: &Ray, t_min: Fx, t_max: Fx) -> (res: Option<HitRecord>)
        ensures
            res == sphere_hit_v(*self, *r, t_min, t_max),
            res matches Some(rec) ==> t_min@ < rec.t@ < t_max@,
    {
        let oc = r.origin().sub(self.center);
        let a = Vec3::dot(r.direction(), r.direction());
        let half_b = Vec3::dot(oc, r.direction());
        let c = Vec3::dot(oc, oc).sub(self.radius.mul(self.radius));
        let discriminant = half_b.mul(half_b).sub(a.mul(c));

        if discriminant.raw > 0 {
            let sqrtd = discriminant.sqrt();

            let root = half_b.neg().sub(sqrtd).div(a);
            if t_min.lt(root) && root.lt(t_max) {
                let p = r.at(root);
                let normal = p.sub(self.center).div_s(self.radius);
                return Some(
                    HitRecord { t: root, point: p, normal, material: self.material },
                );
            }

            let root = half_b.neg().add(sqrtd).div(a);
            if t_min.lt(root) && root.lt(t_max) {
                let p = r.at(root);
                let normal = p.sub(self.center).div_s(self.radius);
                return Some(
                    HitRecord { t: root, point: p, normal, material: self.material },
                );
            }
        }

        None
    }
}

/// The scene: an ordered list of spheres, scanned linearly.
pub struct HittableList {
    pub objects: Vec<Sphere>,
}

/// Mirror of `HittableList::hit` from the first remaining object on:
/// `closest` is the shrinking upper bound and `best` the record kept so far.
pub open spec fn list_hit_v(
    objs: Seq<Sphere>,
    r: Ray,
    t_min: Fx,
    closest: Fx,
    best: Option<HitRecord>,
) -> Option<HitRecord>
    decreases objs.len(),
{
    if objs.len() == 0 {
        best
    } else {
        match sphere_hit_v(objs[0], r, t_min, closest) {
            Some(rec) => list_hit_v(objs.drop_first(), r, t_min, rec.t, Some(rec)),
            None => list_hit_v(objs.drop_first(), r, t_min, closest, best),
        }
    }
}

impl HittableList {
    pub fn new() -> (r: HittableList)
        ensures
            r.objects@ == Seq::<Sphere>::empty(),
    {
        HittableList { objects: Vec::new() }
    }

    pub fn with(objects: Vec<Sphere>) -> (r: HittableList)
        ensures
            r.objects@ == objects@,
    {
        HittableList { objects }
    }

    pub fn add(&mut self, object: Sphere)
        ensures
            final(self).objects@ == old(self).objects@.push(object),
    {
        self.objects.push(object);
    }

    /// The closest hit over all objects, strictly inside `(t_min, t_max)`:
    /// whenever any member sphere would report a hit on its own, the list
    /// reports one at most as far, and what it reports is always some
    /// member's own report.
    pub fn hit(&self, r: &Ray, t_min: Fx, t_max: Fx) -> (res: Option<HitRecord>)
        ensures
            res == list_hit_v(self.objects@, *r, t_min, t_max, None::<HitRecord>),
            res matches Some(rec) ==> t_min@ < rec.t@ < t_max@,
            forall|i: int|
                0 <= i < self.objects@.len() ==> ((#[trigger] sphere_hit_v(
                    self.objects@[i],
                    *r,
                    t_min,
                    t_max,
                )) matches Some(h) ==> res matches Some(rec) && rec.t@ <= h.t@),
            res matches Some(rec) ==> exists|i: int|
                0 <= i < self.objects@.len() && #[trigger] sphere_hit_v(
                    self.objects@[i],
                    *r,
                    t_min,
                    t_max,
                ) == Some(rec),
    {
        proof {
            crate::laws::lemma_closest_hit_selection(self.objects@, *r, t_min, t_max);
        }
        let mut hit_rec: Option<HitRecord> = None;
        let mut closest_so_far = t_max;

        let n = self.objects.len();
        let mut i: usize = 0;
        proof {
            assert(self.objects@.skip(0) =~= self.objects@);
        }
        while i < n
            invariant
                n == self.objects.len(),
                i <= n,
                list_hit_v(self.objects@, *r, t_min, t_max, None::<HitRecord>)
                    == list_hit_v(self.objects@.skip(i as int), *r, t_min, closest_so_far, hit_rec),
                hit_rec matches Some(b) ==> b.t == closest_so_far && t_min@ < b.t@ < t_max@,
                hit_rec is None ==> closest_so_far == t_max,
            decreases n - i,
        {
            let obj = self.objects[i];
            proof {
                assert(self.objects@.skip(i as int)[0] == self.objects@[i as int]);
                assert(self.objects@.skip(i as int).drop_first() =~= self.objects@.skip(
                    i as int + 1,
                ));
            }
            if let Some(rec) = obj.hit(r, t_min, closest_so_far) {
                closest_so_far = rec.t;
                hit_rec = Some(rec);
            }
            i = i + 1;
        }
        hit_rec
    }
}

/// Lower cutoff used by the renderer to avoid self-intersection
/// (about 0.001).
pub const T_MIN_RAW: i64 = 66;

/// The renderer's stand-in for an unbounded upper cutoff.
pub const T_MAX_RAW: i64 = FX_MAX;

} // verus!
