//! The camera: an orthonormal viewing basis built once, and per-sample ray
//! generation with a lens offset for depth of field.
//!
//! Construction takes the tangent of half the vertical field of view
//! directly (`half_height`), since that is the only trigonometric quantity
//! the camera ever needs.

use vstd::prelude::*;

use crate::fixed::FX_ONE;
use crate::fixed::Fx;
use crate::fixed::fx_mul_v;
use crate::ray::Ray;
use crate::rng::Rng;
use crate::rng::lcg_next_v;
use crate::rng::sym_draw_v;
use crate::vec3::Vec3;
use crate::vec3::fx_of;
use crate::vec3::v3;
use crate::vec3::v3_add;
use crate::vec3::v3_cross;
use crate::vec3::v3_dot;
use crate::vec3::v3_scale;
use crate::vec3::v3_sub;
use crate::vec3::v3_unit;

verus! {

#[derive(Clone, Copy, Debug, PartialEq, Eq, Structural)]
pub struct Camera {
    pub origin: Vec3,
    pub lower_left_corner: Vec3,
    pub horizontal: Vec3,
    pub vertical: Vec3,
    pub u: Vec3,
    pub v: Vec3,
    pub lens_radius: Fx,
}

/// Mirror of `Camera::new`: basis `w` from target to eye, `u = vup x w`
/// normalized, `v = w x u`; the viewport corner and extents scaled by the
/// focus distance; lens radius is half the aperture.
pub open spec fn camera_new_v(
    look_from: Vec3,
    look_at: Vec3,
    vup: Vec3,
    half_height: Fx,
    aspect_ratio: Fx,
    aperture: Fx,
    focus_dist: Fx,
) -> Camera {
    let half_width = fx_mul_v(aspect_ratio@, half_height@);
    let w = v3_unit(v3_sub(look_from, look_at));
    let u = v3_unit(v3_cross(vup, w));
    let v = v3_cross(w, u);
    let lower_left_corner = v3_sub(
        v3_sub(
            v3_sub(look_from, v3_scale(u, fx_of(fx_mul_v(half_width, focus_dist@)))),
            v3_scale(v, fx_of(fx_mul_v(half_height@, focus_dist@))),
        ),
        v3_scale(w, focus_dist),
    );
    let horizontal = v3_scale(
        u,
        fx_of(fx_mul_v(fx_mul_v(2 * FX_ONE as int, half_width), focus_dist@)),
    );
    let vertical = v3_scale(
        v,
        fx_of(fx_mul_v(fx_mul_v(2 * FX_ONE as int, half_height@), focus_dist@)),
    );
    Camera {
        origin: look_from,
        lower_left_corner,
        horizontal,
        vertical,
        u,
        v,
        lens_radius: fx_of(fx_mul_v(aperture@, (FX_ONE as int) / 2)),
    }
}

/// Two symmetric draws from state `s`: a candidate disk point (z = 0) and
/// the state left behind.
pub open spec fn sym2_v(s: int) -> (Vec3, int) {
    let s1 = lcg_next_v(s);
    let s2 = lcg_next_v(s1);
    (v3(sym_draw_v(s1), sym_draw_v(s2), 0), s2)
}

/// Mirror of the unit-disk rejection sampler, with the same bounded retry
/// scheme as the unit-ball sampler.
pub open spec fn unit_disk_sample_v(s: int, k: nat) -> (Vec3, int)
    decreases k,
{
    let (p, s2) = sym2_v(s);
    if v3_dot(p, p) < FX_ONE as int {
        (p, s2)
    } else if k == 0 {
        (v3(0, 0, 0), s2)
    } else {
        unit_disk_sample_v(s2, (k - 1) as nat)
    }
}

fn sample_disk_go(rng: &mut Rng, k: u32) -> (p: Vec3)
    ensures
        ({
            let (q, s) = unit_disk_sample_v(old(rng).state as int, k as nat);
            p == q && final(rng).state as int == s
        }),
    decreases k,
{
    let x = rng.next_sym();
    let y = rng.next_sym();
    let p = Vec3::new(x, y, Fx { raw: 0 });
    if Vec3::dot(p, p).raw < FX_ONE {
        p
    } else if k == 0 {
        Vec3::new(Fx { raw: 0 }, Fx { raw: 0 }, Fx { raw: 0 })
    } else {
        sample_disk_go(rng, k - 1)
    }
}

/// A point on the unit lens disk, by rejection sampling on the stream.
pub fn random_in_unit_disk(rng: &mut Rng) -> (p: Vec3)
    ensures
        ({
            let (q, s) = unit_disk_sample_v(old(rng).state as int, 32);
            p == q && final(rng).state as int == s
        }),
{
    sample_disk_go(rng, 32)
}

/// Mirror of `Camera::get_ray`: offset the origin by a lens sample in the
/// `(u, v)` plane and aim at the image-plane point `(s, t)`.
pub open spec fn get_ray_v(c: Camera, s: Fx, t: Fx, st: int) -> (Ray, int) {
    let (d, st2) = unit_disk_sample_v(st, 32);
    let rd = v3_scale(d, c.lens_radius);
    let offset = v3_add(v3_scale(c.u, rd.x), v3_scale(c.v, rd.y));
    let dir = v3_sub(
        v3_sub(
            v3_add(v3_add(c.lower_left_corner, v3_scale(c.horizontal, s)), v3_scale(c.vertical, t)),
            c.origin,
        ),
        offset,
    );
    (Ray { orig: v3_add(c.origin, offset), dir }, st2)
}

impl Camera {
    /// `half_height` is the tangent of half the vertical field of view.
    pub fn new(
        look_from: Vec3,
        look_at: Vec3,
        vup: Vec3,
        half_height: Fx,
        aspect_ratio: Fx,
        aperture: Fx,
        focus_dist: Fx,
    ) -> (r: Camera)
        ensures
            r == camera_new_v(look_from, look_at, vup, half_height, aspect_ratio, aperture, focus_dist),
    {
        let half_width = aspect_ratio.mul(half_height);

        let origin = look_from;
        let w = Vec3::unit_vector(look_from.sub(look_at));
        let u = Vec3::unit_vector(Vec3::cross(vup, w));
        let v = Vec3::cross(w, u);

        let two = Fx { raw: 2 * FX_ONE };
        let half = Fx { raw: FX_ONE / 2 };
        let lower_left_corner = origin.sub(u.scale(half_width.mul(focus_dist))).sub(
            v.scale(half_height.mul(focus_dist)),
        ).sub(w.scale(focus_dist));
        let horizontal = u.scale(two.mul(half_width).mul(focus_dist));
        let vertical = v.scale(two.mul(half_height).mul(focus_dist));

        Camera {
            origin,
            lower_left_corner,
            horizontal,
            vertical,
            u,
            v,
            lens_radius: aperture.mul(half),
        }
    }

    /// The world-space ray for normalized image coordinates `(s, t)`.
    pub fn get_ray(&self, s: Fx, t: Fx, rng: &mut Rng) -> (r: Ray)
        ensures
            ({
                let (q, st2) = get_ray_v(*self, s, t, old(rng).state as int);
                r == q && final(rng).state as int == st2
            }),
    {
        let rd = random_in_unit_disk(rng).scale(self.lens_radius);
        let offset = self.u.scale(rd.x).add(self.v.scale(rd.y));

        Ray::new(
            self.origin.add(offset),
            self.lower_left_corner.add(self.horizontal.scale(s)).add(self.vertical.scale(t)).sub(
                self.origin,
            ).sub(offset),
        )
    }
}

} // verus!
