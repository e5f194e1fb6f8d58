//! Material scattering models: diffuse, metallic and dielectric.
//!
//! `scatter` consumes draws from the randomness stream and either returns an
//! attenuation color with the scattered ray, or absorbs the ray.  Every
//! result, and the stream state left behind, is pinned to a spec mirror of
//! the computation.

use vstd::prelude::*;

use crate::fixed::FX_ONE;
use crate::fixed::Fx;
use crate::fixed::fx_add_v;
use crate::fixed::fx_div_v;
use crate::fixed::fx_mul_v;
use crate::fixed::fx_neg_v;
use crate::fixed::fx_sqrt_v;
use crate::fixed::fx_sub_v;
use crate::hittable::HitRecord;
use crate::ray::Ray;
use crate::rng::Rng;
use crate::rng::lcg_next_v;
use crate::rng::sym_draw_v;
use crate::rng::unit_draw_v;
use crate::vec3::Vec3;
use crate::vec3::fx_of;
use crate::vec3::v3;
use crate::vec3::v3_add;
use crate::vec3::v3_dot;
use crate::vec3::v3_length;
use crate::vec3::v3_length_sq;
use crate::vec3::v3_neg;
use crate::vec3::v3_scale;
use crate::vec3::v3_sub;
use crate::vec3::v3_unit;

verus! {

/// Rejection-sampling attempts before the sampler falls back to the origin.
pub const SAMPLE_TRIES: u32 = 32;

/// Three symmetric draws from state `s`: a candidate point and the state
/// left behind.
pub open spec fn sym3_v(s: int) -> (Vec3, int) {
    let s1 = lcg_next_v(s);
    let s2 = lcg_next_v(s1);
    let s3 = lcg_next_v(s2);
    (v3(sym_draw_v(s1), sym_draw_v(s2), sym_draw_v(s3)), s3)
}

/// Mirror of the unit-ball rejection sampler: keep drawing candidates from
/// `[-1,1)^3` until one has squared length below 1, giving up on the origin
/// after `k` further rounds.
pub open spec fn unit_sphere_sample_v(s: int, k: nat) -> (Vec3, int)
    decreases k,
{
    let (p, s2) = sym3_v(s);
    if v3_length_sq(p) < FX_ONE as int {
        (p, s2)
    } else if k == 0 {
        (v3(0, 0, 0), s2)
    } else {
        unit_sphere_sample_v(s2, (k - 1) as nat)
    }
}

fn sample_sphere_go(rng: &mut Rng, k: u32) -> (p: Vec3)
    ensures
        ({
            let (q, s) = unit_sphere_sample_v(old(rng).state as int, k as nat);
            p == q && final(rng).state as int == s
        }),
    decreases k,
{
    let x = rng.next_sym();
    let y = rng.next_sym();
    let z = rng.next_sym();
    let p = Vec3::new(x, y, z);
    if p.length_squared().raw < FX_ONE {
        p
    } else if k == 0 {
        Vec3::new(Fx { raw: 0 }, Fx { raw: 0 }, Fx { raw: 0 })
    } else {
        sample_sphere_go(rng, k - 1)
    }
}

/// A point inside the unit ball, by rejection sampling on the stream.
pub fn random_in_unit_sphere(rng: &mut Rng) -> (p: Vec3)
    ensures
        ({
            let (q, s) = unit_sphere_sample_v(old(rng).state as int, SAMPLE_TRIES as nat);
            p == q && final(rng).state as int == s
        }),
{
    sample_sphere_go(rng, SAMPLE_TRIES)
}

/// Mirror reflection about a normal: `v - 2 (v . n) n`.
pub open spec fn reflect_v(v: Vec3, n: Vec3) -> Vec3 {
    v3_sub(v, v3_scale(n, fx_of(fx_mul_v(2 * FX_ONE as int, v3_dot(v, n)))))
}

pub fn reflect(v: Vec3, n: Vec3) -> (r: Vec3)
    ensures
        r == reflect_v(v, n),
{
    let two = Fx { raw: 2 * FX_ONE };
    v.sub(n.scale(two.mul(Vec3::dot(v, n))))
}

/// Mirror of Snell refraction: `None` when refraction is geometrically
/// impossible (total internal reflection).
pub open spec fn refract_v(v: Vec3, n: Vec3, ni_over_nt: Fx) -> Option<Vec3> {
    let uv = v3_unit(v);
    let dt = v3_dot(uv, n);
    let disc = fx_sub_v(
        FX_ONE as int,
        fx_mul_v(fx_mul_v(ni_over_nt@, ni_over_nt@), fx_sub_v(FX_ONE as int, fx_mul_v(dt, dt))),
    );
    if disc > 0 {
        Some(
            v3_sub(
                v3_scale(v3_sub(uv, v3_scale(n, fx_of(dt))), ni_over_nt),
                v3_scale(n, fx_of(fx_sqrt_v(disc))),
            ),
        )
    } else {
        None
    }
}

pub fn refract(v: Vec3, n: Vec3, ni_over_nt: Fx) -> (r: Option<Vec3>)
    ensures
        r == refract_v(v, n, ni_over_nt),
{
    let one = Fx { raw: FX_ONE };
    let uv = Vec3::unit_vector(v);
    let dt = Vec3::dot(uv, n);
    let discriminant = one.sub(ni_over_nt.mul(ni_over_nt).mul(one.sub(dt.mul(dt))));
    if discriminant.raw > 0 {
        Some(uv.sub(n.scale(dt)).scale(ni_over_nt).sub(n.scale(discriminant.sqrt())))
    } else {
        None
    }
}

/// The fifth power, multiplied out left to right.
pub open spec fn pow5_v(c: int) -> int {
    fx_mul_v(fx_mul_v(fx_mul_v(fx_mul_v(c, c), c), c), c)
}

/// Schlick's reflectance approximation:
/// `r0 + (1 - r0) (1 - cosine)^5` with `r0 = ((1 - n) / (1 + n))^2`.
pub open spec fn schlick_v(cosine: int, ref_idx: int) -> int {
    let r0 = fx_div_v(fx_sub_v(FX_ONE as int, ref_idx), fx_add_v(FX_ONE as int, ref_idx));
    let r0sq = fx_mul_v(r0, r0);
    fx_add_v(r0sq, fx_mul_v(fx_sub_v(FX_ONE as int, r0sq), pow5_v(fx_sub_v(FX_ONE as int, cosine))))
}

pub fn schlick(cosine: Fx, ref_idx: Fx) -> (r: Fx)
    ensures
        r@ == schlick_v(cosine@, ref_idx@),
{
    let one = Fx { raw: FX_ONE };
    let r0 = one.sub(ref_idx).div(one.add(ref_idx));
    let r0sq = r0.mul(r0);
    let c = one.sub(cosine);
    let p5 = c.mul(c).mul(c).mul(c).mul(c);
    r0sq.add(one.sub(r0sq).mul(p5))
}

/// Clamp into `[0, 1]`.
pub open spec fn clamp01_v(x: int) -> int {
    if x > FX_ONE as int {
        FX_ONE as int
    } else if x < 0 {
        0
    } else {
        x
    }
}

fn clamp01(x: Fx) -> (r: Fx)
    ensures
        r@ == clamp01_v(x@),
{
    if x.raw > FX_ONE {
        Fx { raw: FX_ONE }
    } else if x.raw < 0 {
        Fx { raw: 0 }
    } else {
        x
    }
}

/// A diffuse surface: always scatters toward `normal + unit-ball sample`
/// and attenuates by its albedo.
#[derive(Clone, Copy, Debug, PartialEq, Eq, Structural)]
pub struct Lambertian {
    pub albedo: Vec3,
}

/// A reflective surface with roughness `fuzz` (held in `[0, 1]`).
#[derive(Clone, Copy, Debug, PartialEq, Eq, Structural)]
pub struct Metal {
    pub albedo: Vec3,
    pub fuzz: Fx,
}

/// Colorless glass with refractive index `ref_idx`.
#[derive(Clone, Copy, Debug, PartialEq, Eq, Structural)]
pub struct Dielectric {
    pub ref_idx: Fx,
}

/// The closed set of scattering models.
#[derive(Clone, Copy, Debug, PartialEq, Eq, Structural)]
pub enum Material {
    Lambertian(Lambertian),
    Metal(Metal),
    Dielectric(Dielectric),
}

/// Mirror of `Lambertian::scatter`: one unit-ball sample, a ray toward
/// `point + normal + sample`, attenuation exactly the albedo.
pub open spec fn lambertian_scatter_v(l: Lambertian, rec: HitRecord, s: int) -> (
    Option<(Vec3, Ray)>,
    int,
) {
    let (p, s2) = unit_sphere_sample_v(s, SAMPLE_TRIES as nat);
    let target = v3_add(v3_add(rec.point, rec.normal), p);
    let scattered = Ray { orig: rec.point, dir: v3_sub(target, rec.point) };
    (Some((l.albedo, scattered)), s2)
}

/// Mirror of `Metal::scatter`: reflect the unit incoming direction, perturb
/// by `fuzz` times a unit-ball sample, and absorb rays that end up pointing
/// into the surface.
pub open spec fn metal_scatter_v(m: Metal, ray_in: Ray, rec: HitRecord, s: int) -> (
    Option<(Vec3, Ray)>,
    int,
) {
    let reflected = reflect_v(v3_unit(ray_in.dir), rec.normal);
    let (p, s2) = unit_sphere_sample_v(s, SAMPLE_TRIES as nat);
    let scattered = Ray { orig: rec.point, dir: v3_add(reflected, v3_scale(p, m.fuzz)) };
    if v3_dot(scattered.dir, rec.normal) > 0 {
        (Some((m.albedo, scattered)), s2)
    } else {
        (None, s2)
    }
}

/// Mirror of `Dielectric::scatter`: pick the outward normal and index ratio
/// by the side the ray comes from; when refraction is impossible the ray
/// always reflects, otherwise it reflects with Schlick probability, decided
/// by one uniform draw; attenuation is always `(1,1,1)`.
pub open spec fn dielectric_scatter_v(d: Dielectric, ray_in: Ray, rec: HitRecord, s: int) -> (
    Option<(Vec3, Ray)>,
    int,
) {
    let attenuation = v3(FX_ONE as int, FX_ONE as int, FX_ONE as int);
    let reflected = reflect_v(ray_in.dir, rec.normal);
    let ddn = v3_dot(ray_in.dir, rec.normal);
    let outward_normal = if ddn > 0 {
        v3_neg(rec.normal)
    } else {
        rec.normal
    };
    let ni_over_nt = if ddn > 0 {
        d.ref_idx@
    } else {
        fx_div_v(FX_ONE as int, d.ref_idx@)
    };
    let cosine = if ddn > 0 {
        fx_div_v(fx_mul_v(d.ref_idx@, ddn), v3_length(ray_in.dir))
    } else {
        fx_div_v(fx_neg_v(ddn), v3_length(ray_in.dir))
    };
    let s1 = lcg_next_v(s);
    let u = unit_draw_v(s1);
    match refract_v(ray_in.dir, outward_normal, fx_of(ni_over_nt)) {
        None => (Some((attenuation, Ray { orig: rec.point, dir: reflected })), s1),
        Some(refracted) => if u < clamp01_v(schlick_v(cosine, d.ref_idx@)) {
            (Some((attenuation, Ray { orig: rec.point, dir: reflected })), s1)
        } else {
            (Some((attenuation, Ray { orig: rec.point, dir: refracted })), s1)
        },
    }
}

/// Mirror of `Material::scatter`, dispatching on the variant.
pub open spec fn scatter_v(m: Material, ray_in: Ray, rec: HitRecord, s: int) -> (
    Option<(Vec3, Ray)>,
    int,
) {
    match m {
        Material::Lambertian(l) => lambertian_scatter_v(l, rec, s),
        Material::Metal(mm) => metal_scatter_v(mm, ray_in, rec, s),
        Material::Dielectric(d) => dielectric_scatter_v(d, ray_in, rec, s),
    }
}

/// The fuzz actually stored by `Metal::new`: the argument clamped to
/// `[0, 1]`.
pub open spec fn metal_fuzz_v(f: int) -> int {
    if f < FX_ONE as int {
        if f < 0 {
            0
        } else {
            f
        }
    } else {
        FX_ONE as int
    }
}

/// The metal `Metal::new` builds: the albedo as given, the fuzz clamped.
pub open spec fn metal_new_v(albedo: Vec3, fuzziness: Fx) -> Metal {
    Metal { albedo, fuzz: fx_of(metal_fuzz_v(fuzziness@)) }
}

impl Lambertian {
    pub fn new(albedo: Vec3) -> (r: Lambertian)
        ensures
            r.albedo == albedo,
    {
        Lambertian { albedo }
    }

    /// Always scatters; the attenuation is exactly the configured albedo.
    pub fn scatter(&self, _ray_in: &Ray, rec: &HitRecord, rng: &mut Rng) -> (res: Option<
        (Vec3, Ray),
    >)
        ensures
            ({
                let (r0, s) = lambertian_scatter_v(*self, *rec, old(rng).state as int);
                res == r0 && final(rng).state as int == s
            }),
            res matches Some(ar) && ar.0 == self.albedo,
    {
        let target = rec.point.add(rec.normal).add(random_in_unit_sphere(rng));
        let scattered = Ray::new(rec.point, target.sub(rec.point));
        Some((self.albedo, scattered))
    }
}

impl Metal {
    /// Fuzz outside `[0, 1]` is clamped to that range.
    pub fn new(albedo: Vec3, fuzziness: Fx) -> (r: Metal)
        ensures
            r.albedo == albedo,
            r.fuzz@ == metal_fuzz_v(fuzziness@),
            r == metal_new_v(albedo, fuzziness),
    {
        let fuzz = if fuzziness.raw < FX_ONE {
            if fuzziness.raw < 0 {
                Fx { raw: 0 }
            } else {
                fuzziness
            }
        } else {
            Fx { raw: FX_ONE }
        };
        Metal { albedo, fuzz }
    }

    pub fn scatter(&self, ray_in: &Ray, rec: &HitRecord, rng: &mut Rng) -> (res: Option<
        (Vec3, Ray),
    >)
        ensures
            ({
                let (r0, s) = metal_scatter_v(*self, *ray_in, *rec, old(rng).state as int);
                res == r0 && final(rng).state as int == s
            }),
    {
        let reflected = reflect(Vec3::unit_vector(ray_in.direction()), rec.normal);
        let scattered = Ray::new(rec.point, reflected.add(random_in_unit_sphere(rng).scale(self.fuzz)));
        if Vec3::dot(scattered.direction(), rec.normal).raw > 0 {
            Some((self.albedo, scattered))
        } else {
            None
        }
    }
}

impl Dielectric {
    pub fn new(ref_idx: Fx) -> (r: Dielectric)
        ensures
            r.ref_idx == ref_idx,
    {
        Dielectric { ref_idx }
    }

    /// Always scatters (reflects or transmits); attenuation is `(1,1,1)`.
    pub fn scatter(&self, ray_in: &Ray, rec: &HitRecord, rng: &mut Rng) -> (res: Option<
        (Vec3, Ray),
    >)
        ensures
            ({
                let (r0, s) = dielectric_scatter_v(*self, *ray_in, *rec, old(rng).state as int);
                res == r0 && final(rng).state as int == s
            }),
            res is Some,
    {
        let one = Fx { raw: FX_ONE };
        let attenuation = Vec3::new(one, one, one);
        let reflected = reflect(ray_in.direction(), rec.normal);
        let ddn = Vec3::dot(ray_in.direction(), rec.normal);

        let outward_normal = if ddn.raw > 0 {
            rec.normal.neg()
        } else {
            rec.normal
        };
        let ni_over_nt = if ddn.raw > 0 {
            self.ref_idx
        } else {
            one.div(self.ref_idx)
        };
        let cosine = if ddn.raw > 0 {
            self.ref_idx.mul(ddn).div(ray_in.direction().length())
        } else {
            ddn.neg().div(ray_in.direction().length())
        };

        let u = rng.next_unit();
        match refract(ray_in.direction(), outward_normal, ni_over_nt) {
            None => Some((attenuation, Ray::new(rec.point, reflected))),
            Some(refracted) => {
                if u.lt(clamp01(schlick(cosine, self.ref_idx))) {
                    Some((attenuation, Ray::new(rec.point, reflected)))
                } else {
                    Some((attenuation, Ray::new(rec.point, refracted)))
                }
            },
        }
    }
}

impl Material {
    /// Dispatch to the variant's scattering model.
    pub fn scatter(&self, ray_in: &Ray, rec: &HitRecord, rng: &mut Rng) -> (res: Option<
        (Vec3, Ray),
    >)
        ensures
            ({
                let (r0, s) = scatter_v(*self, *ray_in, *rec, old(rng).state as int);
                res == r0 && final(rng).state as int == s
            }),
    {
        match self {
            Material::Lambertian(l) => l.scatter(ray_in, rec, rng),
            Material::Metal(m) => m.scatter(ray_in, rec, rng),
            Material::Dielectric(d) => d.scatter(ray_in, rec, rng),
        }
    }
}

} // verus!
