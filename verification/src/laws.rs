//! Laws the renderer obeys, proved against the spec mirrors the executable
//! contracts are stated over.

use vstd::prelude::*;

use crate::fixed::FX_ONE;
use crate::fixed::Fx;
use crate::fixed::fx_mul_v;
use crate::fixed::fx_neg_v;
use crate::fixed::fx_sub_v;
use crate::fixed::lemma_fx_mul_one;
use crate::fixed::lemma_isqrt_is;
use crate::fixed::lemma_sdiv_exact;
use crate::hittable::HitRecord;
use crate::hittable::Sphere;
use crate::hittable::sphere_hit_v;
use crate::material::Dielectric;
use crate::material::Material;
use crate::material::dielectric_scatter_v;
use crate::material::metal_new_v;
use crate::material::reflect_v;
use crate::material::refract_v;
use crate::ray::Ray;
use crate::vec3::Vec3;
use crate::vec3::fx_of;
use crate::vec3::v3;
use crate::vec3::v3_dot;
use crate::vec3::v3_neg;
use crate::vec3::v3_sub;

verus! {

/// An axial probe: a sphere at the origin of radius `r` (any whole multiple
/// of 1/256 up to 4), shot from `(0,0,5)` toward `(0,0,-1)`, is hit at
/// exactly `t = 5 - r`, at point `(0,0,r)`, with unit normal `(0,0,1)` —
/// whenever that `t` lies strictly inside the query interval.
pub proof fn lemma_sphere_axis_hit(r: Fx, m: Material, t_min: Fx, t_max: Fx)
    requires
        0 < r@,
        r@ % 256 == 0,
        r@ <= 262144,
        t_min@ < 327680 - r@,
        327680 - r@ < t_max@,
    ensures
        sphere_hit_v(
            Sphere { center: v3(0, 0, 0), radius: r, material: m },
            Ray { orig: v3(0, 0, 327680), dir: v3(0, 0, -65536) },
            t_min,
            t_max,
        ) == Some(
            HitRecord {
                t: fx_of(327680 - r@),
                point: v3(0, 0, r@),
                normal: v3(0, 0, FX_ONE as int),
                material: m,
            },
        ),
{
    let q = r@ / 256;
    vstd::arithmetic::div_mod::lemma_fundamental_div_mod(r@, 256);
    assert(r@ == 256 * q);

    let s = Sphere { center: v3(0, 0, 0), radius: r, material: m };
    let ray = Ray { orig: v3(0, 0, 327680), dir: v3(0, 0, -65536) };

    // the quadratic's coefficients
    assert(fx_mul_v(0, 0) == 0) by {
        lemma_sdiv_exact(0, FX_ONE as int);
    }
    assert(fx_mul_v(-65536, -65536) == 65536) by {
        lemma_sdiv_exact(65536, 65536);
        assert((-65536) * (-65536) == 65536 * 65536) by (nonlinear_arith);
    }
    assert(fx_mul_v(327680, -65536) == -327680) by {
        lemma_sdiv_exact(-327680, 65536);
        assert(327680 * (-65536) == (-327680) * 65536) by (nonlinear_arith);
    }
    assert(fx_mul_v(327680, 327680) == 1638400) by {
        lemma_sdiv_exact(1638400, 65536);
        assert(327680 * 327680 == 1638400 * 65536) by (nonlinear_arith);
    }
    let a = v3_dot(ray.dir, ray.dir);
    assert(a == 65536);
    let half_b = v3_dot(v3_sub(ray.orig, s.center), ray.dir);
    assert(half_b == -327680);

    // the radius squared is exact because r is a multiple of 1/256
    assert(r@ * r@ == (q * q) * 65536) by (nonlinear_arith)
        requires
            r@ == 256 * q;
    lemma_sdiv_exact(q * q, 65536);
    assert(0 < q <= 1024 && q * q <= 1048576) by (nonlinear_arith)
        requires
            r@ == 256 * q,
            0 < r@ <= 262144;
    assert(fx_mul_v(r@, r@) == q * q);

    let c = fx_sub_v(v3_dot(v3_sub(ray.orig, s.center), v3_sub(ray.orig, s.center)), q * q);
    assert(c == 1638400 - q * q);
    assert(fx_mul_v(65536, c) == c) by {
        lemma_fx_mul_one(c);
    }
    assert(fx_mul_v(-327680, -327680) == 1638400) by {
        lemma_sdiv_exact(1638400, 65536);
        assert((-327680) * (-327680) == 1638400 * 65536) by (nonlinear_arith);
    }
    let disc = fx_sub_v(1638400, c);
    assert(disc == q * q);
    assert(disc > 0) by (nonlinear_arith)
        requires
            q > 0,
            disc == q * q;

    // the square root is exact: disc * 65536 == r * r
    assert((q * q) * 65536 == r@ * r@);
    assert((r@ + 1) * (r@ + 1) > r@ * r@) by (nonlinear_arith)
        requires
            r@ > 0;
    assert(r@ * r@ <= r@ * r@);
    lemma_isqrt_is(r@ * r@, r@);
    assert(crate::fixed::fx_sqrt_v(disc) == r@);

    // the near root is 5 - r, accepted by the interval bounds
    assert(fx_neg_v(half_b) == 327680);
    assert(fx_sub_v(327680, r@) == 327680 - r@);
    lemma_sdiv_exact(327680 - r@, 65536);
    assert((327680 - r@) * 65536 == 65536 * (327680 - r@)) by (nonlinear_arith);
    assert(crate::fixed::fx_div_v(327680 - r@, 65536) == 327680 - r@);

    // the hit point is (0, 0, r) and the normal divides out to (0, 0, 1)
    lemma_fx_mul_one(327680 - r@);
    assert(fx_mul_v(-65536, 327680 - r@) == -(327680 - r@));
    lemma_sdiv_exact(0, r@);
    assert(0 * r@ == 0) by (nonlinear_arith);
    assert(crate::fixed::fx_div_v(0, r@) == 0);
    lemma_sdiv_exact(65536, r@);
    assert(r@ * 65536 == 65536 * r@) by (nonlinear_arith);
    assert(crate::fixed::fx_div_v(r@, r@) == 65536);
}

/// A query whose discriminant is not positive — in particular any ray
/// whose closest approach to the center stays outside the radius — reports
/// no hit, whatever the interval.
pub proof fn lemma_sphere_miss(s: Sphere, r: Ray, t_min: Fx, t_max: Fx)
    requires
        ({
            let oc = v3_sub(r.orig, s.center);
            let a = v3_dot(r.dir, r.dir);
            let half_b = v3_dot(oc, r.dir);
            let c = fx_sub_v(v3_dot(oc, oc), fx_mul_v(s.radius@, s.radius@));
            fx_sub_v(fx_mul_v(half_b, half_b), fx_mul_v(a, c)) <= 0
        }),
    ensures
        sphere_hit_v(s, r, t_min, t_max) is None,
{
}

proof fn lemma_sdiv_mono(n1: int, n2: int, d: int)
    requires
        n1 <= n2,
        d >= 0,
    ensures
        crate::fixed::sdiv(n1, d) <= crate::fixed::sdiv(n2, d),
{
    if d > 0 {
        vstd::arithmetic::div_mod::lemma_div_of0(d);
        if n1 >= 0 {
            vstd::arithmetic::div_mod::lemma_div_is_ordered(n1, n2, d);
        } else if n2 < 0 {
            vstd::arithmetic::div_mod::lemma_div_is_ordered(-n2, -n1, d);
        } else {
            vstd::arithmetic::div_mod::lemma_div_is_ordered(0, n2, d);
            vstd::arithmetic::div_mod::lemma_div_is_ordered(0, -n1, d);
        }
    }
}

proof fn lemma_fx_div_mono(n1: int, n2: int, d: int)
    requires
        n1 <= n2,
        d >= 0,
    ensures
        crate::fixed::fx_div_v(n1, d) <= crate::fixed::fx_div_v(n2, d),
{
    if d != 0 {
        lemma_sdiv_mono(n1 * (FX_ONE as int), n2 * (FX_ONE as int), d);
    }
}

proof fn lemma_square_nonneg(x: int)
    ensures
        fx_mul_v(x, x) >= 0,
{
    assert(x * x >= 0) by (nonlinear_arith);
    if x * x > 0 {
        vstd::arithmetic::div_mod::lemma_div_of0(FX_ONE as int);
        vstd::arithmetic::div_mod::lemma_div_is_ordered(0, x * x, FX_ONE as int);
    }
}

proof fn lemma_dot_self_nonneg(v: Vec3)
    ensures
        v3_dot(v, v) >= 0,
{
    lemma_square_nonneg(v.x@);
    lemma_square_nonneg(v.y@);
    lemma_square_nonneg(v.z@);
}

proof fn lemma_fx_sqrt_nonneg(a: int)
    ensures
        crate::fixed::fx_sqrt_v(a) >= 0,
{
    if a > 0 {
        crate::fixed::lemma_isqrt_bounds(a * (FX_ONE as int));
    }
}

/// A sphere's reported hit lies strictly inside the query interval, and
/// its parameter is the value stored in the record.
pub proof fn lemma_sphere_hit_in_interval(s: Sphere, r: Ray, lo: Fx, hi: Fx)
    ensures
        sphere_hit_v(s, r, lo, hi) matches Some(h) ==> lo@ < h.t@ < hi@,
{
}

/// Shrinking the upper cutoff never changes which hit a sphere reports:
/// a hit under the tighter cutoff is the hit under the looser one, and a
/// loose hit below the tighter cutoff survives the tightening.
pub proof fn lemma_sphere_hit_tighten(s: Sphere, r: Ray, t_min: Fx, t_max: Fx, closest: Fx)
    requires
        closest@ <= t_max@,
    ensures
        sphere_hit_v(s, r, t_min, closest) matches Some(h) ==> sphere_hit_v(s, r, t_min, t_max)
            == Some(h),
        sphere_hit_v(s, r, t_min, t_max) matches Some(h) ==> (h.t@ < closest@
            ==> sphere_hit_v(s, r, t_min, closest) == Some(h)),
{
    let oc = v3_sub(r.orig, s.center);
    let a = v3_dot(r.dir, r.dir);
    let half_b = v3_dot(oc, r.dir);
    let c = fx_sub_v(v3_dot(oc, oc), fx_mul_v(s.radius@, s.radius@));
    let disc = fx_sub_v(fx_mul_v(half_b, half_b), fx_mul_v(a, c));
    lemma_dot_self_nonneg(r.dir);
    if disc > 0 {
        let sq = crate::fixed::fx_sqrt_v(disc);
        lemma_fx_sqrt_nonneg(disc);
        let n0 = fx_sub_v(fx_neg_v(half_b), sq);
        let n1 = crate::fixed::fx_add_v(fx_neg_v(half_b), sq);
        assert(n0 <= n1);
        lemma_fx_div_mono(n0, n1, a);
    }
}

/// The scan's result is the globally closest hit: whenever sphere `i`
/// would report a hit on its own, the list reports one at most as far;
/// and whatever the list reports is exactly some sphere's own report.
/// `closest` and `best` carry the scan's state, as in `list_hit_v`.
pub proof fn lemma_list_hit_closest(
    objs: Seq<Sphere>,
    r: Ray,
    t_min: Fx,
    t_max: Fx,
    closest: Fx,
    best: Option<HitRecord>,
)
    requires
        closest@ <= t_max@,
        best matches Some(b) ==> b.t == closest,
        best is None ==> closest == t_max,
    ensures
        ({
            let res = crate::hittable::list_hit_v(objs, r, t_min, closest, best);
            &&& (best is Some ==> res is Some)
            &&& (res matches Some(rb) ==> (best matches Some(b) ==> rb.t@ <= b.t@))
            &&& forall|i: int|
                0 <= i < objs.len() ==> ((#[trigger] sphere_hit_v(objs[i], r, t_min, t_max))
                    matches Some(h) ==> res matches Some(rb) && rb.t@ <= h.t@)
            &&& (res matches Some(rb) ==> best == Some(rb) || exists|i: int|
                0 <= i < objs.len() && #[trigger] sphere_hit_v(objs[i], r, t_min, t_max) == Some(
                    rb,
                ))
        }),
    decreases objs.len(),
{
    let res = crate::hittable::list_hit_v(objs, r, t_min, closest, best);
    if objs.len() == 0 {
    } else {
        let s0 = objs[0];
        let rest = objs.drop_first();
        assert(forall|j: int| 0 <= j < rest.len() ==> rest[j] == objs[j + 1]);
        lemma_sphere_hit_tighten(s0, r, t_min, t_max, closest);
        lemma_sphere_hit_in_interval(s0, r, t_min, closest);
        lemma_sphere_hit_in_interval(s0, r, t_min, t_max);
        match sphere_hit_v(s0, r, t_min, closest) {
            Some(rec) => {
                assert(rec.t@ < closest@);
                assert(res == crate::hittable::list_hit_v(rest, r, t_min, rec.t, Some(rec)));
                lemma_list_hit_closest(rest, r, t_min, t_max, rec.t, Some(rec));
                assert(sphere_hit_v(s0, r, t_min, t_max) == Some(rec));
                assert(res is Some);
                let rb = res->Some_0;
                assert(rb.t@ <= rec.t@);
                assert forall|i: int|
                    0 <= i < objs.len() && (#[trigger] sphere_hit_v(objs[i], r, t_min, t_max))
                        is Some implies rb.t@ <= sphere_hit_v(objs[i], r, t_min, t_max)->Some_0.t@ by {
                    if i == 0 {
                    } else {
                        assert(rest[i - 1] == objs[i]);
                        assert(sphere_hit_v(rest[i - 1], r, t_min, t_max) is Some);
                    }
                }
                // the answer is some sphere's own report
                if rb == rec {
                    assert(sphere_hit_v(objs[0], r, t_min, t_max) == Some(rb));
                } else {
                    let j = choose|j: int|
                        0 <= j < rest.len() && #[trigger] sphere_hit_v(rest[j], r, t_min, t_max)
                            == Some(rb);
                    assert(sphere_hit_v(objs[j + 1], r, t_min, t_max) == Some(rb));
                }
            },
            None => {
                assert(res == crate::hittable::list_hit_v(rest, r, t_min, closest, best));
                lemma_list_hit_closest(rest, r, t_min, t_max, closest, best);
                assert forall|i: int|
                    0 <= i < objs.len() && (#[trigger] sphere_hit_v(objs[i], r, t_min, t_max))
                        is Some implies res is Some && res->Some_0.t@ <= sphere_hit_v(
                    objs[i],
                    r,
                    t_min,
                    t_max,
                )->Some_0.t@ by {
                    if i == 0 {
                        let h = sphere_hit_v(s0, r, t_min, t_max)->Some_0;
                        assert(h.t@ < t_max@);
                        if h.t@ < closest@ {
                            assert(sphere_hit_v(s0, r, t_min, closest) == Some(h));
                            assert(false);
                        }
                        match best {
                            Some(b) => {
                                assert(res is Some && res->Some_0.t@ <= b.t@);
                                assert(b.t@ == closest@ <= h.t@);
                            },
                            None => {
                                assert(closest == t_max);
                                assert(false);
                            },
                        }
                    } else {
                        assert(rest[i - 1] == objs[i]);
                        assert(sphere_hit_v(rest[i - 1], r, t_min, t_max) is Some);
                    }
                }
                match res {
                    Some(rb) => {
                        if best == Some(rb) {
                        } else {
                            let j = choose|j: int|
                                0 <= j < rest.len() && #[trigger] sphere_hit_v(
                                    rest[j],
                                    r,
                                    t_min,
                                    t_max,
                                ) == Some(rb);
                            assert(sphere_hit_v(objs[j + 1], r, t_min, t_max) == Some(rb));
                        }
                    },
                    None => {},
                }
            },
        }
    }
}

/// Closest-hit selection at the renderer's query: if any sphere of the
/// list reports a hit on its own, the list's answer exists and is at most
/// as far; and the answer is always some sphere's own report.
pub proof fn lemma_closest_hit_selection(objs: Seq<Sphere>, r: Ray, t_min: Fx, t_max: Fx)
    ensures
        forall|i: int|
            0 <= i < objs.len() ==> ((#[trigger] sphere_hit_v(objs[i], r, t_min, t_max))
                matches Some(h) ==> crate::hittable::list_hit_v(
                objs,
                r,
                t_min,
                t_max,
                None::<HitRecord>,
            ) matches Some(rb) && rb.t@ <= h.t@),
        crate::hittable::list_hit_v(objs, r, t_min, t_max, None::<HitRecord>) matches Some(rb)
            ==> exists|i: int|
            0 <= i < objs.len() && #[trigger] sphere_hit_v(objs[i], r, t_min, t_max) == Some(rb),
{
    lemma_list_hit_closest(objs, r, t_min, t_max, t_max, None::<HitRecord>);
}

/// Metal construction saturates its fuzz: any fuzz at or above 1 builds
/// the same metal as fuzz exactly 1, and any fuzz at or below 0 the same
/// metal as fuzz exactly 0 — so their scattering is identical too.
pub proof fn lemma_metal_fuzz_clamp(albedo: Vec3, f: Fx)
    ensures
        f@ >= FX_ONE as int ==> metal_new_v(albedo, f) == metal_new_v(albedo, Fx { raw: FX_ONE }),
        f@ <= 0 ==> metal_new_v(albedo, f) == metal_new_v(albedo, Fx { raw: 0 }),
{
}

/// Total internal reflection: when refraction through the outward normal
/// is geometrically impossible, a dielectric reflects — for every state of
/// the randomness stream, so with probability one.
pub proof fn lemma_dielectric_total_internal_reflection(
    d: Dielectric,
    ray_in: Ray,
    rec: HitRecord,
    s: int,
)
    requires
        ({
            let ddn = v3_dot(ray_in.dir, rec.normal);
            let outward_normal = if ddn > 0 {
                v3_neg(rec.normal)
            } else {
                rec.normal
            };
            let ni_over_nt = if ddn > 0 {
                d.ref_idx@
            } else {
                crate::fixed::fx_div_v(FX_ONE as int, d.ref_idx@)
            };
            refract_v(ray_in.dir, outward_normal, fx_of(ni_over_nt)) is None
        }),
    ensures
        dielectric_scatter_v(d, ray_in, rec, s).0 == Some(
            (
                v3(FX_ONE as int, FX_ONE as int, FX_ONE as int),
                Ray { orig: rec.point, dir: reflect_v(ray_in.dir, rec.normal) },
            ),
        ),
{
}

} // verus!
