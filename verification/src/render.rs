//! The integrator and the per-pixel sampling loop.
//!
//! `ray_color` is the recursive light-transport function with a hard depth
//! cutoff; a pixel averages jittered samples, gamma-corrects with a square
//! root per channel and quantizes to bytes.  A whole row is an exact
//! function of the camera, the scene and its seed, which is what makes
//! repeated renders byte-identical.

use vstd::prelude::*;

use crate::camera::Camera;
use crate::camera::get_ray_v;
use crate::fixed::FX_ONE;
use crate::fixed::Fx;
use crate::fixed::clip;
use crate::fixed::fx_add_v;
use crate::fixed::fx_div_v;
use crate::fixed::fx_mul_v;
use crate::fixed::fx_sqrt_v;
use crate::fixed::fx_sub_v;
use crate::hittable::HittableList;
use crate::hittable::Sphere;
use crate::hittable::T_MAX_RAW;
use crate::hittable::T_MIN_RAW;
use crate::hittable::list_hit_v;
use crate::material::scatter_v;
use crate::ray::Ray;
use crate::rng::Rng;
use crate::rng::lcg_next_v;
use crate::rng::unit_draw_v;
use crate::vec3::Vec3;
use crate::vec3::fx_of;
use crate::vec3::v3;
use crate::vec3::v3_add;
use crate::vec3::v3_div_s;
use crate::vec3::v3_mul;
use crate::vec3::v3_scale;
use crate::vec3::v3_unit;

verus! {

/// Hard recursion cutoff: at this depth a ray contributes black.
pub const MAX_DEPTH: u32 = 50;

pub open spec fn black_v() -> Vec3 {
    v3(0, 0, 0)
}

pub open spec fn white_v() -> Vec3 {
    v3(FX_ONE as int, FX_ONE as int, FX_ONE as int)
}

/// The zenith color of the background sky gradient (about 0.5, 0.7, 1.0).
pub open spec fn sky_blue_v() -> Vec3 {
    v3(32768, 45875, FX_ONE as int)
}

/// The background: white at the horizon blended toward sky blue at the
/// zenith by `t = (unit_dir.y + 1) / 2`.
pub open spec fn background_v(r: Ray) -> Vec3 {
    let unit_dir = v3_unit(r.dir);
    let t = fx_mul_v((FX_ONE as int) / 2, fx_add_v(unit_dir.y@, FX_ONE as int));
    v3_add(v3_scale(white_v(), fx_of(fx_sub_v(FX_ONE as int, t))), v3_scale(sky_blue_v(), fx_of(t)))
}

/// Mirror of `ray_color`: nearest hit in `(T_MIN, T_MAX)`, scatter, recurse
/// with the attenuation multiplied in; black at the depth cutoff or on
/// absorption; the sky gradient on escape.
pub open spec fn ray_color_v(r: Ray, objs: Seq<Sphere>, depth: nat, s: int) -> (Vec3, int)
    decreases MAX_DEPTH - depth,
{
    if depth >= MAX_DEPTH {
        (black_v(), s)
    } else {
        match list_hit_v(objs, r, Fx { raw: T_MIN_RAW }, Fx { raw: T_MAX_RAW }, None::<
            crate::hittable::HitRecord,
        >) {
            Some(rec) => {
                let (sc, s2) = scatter_v(rec.material, r, rec, s);
                match sc {
                    Some(ar) => {
                        let (col, s3) = ray_color_v(ar.1, objs, depth + 1, s2);
                        (v3_mul(ar.0, col), s3)
                    },
                    None => (black_v(), s2),
                }
            },
            None => (background_v(r), s),
        }
    }
}

/// Trace a ray through the scene, consuming randomness from the stream.
pub fn ray_color(ray: Ray, world: &HittableList, depth: u32, rng: &mut Rng) -> (col: Vec3)
    ensures
        ({
            let (c, s) = ray_color_v(ray, world.objects@, depth as nat, old(rng).state as int);
            col == c && final(rng).state as int == s
        }),
        depth >= MAX_DEPTH ==> col == black_v() && *final(rng) == *old(rng),
    decreases MAX_DEPTH - depth,
{
    if depth >= MAX_DEPTH {
        return Vec3::new(Fx { raw: 0 }, Fx { raw: 0 }, Fx { raw: 0 });
    }

    if let Some(rec) = world.hit(&ray, Fx { raw: T_MIN_RAW }, Fx { raw: T_MAX_RAW }) {
        if let Some((attenuation, scattered)) = rec.material.scatter(&ray, &rec, rng) {
            return attenuation.mul(ray_color(scattered, world, depth + 1, rng));
        } else {
            return Vec3::new(Fx { raw: 0 }, Fx { raw: 0 }, Fx { raw: 0 });
        }
    }

    let one = Fx { raw: FX_ONE };
    let half = Fx { raw: FX_ONE / 2 };
    let white = Vec3::new(one, one, one);
    let blue = Vec3::new(Fx { raw: 32768 }, Fx { raw: 45875 }, one);
    let unit_dir = Vec3::unit_vector(ray.direction());
    let t = half.mul(unit_dir.y.add(one));
    white.scale(one.sub(t)).add(blue.scale(t))
}

/// Channel clamp to `[0, 0.999]` before quantization (raw 65470).
pub open spec fn clamp_999_v(x: int) -> int {
    if x < 0 {
        0
    } else if x > 65470 {
        65470
    } else {
        x
    }
}

/// The 8-bit channel: `floor(255.99 * clamp(x))`, with 255.99 held as the
/// raw value 16776560.
pub open spec fn quantize_v(x: int) -> int {
    fx_mul_v(clamp_999_v(x), 16776560) / (FX_ONE as int)
}

/// Clamp a linear channel and quantize it to a byte.
pub fn clamp_u8(x: Fx) -> (r: u8)
    ensures
        r as int == quantize_v(x@),
{
    let c: u64 = if x.raw < 0 {
        0
    } else if x.raw > 65470 {
        65470
    } else {
        x.raw as u64
    };
    let y: u64 = (c * 16776560) / 65536;
    proof {
        vstd::arithmetic::div_mod::lemma_div_is_ordered(
            (c * 16776560) as int,
            (65470 * 16776560) as int,
            65536,
        );
        assert(fx_mul_v(clamp_999_v(x@), 16776560) == (c * 16776560) as int / 65536);
        vstd::arithmetic::div_mod::lemma_div_is_ordered(y as int, ((65470 * 16776560) as int) / 65536, 65536);
    }
    (y / 65536) as u8
}

/// A finished 8-bit RGBA pixel (alpha fixed at 255).
#[derive(Clone, Copy, Debug, PartialEq, Eq, Structural)]
pub struct Pixel {
    pub r: u8,
    pub g: u8,
    pub b: u8,
    pub a: u8,
}

pub open spec fn pixel_of_v(col: Vec3) -> Pixel {
    Pixel {
        r: quantize_v(col.x@) as u8,
        g: quantize_v(col.y@) as u8,
        b: quantize_v(col.z@) as u8,
        a: 255,
    }
}

/// Mirror of the sample-accumulation loop: each sample jitters the pixel's
/// normalized coordinates with two uniform draws, traces, and adds.
pub open spec fn pixel_samples_v(
    cam: Camera,
    objs: Seq<Sphere>,
    i: int,
    j: int,
    nx: int,
    ny: int,
    ns: nat,
    acc: Vec3,
    s: int,
) -> (Vec3, int)
    decreases ns,
{
    if ns == 0 {
        (acc, s)
    } else {
        let s1 = lcg_next_v(s);
        let u = fx_div_v(
            fx_add_v(clip(i * (FX_ONE as int)), unit_draw_v(s1)),
            clip(nx * (FX_ONE as int)),
        );
        let s2 = lcg_next_v(s1);
        let vv = fx_div_v(
            fx_add_v(clip(j * (FX_ONE as int)), unit_draw_v(s2)),
            clip(ny * (FX_ONE as int)),
        );
        let (r, s3) = get_ray_v(cam, fx_of(u), fx_of(vv), s2);
        let (col, s4) = ray_color_v(r, objs, 0, s3);
        pixel_samples_v(cam, objs, i, j, nx, ny, (ns - 1) as nat, v3_add(acc, col), s4)
    }
}

/// Mirror of a finished pixel color: the sample average, gamma-corrected
/// with a square root per channel.
pub open spec fn pixel_color_v(
    cam: Camera,
    objs: Seq<Sphere>,
    i: int,
    j: int,
    nx: int,
    ny: int,
    ns: nat,
    s: int,
) -> (Vec3, int) {
    let (acc, s2) = pixel_samples_v(cam, objs, i, j, nx, ny, ns, black_v(), s);
    let avg = v3_div_s(acc, fx_of(clip(ns * (FX_ONE as int))));
    (v3(fx_sqrt_v(avg.x@), fx_sqrt_v(avg.y@), fx_sqrt_v(avg.z@)), s2)
}

/// Trace all samples of one pixel and finish it to a gamma-corrected color.
pub fn render_pixel(
    cam: &Camera,
    world: &HittableList,
    i: u32,
    j: u32,
    nx: u32,
    ny: u32,
    ns: u32,
    rng: &mut Rng,
) -> (col: Vec3)
    ensures
        ({
            let (c, s) = pixel_color_v(
                *cam,
                world.objects@,
                i as int,
                j as int,
                nx as int,
                ny as int,
                ns as nat,
                old(rng).state as int,
            );
            col == c && final(rng).state as int == s
        }),
{
    let mut col = Vec3::new(Fx { raw: 0 }, Fx { raw: 0 }, Fx { raw: 0 });
    let mut k: u32 = 0;
    while k < ns
        invariant
            k <= ns,
            pixel_samples_v(
                *cam,
                world.objects@,
                i as int,
                j as int,
                nx as int,
                ny as int,
                ns as nat,
                black_v(),
                old(rng).state as int,
            ) == pixel_samples_v(
                *cam,
                world.objects@,
                i as int,
                j as int,
                nx as int,
                ny as int,
                (ns - k) as nat,
                col,
                rng.state as int,
            ),
        decreases ns - k,
    {
        let u = Fx::from_int(i as i64).add(rng.next_unit()).div(Fx::from_int(nx as i64));
        let v = Fx::from_int(j as i64).add(rng.next_unit()).div(Fx::from_int(ny as i64));
        let r = cam.get_ray(u, v, rng);
        col = col.add(ray_color(r, world, 0, rng));
        k = k + 1;
    }
    let avg = col.div_s(Fx::from_int(ns as i64));
    Vec3::new(avg.x.sqrt(), avg.y.sqrt(), avg.z.sqrt())
}

/// The remaining pixels of a row from column `i` on, as a function of the
/// stream state entering that column.
pub open spec fn row_pixels_v(
    cam: Camera,
    objs: Seq<Sphere>,
    j: int,
    nx: int,
    ny: int,
    ns: nat,
    i: int,
    s: int,
) -> Seq<Pixel>
    decreases nx - i,
{
    if i >= nx {
        Seq::empty()
    } else {
        let (col, s2) = pixel_color_v(cam, objs, i, j, nx, ny, ns, s);
        seq![pixel_of_v(col)] + row_pixels_v(cam, objs, j, nx, ny, ns, i + 1, s2)
    }
}

/// Render one image row from its own seed.  The row is an exact function
/// of its arguments, so a fixed seed yields byte-identical pixels.
#[verifier::rlimit(100)]
pub fn render_row(
    cam: &Camera,
    world: &HittableList,
    j: u32,
    nx: u32,
    ny: u32,
    ns: u32,
    seed: u64,
) -> (row: Vec<Pixel>)
    ensures
        row@ == row_pixels_v(
            *cam,
            world.objects@,
            j as int,
            nx as int,
            ny as int,
            ns as nat,
            0,
            seed as int,
        ),
        row@.len() == nx as int,
{
    let mut rng = Rng::new(seed);
    let mut row: Vec<Pixel> = Vec::new();
    let mut i: u32 = 0;
    while i < nx
        invariant
            i <= nx,
            row@.len() == i as int,
            row@ + row_pixels_v(
                *cam,
                world.objects@,
                j as int,
                nx as int,
                ny as int,
                ns as nat,
                i as int,
                rng.state as int,
            ) == row_pixels_v(
                *cam,
                world.objects@,
                j as int,
                nx as int,
                ny as int,
                ns as nat,
                0,
                seed as int,
            ),
        decreases nx - i,
    {
        let ghost prev = row@;
        let col = render_pixel(cam, world, i, j, nx, ny, ns, &mut rng);
        let px = Pixel { r: clamp_u8(col.r()), g: clamp_u8(col.g()), b: clamp_u8(col.b()), a: 255 };
        proof {
            let rest = row_pixels_v(
                *cam,
                world.objects@,
                j as int,
                nx as int,
                ny as int,
                ns as nat,
                i as int + 1,
                rng.state as int,
            );
            assert(prev + (seq![px] + rest) =~= prev.push(px) + rest);
        }
        row.push(px);
        i = i + 1;
    }
    proof {
        assert(row@ + Seq::<Pixel>::empty() =~= row@);
    }
    row
}

/// The seed a row derives from the render's base seed.
pub open spec fn row_seed_v(base: int, j: int) -> int {
    (base + j * 0x9E37_79B9_7F4A_7C15) % 0x1_0000_0000_0000_0000
}

pub fn row_seed(base: u64, j: u32) -> (r: u64)
    ensures
        r as int == row_seed_v(base as int, j as int),
{
    let p: u128 = (base as u128) + (j as u128) * 0x9E37_79B9_7F4A_7C15u128;
    (p % 0x1_0000_0000_0000_0000u128) as u64
}

/// The image rows from image row `jj` down: image row `jj` holds world
/// row `ny - 1 - jj`, each rendered from its own derived seed.
pub open spec fn image_rows_v(
    cam: Camera,
    objs: Seq<Sphere>,
    jj: int,
    nx: int,
    ny: int,
    ns: nat,
    seed: int,
) -> Seq<Pixel>
    decreases ny - jj,
{
    if jj >= ny {
        Seq::empty()
    } else {
        row_pixels_v(cam, objs, ny - 1 - jj, nx, ny, ns, 0, row_seed_v(seed, ny - 1 - jj))
            + image_rows_v(cam, objs, jj + 1, nx, ny, ns, seed)
    }
}

pub proof fn lemma_row_pixels_len(
    cam: Camera,
    objs: Seq<Sphere>,
    j: int,
    nx: int,
    ny: int,
    ns: nat,
    i: int,
    s: int,
)
    requires
        0 <= i <= nx,
    ensures
        row_pixels_v(cam, objs, j, nx, ny, ns, i, s).len() == nx - i,
    decreases nx - i,
{
    if i < nx {
        let (col, s2) = pixel_color_v(cam, objs, i, j, nx, ny, ns, s);
        lemma_row_pixels_len(cam, objs, j, nx, ny, ns, i + 1, s2);
    }
}

pub proof fn lemma_image_rows_len(
    cam: Camera,
    objs: Seq<Sphere>,
    jj: int,
    nx: int,
    ny: int,
    ns: nat,
    seed: int,
)
    requires
        0 <= jj <= ny,
        0 <= nx,
    ensures
        image_rows_v(cam, objs, jj, nx, ny, ns, seed).len() == (ny - jj) * nx,
    decreases ny - jj,
{
    if jj < ny {
        lemma_row_pixels_len(cam, objs, ny - 1 - jj, nx, ny, ns, 0, row_seed_v(seed, ny - 1 - jj));
        lemma_image_rows_len(cam, objs, jj + 1, nx, ny, ns, seed);
        assert((ny - jj) * nx == nx + (ny - jj - 1) * nx) by (nonlinear_arith);
    } else {
        assert((ny - jj) * nx == 0) by (nonlinear_arith)
            requires
                jj == ny;
    }
}

/// Append a finished row onto the image buffer.
fn append_row(img: &mut Vec<Pixel>, row: &Vec<Pixel>)
    ensures
        final(img)@ == old(img)@ + row@,
{
    let ghost prev = img@;
    let mut k: usize = 0;
    while k < row.len()
        invariant
            k <= row.len(),
            img@ == prev + row@.take(k as int),
        decreases row.len() - k,
    {
        proof {
            assert(prev + row@.take(k as int + 1) =~= (prev + row@.take(k as int)).push(
                row@[k as int],
            ));
        }
        img.push(row[k]);
        k = k + 1;
    }
    proof {
        assert(prev + row@.take(row@.len() as int) =~= prev + row@);
    }
}

/// Render the full image, row-major, top row first (world rows are laid
/// out bottom-to-top, so image row `jj` holds world row `ny - 1 - jj`).
#[verifier::rlimit(100)]
pub fn render_image(
    cam: &Camera,
    world: &HittableList,
    nx: u32,
    ny: u32,
    ns: u32,
    seed: u64,
) -> (img: Vec<Pixel>)
    ensures
        img@ == image_rows_v(
            *cam,
            world.objects@,
            0,
            nx as int,
            ny as int,
            ns as nat,
            seed as int,
        ),
        img@.len() == (ny as int) * (nx as int),
{
    let mut img: Vec<Pixel> = Vec::new();
    let mut jj: u32 = 0;
    while jj < ny
        invariant
            jj <= ny,
            img@ + image_rows_v(
                *cam,
                world.objects@,
                jj as int,
                nx as int,
                ny as int,
                ns as nat,
                seed as int,
            ) == image_rows_v(
                *cam,
                world.objects@,
                0,
                nx as int,
                ny as int,
                ns as nat,
                seed as int,
            ),
        decreases ny - jj,
    {
        let j = ny - 1 - jj;
        let row = render_row(cam, world, j, nx, ny, ns, row_seed(seed, j));
        proof {
            let rest = image_rows_v(
                *cam,
                world.objects@,
                jj as int + 1,
                nx as int,
                ny as int,
                ns as nat,
                seed as int,
            );
            assert(img@ + (row@ + rest) =~= (img@ + row@) + rest);
        }
        append_row(&mut img, &row);
        jj = jj + 1;
    }
    proof {
        assert(img@ + Seq::<Pixel>::empty() =~= img@);
        lemma_image_rows_len(
            *cam,
            world.objects@,
            0,
            nx as int,
            ny as int,
            ns as nat,
            seed as int,
        );
    }
    img
}

} // verus!
