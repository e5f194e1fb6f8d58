//! The procedural demo scene: a large ground sphere, a 22x22 grid of small
//! randomly placed and randomly surfaced spheres avoiding the three hero
//! positions, and three fixed hero spheres (glass, diffuse, metal).
//!
//! The whole scene is an exact function of the randomness stream's state,
//! so a fixed seed reproduces it sphere for sphere.

use vstd::prelude::*;

use crate::fixed::Fx;
use crate::fixed::clip;
use crate::fixed::fx_add_v;
use crate::fixed::fx_mul_v;
use crate::hittable::HittableList;
use crate::hittable::Sphere;
use crate::material::Dielectric;
use crate::material::Lambertian;
use crate::material::Material;
use crate::material::Metal;
use crate::rng::Rng;
use crate::rng::lcg_next_v;
use crate::rng::unit_draw_v;
use crate::vec3::Vec3;
use crate::vec3::v3;
use crate::vec3::v3_length;
use crate::vec3::v3_sub;

verus! {

/// The grid is 22 cells on each side.
pub const GRID_SIDE: u32 = 22;

/// All grid cells: 22 * 22.
pub const GRID_CELLS: u32 = 484;

pub open spec fn ground_sphere_v() -> Sphere {
    Sphere {
        center: v3(0, -65536000, 0),
        radius: Fx { raw: 65536000 },
        material: Material::Lambertian(Lambertian { albedo: v3(32768, 32768, 32768) }),
    }
}

pub open spec fn hero_glass_v() -> Sphere {
    Sphere {
        center: v3(0, 65536, 0),
        radius: Fx { raw: 65536 },
        material: Material::Dielectric(Dielectric { ref_idx: Fx { raw: 98304 } }),
    }
}

pub open spec fn hero_diffuse_v() -> Sphere {
    Sphere {
        center: v3(-262144, 65536, 0),
        radius: Fx { raw: 65536 },
        material: Material::Lambertian(Lambertian { albedo: v3(26214, 13107, 6553) }),
    }
}

pub open spec fn hero_metal_v() -> Sphere {
    Sphere {
        center: v3(262144, 65536, 0),
        radius: Fx { raw: 65536 },
        material: Material::Metal(Metal { albedo: v3(45875, 39321, 32768), fuzz: Fx { raw: 0 } }),
    }
}

/// One grid cell: a material-choice draw and two jitter draws place a
/// candidate center; cells too close to the hero position at (4, 0.2, 0)
/// stay empty; otherwise the material is diffuse (below 0.8), metal
/// (below 0.95) or glass, with the draws each consumes.
pub open spec fn cell_one_v(k: int, s: int) -> (Option<Sphere>, int) {
    let a = k / (GRID_SIDE as int) - 11;
    let b = k % (GRID_SIDE as int) - 11;
    let s1 = lcg_next_v(s);
    let choose = unit_draw_v(s1);
    let s2 = lcg_next_v(s1);
    let cx = fx_add_v(clip(a * 65536), fx_mul_v(58982, unit_draw_v(s2)));
    let s3 = lcg_next_v(s2);
    let cz = fx_add_v(clip(b * 65536), fx_mul_v(58982, unit_draw_v(s3)));
    let center = v3(cx, 13107, cz);
    if v3_length(v3_sub(center, v3(262144, 13107, 0))) > 58982 {
        if choose < 52428 {
            let s4 = lcg_next_v(s3);
            let s5 = lcg_next_v(s4);
            let s6 = lcg_next_v(s5);
            let s7 = lcg_next_v(s6);
            let s8 = lcg_next_v(s7);
            let s9 = lcg_next_v(s8);
            let albedo = v3(
                fx_mul_v(unit_draw_v(s4), unit_draw_v(s5)),
                fx_mul_v(unit_draw_v(s6), unit_draw_v(s7)),
                fx_mul_v(unit_draw_v(s8), unit_draw_v(s9)),
            );
            (
                Some(
                    Sphere {
                        center,
                        radius: Fx { raw: 13107 },
                        material: Material::Lambertian(Lambertian { albedo }),
                    },
                ),
                s9,
            )
        } else if choose < 62259 {
            let s4 = lcg_next_v(s3);
            let s5 = lcg_next_v(s4);
            let s6 = lcg_next_v(s5);
            let albedo = v3(
                fx_mul_v(32768, fx_add_v(65536, unit_draw_v(s4))),
                fx_mul_v(32768, fx_add_v(65536, unit_draw_v(s5))),
                fx_mul_v(32768, fx_add_v(65536, unit_draw_v(s6))),
            );
            (
                Some(
                    Sphere {
                        center,
                        radius: Fx { raw: 13107 },
                        material: Material::Metal(Metal { albedo, fuzz: Fx { raw: 6553 } }),
                    },
                ),
                s6,
            )
        } else {
            (
                Some(
                    Sphere {
                        center,
                        radius: Fx { raw: 13107 },
                        material: Material::Dielectric(Dielectric { ref_idx: Fx { raw: 98304 } }),
                    },
                ),
                s3,
            )
        }
    } else {
        (None, s3)
    }
}

/// The small spheres of the cells from `k` on, with the stream state the
/// last cell leaves behind.
pub open spec fn cell_spheres_v(k: int, s: int) -> (Seq<Sphere>, int)
    decreases GRID_CELLS - k,
{
    if k < 0 || k >= GRID_CELLS {
        (Seq::empty(), s)
    } else {
        let (o, s2) = cell_one_v(k, s);
        let (rest, sf) = cell_spheres_v(k + 1, s2);
        (
            match o {
                Some(sph) => seq![sph] + rest,
                None => rest,
            },
            sf,
        )
    }
}

/// The whole scene: ground, then the grid cells in order, then the three
/// hero spheres.
pub open spec fn scene_objs_v(s: int) -> (Seq<Sphere>, int) {
    let (cells, s2) = cell_spheres_v(0, s);
    (
        seq![ground_sphere_v()] + cells + seq![hero_glass_v(), hero_diffuse_v(), hero_metal_v()],
        s2,
    )
}

/// One cell of the grid, consuming the cell's draws from the stream.
fn cell_sphere(k: u32, rng: &mut Rng) -> (res: Option<Sphere>)
    requires
        k < GRID_CELLS,
    ensures
        ({
            let (o, s) = cell_one_v(k as int, old(rng).state as int);
            res == o && final(rng).state as int == s
        }),
{
    let a: i64 = (k / GRID_SIDE) as i64 - 11;
    let b: i64 = (k % GRID_SIDE) as i64 - 11;
    let nine_tenths = Fx { raw: 58982 };
    let choose_mat = rng.next_unit();
    let cx = Fx::from_int(a).add(nine_tenths.mul(rng.next_unit()));
    let cz = Fx::from_int(b).add(nine_tenths.mul(rng.next_unit()));
    let center = Vec3::new(cx, Fx { raw: 13107 }, cz);

    if nine_tenths.lt(center.sub(Vec3::new(Fx { raw: 262144 }, Fx { raw: 13107 }, Fx { raw: 0 })).length()) {
        if choose_mat.raw < 52428 {
            let ax = rng.next_unit().mul(rng.next_unit());
            let ay = rng.next_unit().mul(rng.next_unit());
            let az = rng.next_unit().mul(rng.next_unit());
            let albedo = Vec3::new(ax, ay, az);
            Some(
                Sphere::new(
                    center,
                    Fx { raw: 13107 },
                    Material::Lambertian(Lambertian::new(albedo)),
                ),
            )
        } else if choose_mat.raw < 62259 {
            let half = Fx { raw: 32768 };
            let one = Fx { raw: 65536 };
            let ax = half.mul(one.add(rng.next_unit()));
            let ay = half.mul(one.add(rng.next_unit()));
            let az = half.mul(one.add(rng.next_unit()));
            let albedo = Vec3::new(ax, ay, az);
            Some(
                Sphere::new(
                    center,
                    Fx { raw: 13107 },
                    Material::Metal(Metal::new(albedo, Fx { raw: 6553 })),
                ),
            )
        } else {
            Some(
                Sphere::new(
                    center,
                    Fx { raw: 13107 },
                    Material::Dielectric(Dielectric::new(Fx { raw: 98304 })),
                ),
            )
        }
    } else {
        None
    }
}

/// Build the demo scene from the stream.
#[verifier::rlimit(100)]
pub fn random_scene(rng: &mut Rng) -> (world: HittableList)
    ensures
        ({
            let (objs, s) = scene_objs_v(old(rng).state as int);
            world.objects@ == objs && final(rng).state as int == s
        }),
{
    let mut objs: Vec<Sphere> = Vec::new();
    objs.push(
        Sphere::new(
            Vec3::new(Fx { raw: 0 }, Fx { raw: -65536000 }, Fx { raw: 0 }),
            Fx { raw: 65536000 },
            Material::Lambertian(Lambertian::new(Vec3::new(
                Fx { raw: 32768 },
                Fx { raw: 32768 },
                Fx { raw: 32768 },
            ))),
        ),
    );

    let ghost s0 = rng.state as int;
    let mut k: u32 = 0;
    while k < GRID_CELLS
        invariant
            k <= GRID_CELLS,
            ({
                let (cells, sf) = cell_spheres_v(0, s0);
                let (rest, sf2) = cell_spheres_v(k as int, rng.state as int);
                objs@ + rest == seq![ground_sphere_v()] + cells && sf == sf2
            }),
        decreases GRID_CELLS - k,
    {
        proof {
            let (o, s2) = cell_one_v(k as int, rng.state as int);
            let (rest2, sf3) = cell_spheres_v(k as int + 1, s2);
            match o {
                Some(sph) => {
                    assert(objs@ + (seq![sph] + rest2) =~= objs@.push(sph) + rest2);
                },
                None => {},
            }
        }
        if let Some(sph) = cell_sphere(k, rng) {
            objs.push(sph);
        }
        k = k + 1;
    }
    proof {
        let (cells, sf) = cell_spheres_v(0, s0);
        assert(objs@ + Seq::<Sphere>::empty() =~= objs@);
        assert(objs@ == seq![ground_sphere_v()] + cells);
    }

    let ghost before_heroes = objs@;
    objs.push(
        Sphere::new(
            Vec3::new(Fx { raw: 0 }, Fx { raw: 65536 }, Fx { raw: 0 }),
            Fx { raw: 65536 },
            Material::Dielectric(Dielectric::new(Fx { raw: 98304 })),
        ),
    );
    objs.push(
        Sphere::new(
            Vec3::new(Fx { raw: -262144 }, Fx { raw: 65536 }, Fx { raw: 0 }),
            Fx { raw: 65536 },
            Material::Lambertian(Lambertian::new(Vec3::new(
                Fx { raw: 26214 },
                Fx { raw: 13107 },
                Fx { raw: 6553 },
            ))),
        ),
    );
    objs.push(
        Sphere::new(
            Vec3::new(Fx { raw: 262144 }, Fx { raw: 65536 }, Fx { raw: 0 }),
            Fx { raw: 65536 },
            Material::Metal(Metal::new(Vec3::new(
                Fx { raw: 45875 },
                Fx { raw: 39321 },
                Fx { raw: 32768 },
            ), Fx { raw: 0 })),
        ),
    );
    proof {
        assert(objs@ =~= before_heroes + seq![hero_glass_v(), hero_diffuse_v(), hero_metal_v()]);
    }
    HittableList::with(objs)
}

} // verus!
