use rtt::camera::Camera;
use rtt::fixed::Fx;
use rtt::fixed::FX_ONE;
use rtt::hittable::HitRecord;
use rtt::hittable::HittableList;
use rtt::hittable::Sphere;
use rtt::material::Dielectric;
use rtt::material::Lambertian;
use rtt::material::Material;
use rtt::material::Metal;
use rtt::material::random_in_unit_sphere;
use rtt::material::reflect;
use rtt::material::refract;
use rtt::material::schlick;
use rtt::ray::Ray;
use rtt::render::clamp_u8;
use rtt::render::ray_color;
use rtt::render::render_image;
use rtt::render::render_row;
use rtt::render::row_seed;
use rtt::render::Pixel;
use rtt::rng::Rng;
use rtt::scene::random_scene;
use rtt::vec3::Vec3;

fn fx(raw: i64) -> Fx {
    Fx { raw }
}

fn v(x: i64, y: i64, z: i64) -> Vec3 {
    Vec3::new(fx(x), fx(y), fx(z))
}

fn gray() -> Material {
    Material::Lambertian(Lambertian::new(v(32768, 32768, 32768)))
}

fn axis_probe() -> Ray {
    // from (0,0,5) aimed at (0,0,-1)
    Ray::new(v(0, 0, 5 * FX_ONE), v(0, 0, -FX_ONE))
}

#[test]
fn sphere_axis_hit_lands_at_five_minus_r() {
    let s = Sphere::new(v(0, 0, 0), fx(FX_ONE), gray());
    let rec = s.hit(&axis_probe(), fx(66), fx(1000 * FX_ONE)).expect("must hit");
    assert_eq!(rec.t.raw, 4 * FX_ONE);
    assert_eq!(rec.point, v(0, 0, FX_ONE));
    assert_eq!(rec.normal, v(0, 0, FX_ONE));
}

#[test]
fn sphere_miss_when_closest_approach_exceeds_radius() {
    let s = Sphere::new(v(0, 0, 0), fx(FX_ONE), gray());
    // the ray passes 2 units above a unit sphere
    let r = Ray::new(v(0, 2 * FX_ONE, 5 * FX_ONE), v(0, 0, -FX_ONE));
    assert!(s.hit(&r, fx(66), fx(1000 * FX_ONE)).is_none());
}

#[test]
fn interval_bounds_are_strictly_exclusive() {
    let s = Sphere::new(v(0, 0, 0), fx(FX_ONE), gray());
    let r = axis_probe();
    // the near root is exactly 4; with t_max == 4 both roots are rejected
    assert!(s.hit(&r, fx(66), fx(4 * FX_ONE)).is_none());
    // with t_min == 4 the near root is rejected, the far root (t = 6) accepted
    let rec = s.hit(&r, fx(4 * FX_ONE), fx(1000 * FX_ONE)).expect("far root");
    assert_eq!(rec.t.raw, 6 * FX_ONE);
    // with the interval pinched between the roots, nothing qualifies
    assert!(s.hit(&r, fx(4 * FX_ONE), fx(6 * FX_ONE)).is_none());
}

#[test]
fn hittable_list_returns_the_closest_hit_in_any_order() {
    let far = Sphere::new(v(0, 0, 0), fx(FX_ONE), gray());
    let near = Sphere::new(v(0, 0, 2 * FX_ONE), fx(FX_ONE), gray());
    let r = axis_probe();
    for world in [
        HittableList::with(vec![far, near]),
        HittableList::with(vec![near, far]),
    ] {
        let rec = world.hit(&r, fx(66), fx(1000 * FX_ONE)).expect("must hit");
        assert_eq!(rec.t.raw, 2 * FX_ONE);
    }
}

#[test]
fn lambertian_always_scatters_with_its_albedo() {
    let albedo = v(26214, 13107, 6553);
    let mat = Lambertian::new(albedo);
    let rec = HitRecord {
        t: fx(FX_ONE),
        point: v(0, 0, FX_ONE),
        normal: v(0, 0, FX_ONE),
        material: Material::Lambertian(mat),
    };
    let r = axis_probe();
    for seed in 0..40u64 {
        let mut rng = Rng::new(seed);
        let (attenuation, _scattered) = mat.scatter(&r, &rec, &mut rng).expect("always scatters");
        assert_eq!(attenuation, albedo);
    }
}

#[test]
fn metal_fuzz_is_clamped_to_the_unit_interval() {
    let albedo = v(45875, 39321, 32768);
    // 1.5 behaves as 1.0
    assert_eq!(Metal::new(albedo, fx(98304)), Metal::new(albedo, fx(FX_ONE)));
    // -0.3 behaves as 0.0
    assert_eq!(Metal::new(albedo, fx(-19661)), Metal::new(albedo, fx(0)));
    assert_eq!(Metal::new(albedo, fx(98304)).fuzz.raw, FX_ONE);
    assert_eq!(Metal::new(albedo, fx(-19661)).fuzz.raw, 0);
    assert_eq!(Metal::new(albedo, fx(6553)).fuzz.raw, 6553);
}

#[test]
fn metal_reflects_forward_and_absorbs_backward() {
    let m = Metal::new(v(45875, 39321, 32768), fx(0));
    let normal = v(0, 0, FX_ONE);
    let rec = HitRecord {
        t: fx(FX_ONE),
        point: v(0, 0, 0),
        normal,
        material: Material::Metal(m),
    };
    let mut rng = Rng::new(3);
    // head-on from the front: reflected straight back, kept
    let front = Ray::new(v(0, 0, 5 * FX_ONE), v(0, 0, -FX_ONE));
    let (_, scattered) = m.scatter(&front, &rec, &mut rng).expect("kept");
    assert_eq!(scattered.direction(), v(0, 0, FX_ONE));
    // from behind the surface the reflection points inward and is absorbed
    let back = Ray::new(v(0, 0, -5 * FX_ONE), v(0, 0, FX_ONE));
    assert!(m.scatter(&back, &rec, &mut rng).is_none());
}

#[test]
fn dielectric_total_internal_reflection_never_transmits() {
    let glass = Dielectric::new(fx(98304));
    let normal = v(0, 0, FX_ONE);
    let rec = HitRecord {
        t: fx(FX_ONE),
        point: v(0, 0, 0),
        normal,
        material: Material::Dielectric(glass),
    };
    // grazing exit from inside the glass: beyond the critical angle
    let inside = Ray::new(v(0, 0, -FX_ONE), v(FX_ONE, 0, 19661));
    let expected = reflect(inside.direction(), normal);
    assert_eq!(expected, v(FX_ONE, 0, -19661));
    for seed in 0..100u64 {
        let mut rng = Rng::new(seed);
        let (attenuation, scattered) = glass.scatter(&inside, &rec, &mut rng).expect("scatters");
        assert_eq!(attenuation, v(FX_ONE, FX_ONE, FX_ONE));
        assert_eq!(scattered.direction(), expected, "transmitted at seed {seed}");
    }
}

#[test]
fn refract_passes_straight_through_at_normal_incidence() {
    let out = refract(v(0, 0, -FX_ONE), v(0, 0, FX_ONE), fx(FX_ONE)).expect("no reflection");
    assert_eq!(out, v(0, 0, -FX_ONE));
}

#[test]
fn schlick_reflectance_endpoints() {
    // grazing incidence reflects fully
    assert_eq!(schlick(fx(0), fx(98304)).raw, FX_ONE);
    // head-on incidence leaves only r0 = ((1-1.5)/(1+1.5))^2, about 0.04
    assert_eq!(schlick(fx(FX_ONE), fx(98304)).raw, 2621);
}

#[test]
fn reflect_mirrors_about_the_normal() {
    assert_eq!(reflect(v(0, 0, -FX_ONE), v(0, 0, FX_ONE)), v(0, 0, FX_ONE));
    assert_eq!(reflect(v(FX_ONE, 0, -FX_ONE), v(0, 0, FX_ONE)), v(FX_ONE, 0, FX_ONE));
}

#[test]
fn unit_sphere_samples_stay_inside_the_ball() {
    for seed in 0..50u64 {
        let mut rng = Rng::new(seed);
        let p = random_in_unit_sphere(&mut rng);
        assert!(p.length_squared().raw < FX_ONE);
    }
}

#[test]
fn sky_straight_up_is_the_zenith_color() {
    let empty = HittableList::new();
    let mut rng = Rng::new(0);
    let up = Ray::new(v(0, 0, 0), v(0, FX_ONE, 0));
    let col = ray_color(up, &empty, 0, &mut rng);
    assert_eq!(col, v(32768, 45875, FX_ONE));
    // the background consumes no randomness
    assert_eq!(rng.state, 0);
}

#[test]
fn zenith_pixel_quantizes_to_its_exact_bytes() {
    // a degenerate camera whose every ray points straight up
    let cam = Camera::new(
        v(0, 0, 0),
        v(0, FX_ONE, 0),
        v(0, 0, FX_ONE),
        fx(0),
        fx(FX_ONE),
        fx(0),
        fx(FX_ONE),
    );
    let empty = HittableList::new();
    let row = render_row(&cam, &empty, 0, 1, 1, 4, 99);
    assert_eq!(row.len(), 1);
    assert_eq!(row[0], Pixel { r: 181, g: 214, b: 255, a: 255 });
}

#[test]
fn gamma_quantization_bytes() {
    assert_eq!(clamp_u8(fx(0)), 0);
    assert_eq!(clamp_u8(fx(-5)), 0);
    assert_eq!(clamp_u8(fx(FX_ONE)), 255);
    assert_eq!(clamp_u8(fx(2 * FX_ONE)), 255);
    assert_eq!(clamp_u8(fx(46340)), 181);
    assert_eq!(clamp_u8(fx(54831)), 214);
}

#[test]
fn depth_cutoff_returns_black_and_draws_nothing() {
    let mut world = HittableList::new();
    world.add(Sphere::new(v(0, 0, 0), fx(10 * FX_ONE), gray()));
    let r = Ray::new(v(0, 0, 0), v(0, 0, FX_ONE));
    for depth in [50u32, 51, 1000] {
        let mut rng = Rng::new(123);
        let col = ray_color(r, &world, depth, &mut rng);
        assert_eq!(col, v(0, 0, 0));
        assert_eq!(rng.state, 123);
    }
}

#[test]
fn bouncing_inside_a_mirror_terminates_black() {
    // a fully mirrored enclosure: the ray can never escape
    let mirror = Material::Metal(Metal::new(v(FX_ONE, FX_ONE, FX_ONE), fx(0)));
    let world = HittableList::with(vec![Sphere::new(v(0, 0, 0), fx(10 * FX_ONE), mirror)]);
    let mut rng = Rng::new(7);
    let col = ray_color(Ray::new(v(0, 0, 0), v(0, 0, FX_ONE)), &world, 0, &mut rng);
    assert_eq!(col, v(0, 0, 0));
}

#[test]
fn renders_are_byte_identical_under_a_fixed_seed() {
    let mut world = HittableList::new();
    world.add(Sphere::new(v(0, 0, -131072), fx(FX_ONE), gray()));
    world.add(
        Sphere::new(v(0, -65536000, 0), fx(65536000 - FX_ONE), gray()),
    );
    let cam = Camera::new(
        v(0, 0, 5 * FX_ONE),
        v(0, 0, 0),
        v(0, FX_ONE, 0),
        fx(24000),
        fx(FX_ONE),
        fx(6553),
        fx(5 * FX_ONE),
    );
    let a = render_row(&cam, &world, 1, 4, 4, 3, 555);
    let b = render_row(&cam, &world, 1, 4, 4, 3, 555);
    assert_eq!(a, b);
    let img1 = render_image(&cam, &world, 3, 2, 2, 777);
    let img2 = render_image(&cam, &world, 3, 2, 2, 777);
    assert_eq!(img1, img2);
}

#[test]
fn image_rows_are_rendered_bottom_up_and_flipped() {
    let world = HittableList::new();
    let cam = Camera::new(
        v(0, 0, 5 * FX_ONE),
        v(0, 0, 0),
        v(0, FX_ONE, 0),
        fx(24000),
        fx(FX_ONE),
        fx(0),
        fx(5 * FX_ONE),
    );
    let img = render_image(&cam, &world, 2, 2, 1, 42);
    assert_eq!(img.len(), 4);
    // image row 0 is world row 1, rendered from that row's derived seed
    let top = render_row(&cam, &world, 1, 2, 2, 1, row_seed(42, 1));
    let bottom = render_row(&cam, &world, 0, 2, 2, 1, row_seed(42, 0));
    assert_eq!(&img[0..2], &top[..]);
    assert_eq!(&img[2..4], &bottom[..]);
}

#[test]
fn scene_is_deterministic_with_ground_and_heroes() {
    let mut r1 = Rng::new(11);
    let w1 = random_scene(&mut r1);
    let mut r2 = Rng::new(11);
    let w2 = random_scene(&mut r2);
    assert_eq!(w1.objects, w2.objects);
    assert_eq!(r1.state, r2.state);

    let n = w1.objects.len();
    assert!((4..=488).contains(&n));
    let ground = &w1.objects[0];
    assert_eq!(ground.center, v(0, -65536000, 0));
    assert_eq!(ground.radius.raw, 65536000);
    let glass = &w1.objects[n - 3];
    assert_eq!(glass.center, v(0, FX_ONE, 0));
    assert_eq!(
        glass.material,
        Material::Dielectric(Dielectric::new(fx(98304)))
    );
    let diffuse = &w1.objects[n - 2];
    assert_eq!(diffuse.center, v(-4 * FX_ONE, FX_ONE, 0));
    assert_eq!(
        diffuse.material,
        Material::Lambertian(Lambertian::new(v(26214, 13107, 6553)))
    );
    let metal = &w1.objects[n - 1];
    assert_eq!(metal.center, v(4 * FX_ONE, FX_ONE, 0));
    assert_eq!(
        metal.material,
        Material::Metal(Metal::new(v(45875, 39321, 32768), fx(0)))
    );
    // every small sphere sits on the half-unit grid with radius 0.2
    for s in &w1.objects[1..n - 3] {
        assert_eq!(s.radius.raw, 13107);
    }
}

#[test]
fn ray_accessors_and_evaluation() {
    let r = Ray::new(v(FX_ONE, 0, 0), v(0, 2 * FX_ONE, 0));
    assert_eq!(r.origin(), v(FX_ONE, 0, 0));
    assert_eq!(r.direction(), v(0, 2 * FX_ONE, 0));
    assert_eq!(r.at(fx(FX_ONE / 2)), v(FX_ONE, FX_ONE, 0));
}

#[test]
fn full_scene_smoke_render() {
    let mut rng = Rng::new(2024);
    let world = random_scene(&mut rng);
    let half_height = fx(11546);  // tan(10 degrees), floored
    let cam = Camera::new(
        v(13 * FX_ONE, 2 * FX_ONE, 3 * FX_ONE),
        v(0, 0, 0),
        v(0, FX_ONE, 0),
        half_height,
        fx(116508),  // 16:9
        fx(6553),
        fx(10 * FX_ONE),
    );
    let row = render_row(&cam, &world, 4, 8, 8, 2, 31337);
    assert_eq!(row.len(), 8);
    for px in &row {
        assert_eq!(px.a, 255);
    }
    // byte-identical on a second run
    assert_eq!(row, render_row(&cam, &world, 4, 8, 8, 2, 31337));
}
