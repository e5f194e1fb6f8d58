use rtt::fixed::Fx;
use rtt::fixed::FX_MAX;
use rtt::fixed::FX_ONE;
use rtt::rng::Rng;
use rtt::vec3::Vec3;

fn fx(raw: i64) -> Fx {
    Fx { raw }
}

#[test]
fn fx_basic_arithmetic() {
    assert_eq!(fx(3 * FX_ONE).add(fx(4 * FX_ONE)).raw, 7 * FX_ONE);
    assert_eq!(fx(3 * FX_ONE).sub(fx(4 * FX_ONE)).raw, -FX_ONE);
    assert_eq!(fx(3 * FX_ONE).mul(fx(4 * FX_ONE)).raw, 12 * FX_ONE);
    assert_eq!(fx(FX_ONE).div(fx(2 * FX_ONE)).raw, FX_ONE / 2);
    assert_eq!(fx(-3 * FX_ONE).mul(fx(4 * FX_ONE)).raw, -12 * FX_ONE);
    assert_eq!(fx(5 * FX_ONE).neg().raw, -5 * FX_ONE);
}

#[test]
fn fx_saturates_instead_of_wrapping() {
    assert_eq!(fx(FX_MAX).add(fx(FX_ONE)).raw, FX_MAX);
    assert_eq!(fx(-FX_MAX).sub(fx(FX_ONE)).raw, -FX_MAX);
    assert_eq!(fx(FX_MAX).mul(fx(FX_MAX)).raw, FX_MAX);
    assert_eq!(fx(FX_MAX).neg().raw, -FX_MAX);
}

#[test]
fn fx_division_rounds_toward_zero_and_tolerates_zero() {
    // 1 / 3 truncates low; -1 / 3 truncates toward zero
    assert_eq!(fx(FX_ONE).div(fx(3 * FX_ONE)).raw, 21845);
    assert_eq!(fx(-FX_ONE).div(fx(3 * FX_ONE)).raw, -21845);
    assert_eq!(fx(FX_ONE).div(fx(0)).raw, 0);
}

#[test]
fn fx_sqrt_exact_and_floored() {
    assert_eq!(fx(4 * FX_ONE).sqrt().raw, 2 * FX_ONE);
    assert_eq!(fx(FX_ONE).sqrt().raw, FX_ONE);
    // sqrt(1/2) floors to 46340/65536
    assert_eq!(fx(FX_ONE / 2).sqrt().raw, 46340);
    assert_eq!(fx(45875).sqrt().raw, 54831);
    assert_eq!(fx(-FX_ONE).sqrt().raw, 0);
    assert_eq!(fx(0).sqrt().raw, 0);
}

#[test]
fn rng_stream_matches_the_stated_recurrence() {
    let mut rng = Rng::new(42);
    let s1 = rng.next_raw();
    let expect = 6364136223846793005u64
        .wrapping_mul(42)
        .wrapping_add(1442695040888963407u64);
    assert_eq!(s1, expect);
    assert_eq!(rng.state, expect);

    let mut a = Rng::new(7);
    let u = a.next_unit();
    assert!(0 <= u.raw && u.raw < FX_ONE);
    let s = a.next_sym();
    assert!(-FX_ONE <= s.raw && s.raw < FX_ONE);
}

#[test]
fn rng_unit_draw_reads_high_bits() {
    let mut rng = Rng::new(42);
    let u = rng.next_unit();
    assert_eq!(u.raw, 37239);
    let mut rng2 = Rng::new(42);
    let s = rng2.next_sym();
    assert_eq!(s.raw, 8943);
}

#[test]
fn vec3_dot_and_cross() {
    let one = fx(FX_ONE);
    let zero = fx(0);
    let x = Vec3::new(one, zero, zero);
    let y = Vec3::new(zero, one, zero);
    let z = Vec3::new(zero, zero, one);
    assert_eq!(Vec3::dot(x, x).raw, FX_ONE);
    assert_eq!(Vec3::dot(x, y).raw, 0);
    assert_eq!(Vec3::cross(x, y), z);
    assert_eq!(Vec3::cross(y, z), x);
    assert_eq!(Vec3::cross(z, x), y);

    let v = Vec3::new(fx(3 * FX_ONE), fx(4 * FX_ONE), zero);
    assert_eq!(v.length_squared().raw, 25 * FX_ONE);
    assert_eq!(v.length().raw, 5 * FX_ONE);
    let u = Vec3::unit_vector(v);
    assert_eq!(u.x.raw, 39321);  // 0.6 floored
    assert_eq!(u.y.raw, 52428);  // 0.8 floored
    assert_eq!(u.z.raw, 0);
}

#[test]
fn vec3_componentwise_algebra() {
    let a = Vec3::new(fx(FX_ONE), fx(2 * FX_ONE), fx(-3 * FX_ONE));
    let b = Vec3::new(fx(4 * FX_ONE), fx(-5 * FX_ONE), fx(6 * FX_ONE));
    assert_eq!(a.add(b), Vec3::new(fx(5 * FX_ONE), fx(-3 * FX_ONE), fx(3 * FX_ONE)));
    assert_eq!(a.sub(b), Vec3::new(fx(-3 * FX_ONE), fx(7 * FX_ONE), fx(-9 * FX_ONE)));
    assert_eq!(a.mul(b), Vec3::new(fx(4 * FX_ONE), fx(-10 * FX_ONE), fx(-18 * FX_ONE)));
    assert_eq!(a.scale(fx(2 * FX_ONE)), Vec3::new(fx(2 * FX_ONE), fx(4 * FX_ONE), fx(-6 * FX_ONE)));
    assert_eq!(a.div_s(fx(2 * FX_ONE)), Vec3::new(fx(FX_ONE / 2), fx(FX_ONE), fx(-3 * FX_ONE / 2)));
    assert_eq!(a.neg(), Vec3::new(fx(-FX_ONE), fx(-2 * FX_ONE), fx(3 * FX_ONE)));
    assert_eq!(a.r().raw, FX_ONE);
    assert_eq!(a.g().raw, 2 * FX_ONE);
    assert_eq!(a.b().raw, -3 * FX_ONE);
}
