//! Exact arithmetic of the fixed-point scalar, the vectors, the
//! trigonometry, and the interpolation helpers.

use reng::fixed::Fx;
use reng::utilities::math::{lerp, lerp_scalar};
use reng::vec3::{Vec3, Vec4};

fn fx(i: i64) -> Fx {
    Fx::from_int(i)
}

fn raw(r: i64) -> Fx {
    Fx { raw: r }
}

#[test]
fn from_int_scales_by_65536() {
    assert_eq!(fx(3).raw, 3 * 65536);
    assert_eq!(fx(-7).raw, -7 * 65536);
    assert_eq!(Fx::zero().raw, 0);
    assert_eq!(Fx::one().raw, 65536);
}

#[test]
fn add_sub_neg_are_exact() {
    assert_eq!(fx(3).add(fx(4)), fx(7));
    assert_eq!(fx(3).sub(fx(10)), fx(-7));
    assert_eq!(fx(5).neg(), fx(-5));
    assert_eq!(raw(1).add(raw(-1)).raw, 0);
}

#[test]
fn mul_rounds_toward_zero() {
    assert_eq!(fx(6).mul(fx(7)), fx(42));
    assert_eq!(fx(-6).mul(fx(7)), fx(-42));
    // 0.5 * 0.5 == 0.25 exactly
    assert_eq!(raw(32768).mul(raw(32768)).raw, 16384);
    // tiny magnitudes underflow toward zero from either side
    assert_eq!(raw(255).mul(raw(255)).raw, 0);
    assert_eq!(raw(-255).mul(raw(255)).raw, 0);
}

#[test]
fn div_rounds_toward_zero() {
    assert_eq!(fx(42).div(fx(7)), fx(6));
    assert_eq!(fx(-42).div(fx(7)), fx(-6));
    assert_eq!(fx(1).div(fx(2)).raw, 32768);
    // 1/3 truncates: floor(65536*65536/196608) = 21845
    assert_eq!(fx(1).div(fx(3)).raw, 21845);
    assert_eq!(fx(-1).div(fx(3)).raw, -21845);
}

#[test]
fn sqrt_is_truncated_root() {
    assert_eq!(fx(4).sqrt(), fx(2));
    assert_eq!(fx(9).sqrt(), fx(3));
    assert_eq!(fx(0).sqrt(), fx(0));
    // sqrt(2) in raw units: floor(sqrt(2) * 65536) = 92681
    assert_eq!(fx(2).sqrt().raw, 92681);
}

#[test]
fn min_max_abs_clamp() {
    assert_eq!(fx(3).min(fx(9)), fx(3));
    assert_eq!(fx(3).max(fx(9)), fx(9));
    assert_eq!(fx(-3).abs(), fx(3));
    assert_eq!(fx(5).clamp(fx(0), fx(1)), fx(1));
    assert_eq!(fx(-5).clamp(fx(0), fx(1)), fx(0));
    assert!(fx(2).le(fx(2)));
    assert!(fx(1).lt(fx(2)));
    assert!(fx(-1).is_neg());
}

#[test]
fn vector_componentwise_ops() {
    let a = Vec3::new(fx(1), fx(2), fx(3));
    let b = Vec3::new(fx(10), fx(20), fx(30));
    assert_eq!(a.add(b), Vec3::new(fx(11), fx(22), fx(33)));
    assert_eq!(b.sub(a), Vec3::new(fx(9), fx(18), fx(27)));
    assert_eq!(a.scale(fx(4)), Vec3::new(fx(4), fx(8), fx(12)));
    assert_eq!(a.cmul(b), Vec3::new(fx(10), fx(40), fx(90)));
}

#[test]
fn dot_cross_and_distance() {
    let a = Vec3::new(fx(1), fx(2), fx(3));
    let b = Vec3::new(fx(4), fx(5), fx(6));
    assert_eq!(a.dot(b), fx(32));
    // (1,0,0) x (0,1,0) == (0,0,1)
    let x = Vec3::new(fx(1), fx(0), fx(0));
    let y = Vec3::new(fx(0), fx(1), fx(0));
    assert_eq!(x.cross(y), Vec3::new(fx(0), fx(0), fx(1)));
    let p = Vec3::new(fx(3), fx(4), fx(0));
    assert_eq!(p.dist_sq(Vec3::zero()), fx(25));
    assert_eq!(p.length(), fx(5));
}

#[test]
fn normalize_gives_unit_direction() {
    let v = Vec3::new(fx(0), fx(0), fx(10));
    assert_eq!(v.normalize(), Vec3::new(fx(0), fx(0), fx(1)));
    let d = Vec3::new(fx(3), fx(4), fx(0)).normalize();
    // 3/5 and 4/5 in raw units, truncated
    assert_eq!(d.x.raw, 39321);
    assert_eq!(d.y.raw, 52428);
    assert_eq!(d.z.raw, 0);
}

#[test]
fn color_clamps_to_unit_interval() {
    let c = Vec4::new(fx(2), fx(-1), raw(32768), fx(1));
    let k = c.clamp_unit();
    assert_eq!(k.x, fx(1));
    assert_eq!(k.y, fx(0));
    assert_eq!(k.z.raw, 32768);
    assert_eq!(k.w, fx(1));
}

#[test]
fn sine_and_cosine_approximations() {
    assert_eq!(fx(0).sin().raw, 0);
    // sin(pi/2) close to 1, cos(0) close to 1, sin(pi) close to 0
    let half_pi = raw(102944);
    assert!((half_pi.sin().raw - 65536).abs() <= 64);
    assert!((fx(0).cos().raw - 65536).abs() <= 64);
    let pi = raw(205887);
    assert!(pi.sin().raw.abs() <= 64);
    // sin(-x) == -sin(x) for the folded evaluation
    let t = raw(19661);
    assert_eq!(t.sin().raw, -t.neg().sin().raw);
}

#[test]
fn lerp_interpolates_exactly() {
    let a = Vec3::zero();
    let b = Vec3::new(fx(10), fx(20), fx(30));
    let mid = lerp(a, b, raw(32768));
    assert_eq!(mid, Vec3::new(fx(5), fx(10), fx(15)));
    assert_eq!(lerp(a, b, fx(0)), a);
    assert_eq!(lerp(a, b, fx(1)), b);
    assert_eq!(lerp_scalar(fx(2), fx(10), raw(16384)), fx(4));
}
