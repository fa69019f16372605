//! Fixed-point arithmetic and Fresnel behavior at exact boundary points.

use path_tracer::bsdf::{dielectric_fresnel, schlick_fresnel};
use path_tracer::fx::{
    fabs, facos, fadd, fatan2, fcos, fdiv, ffloor_div, flog2, fmul, fpow5, fsin, fsqrt, fsub,
    FX_HALF, FX_MAX, FX_ONE, FX_PI, FX_TWO,
};
use path_tracer::vec3::Vec3;

fn approx(a: i64, b: i64, tol: i64) -> bool {
    (a - b).abs() <= tol
}

#[test]
fn fixed_point_basics() {
    assert_eq!(fadd(FX_ONE, FX_ONE), FX_TWO);
    assert_eq!(fmul(FX_TWO, FX_HALF), FX_ONE);
    assert_eq!(fmul(3 * FX_ONE, 5 * FX_ONE), 15 * FX_ONE);
    assert_eq!(fdiv(FX_ONE, FX_TWO), FX_HALF);
    assert_eq!(fdiv(10 * FX_ONE, 5 * FX_ONE), FX_TWO);
    assert_eq!(fsub(FX_ONE, FX_TWO), -FX_ONE);
    assert_eq!(fabs(-3 * FX_ONE), 3 * FX_ONE);
    // division by zero saturates like an infinity
    assert_eq!(fdiv(FX_ONE, 0), FX_MAX);
    assert_eq!(fdiv(-FX_ONE, 0), -FX_MAX);
    // saturation instead of overflow
    assert_eq!(fadd(FX_MAX, FX_MAX), FX_MAX);
    assert_eq!(fmul(FX_MAX, FX_MAX), FX_MAX);
}

#[test]
fn fixed_point_sqrt_and_pow() {
    assert_eq!(fsqrt(4 * FX_ONE), 2 * FX_ONE);
    assert_eq!(fsqrt(0), 0);
    assert_eq!(fsqrt(-FX_ONE), 0);
    // sqrt(2) ~ 1.41421
    let s2 = fsqrt(FX_TWO);
    assert!(approx(s2, 92682, 2), "sqrt(2) = {s2}");
    // 0.5^5 = 0.03125
    let p = fpow5(FX_HALF);
    assert!(approx(p, 2048, 4), "0.5^5 = {p}");
}

#[test]
fn fixed_point_floor_div() {
    assert_eq!(ffloor_div(7 * FX_ONE, FX_ONE), 7);
    assert_eq!(ffloor_div(-7 * FX_ONE, FX_ONE), -7);
    assert_eq!(ffloor_div(-3, FX_ONE), -1);
    assert_eq!(ffloor_div(3, FX_ONE), 0);
}

#[test]
fn fixed_point_log2() {
    assert_eq!(flog2(FX_ONE), 0);
    assert_eq!(flog2(FX_TWO), FX_ONE);
    let l = flog2(FX_HALF);
    assert!(approx(l, -FX_ONE, 8), "log2(0.5) = {l}");
    let l3 = flog2(8 * FX_ONE);
    assert!(approx(l3, 3 * FX_ONE, 8), "log2(8) = {l3}");
}

#[test]
fn fixed_point_trig() {
    let tol = 300; // the rational approximations are good to ~5e-3
    assert!(approx(fsin(0), 0, tol));
    assert!(approx(fsin(FX_PI / 2), FX_ONE, tol));
    assert!(approx(fsin(FX_PI), 0, tol));
    assert!(approx(fcos(0), FX_ONE, tol));
    assert!(approx(fcos(FX_PI), -FX_ONE, tol));
    assert!(approx(fatan2(0, FX_ONE), 0, tol));
    assert!(approx(fatan2(FX_ONE, 0), FX_PI / 2, tol));
    assert!(approx(fatan2(FX_ONE, FX_ONE), FX_PI / 4, 400));
    assert!(approx(facos(0), FX_PI / 2, tol));
    assert!(approx(facos(FX_ONE), 0, tol));
}

#[test]
fn schlick_boundary_values() {
    // At x = 0 (normal incidence) the approximation returns f0 exactly; at
    // x = 1 (grazing) it reaches white exactly.
    let f0 = Vec3::new(2621, 39322, 65536); // 0.04, 0.6, 1.0
    let at_zero = schlick_fresnel(&f0, 0);
    assert_eq!(at_zero, f0);
    let at_one = schlick_fresnel(&f0, FX_ONE);
    assert_eq!(at_one, Vec3::new(FX_ONE, FX_ONE, FX_ONE));
}

#[test]
fn dielectric_fresnel_range_and_tir() {
    // Head-on entry into glass: about ((1.5-1)/(1.5+1))^2 = 0.04.
    let n = Vec3::new(0, 0, FX_ONE);
    let f = dielectric_fresnel(&n, &n, FX_ONE, 98304);
    assert!(approx(f, 2621, 200), "normal-incidence fresnel = {f}");
    // From inside glass at a grazing angle, past the critical angle, the
    // discriminant goes negative and the term is exactly 1.
    let grazing = Vec3::new(64280, 0, 12745); // ~ (0.98, 0, 0.19), below sin(critical)
    let f_tir = dielectric_fresnel(&grazing, &n, 98304, FX_ONE);
    assert_eq!(f_tir, FX_ONE);
}
