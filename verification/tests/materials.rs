//! Material behavior: the furnace test, density normalization, total
//! internal reflection, and the emissive variant.

use path_tracer::bsdf::glass::reflect_or_refract;
use path_tracer::bsdf::{dielectric_fresnel, DiffuseBRDF, DiffuseLight, Material};
use path_tracer::fx::{FX_ONE, FX_PI};
use path_tracer::hittable::HitInfo;
use path_tracer::rng::Rng;
use path_tracer::texture::ColorTexture;
use path_tracer::vec3::Vec3;

fn fx(x: f64) -> i64 {
    (x * 65536.0).round() as i64
}

fn to_f(x: i64) -> f64 {
    x as f64 / 65536.0
}

fn flat_hit() -> HitInfo {
    HitInfo {
        point: Vec3::new(0, 0, 0),
        geometric_normal: Vec3::new(0, 0, FX_ONE),
        shading_normal: Vec3::new(0, 0, FX_ONE),
        dist: FX_ONE,
        front_face: true,
        mat_id: 0,
        u: 0,
        v: 0,
    }
}

/// Monte Carlo integrating `eval / pdf` over the material's own sampling
/// distribution converges to the albedo for a Lambertian surface (the
/// furnace test).
#[test]
fn diffuse_furnace_test_converges_to_albedo() {
    let albedo = 0.5;
    let mat = DiffuseBRDF::from_rgb(Vec3::new(fx(albedo), fx(albedo), fx(albedo)));
    let info = flat_hit();
    let mut rng = Rng::new(12345);
    let n = 20000;
    let mut acc = 0.0;
    let mut used = 0;
    for _ in 0..n {
        let dir = mat.sample(&info, &mut rng).unwrap();
        let pdf = mat.pdf(&dir, &info);
        if pdf <= 0 {
            continue;
        }
        let e = mat.eval(&dir, &info);
        acc += to_f(e.x) / to_f(pdf);
        used += 1;
    }
    let estimate = acc / used as f64;
    assert!(
        (estimate - albedo).abs() < 0.02,
        "furnace estimate {estimate} for albedo {albedo}"
    );
}

/// Numerically integrating the diffuse density over the hemisphere yields 1.
#[test]
fn diffuse_pdf_integrates_to_one() {
    let mat = DiffuseBRDF::from_rgb(Vec3::new(fx(0.8), fx(0.2), fx(0.1)));
    let info = flat_hit();
    let mut rng = Rng::new(4242);
    // uniform hemisphere sampling: density 1 / (2 pi)
    let n = 20000;
    let mut acc = 0.0;
    let mut used = 0;
    for _ in 0..n {
        let x = (rng.next_unit() as f64 / 65536.0) * 2.0 - 1.0;
        let y = (rng.next_unit() as f64 / 65536.0) * 2.0 - 1.0;
        let z = rng.next_unit() as f64 / 65536.0;
        let len = (x * x + y * y + z * z).sqrt();
        if len < 0.1 || len > 1.0 {
            continue;
        }
        let dir = Vec3::new(fx(x / len), fx(y / len), fx(z / len));
        let pdf = mat.pdf(&dir, &info);
        acc += to_f(pdf) * 2.0 * std::f64::consts::PI;
        used += 1;
    }
    let estimate = acc / used as f64;
    assert!(
        (estimate - 1.0).abs() < 0.05,
        "pdf normalization estimate {estimate}"
    );
}

/// A ray inside glass past the critical angle always reflects: the Fresnel
/// term is exactly 1 and the sampled continuation is the mirror direction,
/// for every half-vector and every random draw.
#[test]
fn glass_total_internal_reflection_always_reflects() {
    let n = Vec3::new(0, 0, FX_ONE);
    let eta_i = fx(1.5);
    let eta_o = FX_ONE;
    let mut rng = Rng::new(777);
    let mut checked = 0;
    for _ in 0..2000 {
        // view directions near grazing exit angles (cos below the critical
        // cosine ~0.745)
        let c = rng.next_unit() % fx(0.6); // cos in [0, 0.6)
        let s = fx((1.0 - to_f(c) * to_f(c)).sqrt());
        let v = Vec3::new(s, 0, c);
        let f = dielectric_fresnel(&v, &n, eta_i, eta_o);
        if f != FX_ONE {
            // only configurations past the critical angle are of interest
            continue;
        }
        let u = rng.next_unit();
        let out = reflect_or_refract(&v, &n, eta_i, eta_o, u);
        let mirror = v.neg().reflect(&n);
        assert_eq!(out, mirror, "TIR must reflect");
        checked += 1;
    }
    assert!(checked > 1000, "checked {checked} TIR configurations");
}

#[test]
fn emissive_material_never_scatters() {
    let light = Material::Light(DiffuseLight::new(ColorTexture::solid(Vec3::new(fx(10.0), fx(10.0), fx(10.0)))));
    let info = flat_hit();
    let mut rng = Rng::new(1);
    let ray = path_tracer::ray::Ray::new(Vec3::new(0, 0, FX_ONE), Vec3::new(0, 0, -FX_ONE), 0);
    assert!(light.is_emissive());
    assert!(light.sample(&ray, &info, &mut rng).is_none());
    assert!(light.scatter(&ray, &info, &mut rng).is_none());
    let e = light.emitted(0, 0, &Vec3::new(0, 0, 0));
    assert_eq!(e, Vec3::new(fx(10.0), fx(10.0), fx(10.0)));
}

/// The optimized diffuse scatter hands back the albedo exactly, matching
/// the eval/pdf ratio it replaces.
#[test]
fn diffuse_scatter_matches_albedo() {
    let mat = DiffuseBRDF::from_rgb(Vec3::new(fx(0.25), fx(0.5), fx(0.75)));
    let info = flat_hit();
    let mut rng = Rng::new(9);
    let ray = path_tracer::ray::Ray::new(Vec3::new(0, 0, FX_ONE), Vec3::new(0, 0, -FX_ONE), 0);
    let (att, next) = mat.scatter(&ray, &info, &mut rng).unwrap();
    assert_eq!(att, Vec3::new(fx(0.25), fx(0.5), fx(0.75)));
    assert_eq!(next.time, ray.time);
}

/// The fused scatter of the microfacet materials hands back `eval / pdf`
/// of the direction it drew: recomputing the quotient from the returned
/// ray's direction reproduces the attenuation up to the rounding of the
/// final normalization.
#[test]
fn metal_and_glass_scatter_match_eval_over_pdf() {
    let info = flat_hit();
    let ray = path_tracer::ray::Ray::new(
        Vec3::new(fx(0.4), fx(0.2), fx(2.0)),
        Vec3::new(fx(-0.2), fx(-0.1), -FX_ONE),
        0,
    );
    let metal = path_tracer::bsdf::MetalBRDF::from_rgb(Vec3::new(fx(0.9), fx(0.7), fx(0.5)), fx(0.4));
    let glass = path_tracer::bsdf::GlassBSDF::basic(fx(1.5));
    let mut rng = Rng::new(2718);
    let view = ray.direction.neg();
    let mut checked = 0;
    for _ in 0..200 {
        if let Some((att, next)) = metal.scatter(&ray, &info, &mut rng) {
            let pdf = metal.pdf(&view, &next.direction, &info);
            if pdf > fx(0.05) {
                let expect = metal.eval(&view, &next.direction, &info).div_s(pdf);
                assert!(
                    (to_f(att.x) - to_f(expect.x)).abs() < 0.05 * (1.0 + to_f(expect.x).abs()),
                    "metal att {} vs eval/pdf {}",
                    to_f(att.x),
                    to_f(expect.x)
                );
                checked += 1;
            }
        }
        let (att, next) = glass.scatter(&ray, &info, &mut rng).unwrap();
        let pdf = glass.pdf(&view, &next.direction, &info);
        if pdf > fx(0.05) {
            let expect = glass.eval(&view, &next.direction, &info).div_s(pdf);
            assert!(
                (to_f(att.x) - to_f(expect.x)).abs() < 0.05 * (1.0 + to_f(expect.x).abs()),
                "glass att {} vs eval/pdf {}",
                to_f(att.x),
                to_f(expect.x)
            );
            checked += 1;
        }
    }
    assert!(checked > 100, "checked {checked} scatter draws");
}

/// The sphere's light-sampling density integrates to one over directions:
/// it is the reciprocal solid angle of the cone its own sampler draws from.
#[test]
fn sphere_pdf_matches_cone_solid_angle() {
    let mats = vec![Material::Diffuse(DiffuseBRDF::from_rgb(Vec3::new(
        fx(0.5),
        fx(0.5),
        fx(0.5),
    )))];
    let sphere = path_tracer::hittable::Sphere::new_still(fx(1.0), Vec3::new(0, 0, fx(5.0)), 0);
    let origin = Vec3::new(0, 0, 0);
    let mut rng = Rng::new(99);
    let n = 40000;
    let mut acc = 0.0;
    let mut used = 0;
    for _ in 0..n {
        // uniform directions over the sphere of directions
        let x = (rng.next_unit() as f64 / 65536.0) * 2.0 - 1.0;
        let y = (rng.next_unit() as f64 / 65536.0) * 2.0 - 1.0;
        let z = (rng.next_unit() as f64 / 65536.0) * 2.0 - 1.0;
        let len = (x * x + y * y + z * z).sqrt();
        if len < 0.1 || len > 1.0 {
            continue;
        }
        let dir = Vec3::new(fx(x / len), fx(y / len), fx(z / len));
        let pdf = sphere.pdf(&mats, &origin, &dir, 0);
        acc += to_f(pdf) * 4.0 * std::f64::consts::PI;
        used += 1;
    }
    let estimate = acc / used as f64;
    assert!(
        (estimate - 1.0).abs() < 0.1,
        "sphere pdf integral estimate {estimate}"
    );
    // every direction the sampler draws lands on the sphere and has the
    // cone density
    for _ in 0..500 {
        let dir = sphere.sample(&origin, 0, &mut rng).unwrap();
        let pdf = sphere.pdf(&mats, &origin, &dir, 0);
        assert!(pdf >= 0);
    }
}

/// Over many trials the average throughput after Russian roulette matches
/// the throughput before it: the division by the survival probability
/// exactly compensates the kills.
#[test]
fn russian_roulette_is_unbiased_statistically() {
    let t = fx(0.3);
    let p = fx(0.37); // survival probability
    let mut rng = Rng::new(2024);
    let n = 200000;
    let mut acc = 0.0;
    for _ in 0..n {
        let u = rng.next_unit();
        if u > p {
            // killed: contributes zero
        } else {
            acc += to_f(path_tracer::fx::fdiv(t, p));
        }
    }
    let mean = acc / n as f64;
    assert!(
        (mean - to_f(t)).abs() < 0.01,
        "post-roulette mean {mean} vs throughput {}",
        to_f(t)
    );
}
