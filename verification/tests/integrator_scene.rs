//! End-to-end scenario: a ground sphere under a small emissive sphere,
//! rendered one sample at a time at depth one.

use path_tracer::bsdf::{DiffuseBRDF, DiffuseLight, Material};
use path_tracer::fx::{FX_MAX, FX_ONE};
use path_tracer::hittable::{Primitive, Sphere, World};
use path_tracer::integrator::{EnvironmentType, Integrator};
use path_tracer::interval::Interval;
use path_tracer::ray::Ray;
use path_tracer::rng::Rng;
use path_tracer::texture::ColorTexture;
use path_tracer::vec3::Vec3;

fn fx(x: f64) -> i64 {
    (x * 65536.0).round() as i64
}

fn build_scene() -> World {
    let mut world = World::new();
    let ground = world.add_material(Material::Diffuse(DiffuseBRDF::from_rgb(Vec3::new(
        fx(0.5),
        fx(0.5),
        fx(0.5),
    ))));
    let lamp = world.add_material(Material::Light(DiffuseLight::new(ColorTexture::solid(Vec3::new(fx(10.0), fx(10.0), fx(10.0))))));
    world.add_object(Primitive::Sphere(Sphere::new_still(
        fx(1000.0),
        Vec3::new(0, fx(-1000.0), 0),
        ground,
    )));
    world.add_light(Primitive::Sphere(Sphere::new_still(
        fx(1.0),
        Vec3::new(0, fx(5.0), 0),
        lamp,
    )));
    world.build_bvh();
    world
}

#[test]
fn pixel_under_light_sees_strictly_positive_radiance() {
    let world = build_scene();
    let integrator = Integrator::new(
        1,
        5,
        fx(0.2),
        EnvironmentType::Color(Vec3::new(0, 0, 0)),
    );
    // a ray pointing straight down at the ground directly under the light
    // passes through the emissive sphere first
    let ray = Ray::new(Vec3::new(0, fx(10.0), 0), Vec3::new(0, -FX_ONE, 0), 0);
    let mut rng = Rng::new(5);
    let radiance = integrator.trace(&world, &ray, &mut rng);
    assert!(radiance.x > 0 && radiance.y > 0 && radiance.z > 0);
    // depth one: the directly seen emission is the whole estimate
    assert_eq!(radiance, Vec3::new(fx(10.0), fx(10.0), fx(10.0)));
}

#[test]
fn sky_pixel_equals_environment_exactly() {
    let world = build_scene();
    let env = Vec3::new(fx(0.7), fx(0.8), fx(1.0));
    let integrator = Integrator::new(1, 5, fx(0.2), EnvironmentType::Color(env));
    let ray = Ray::new(Vec3::new(0, fx(10.0), 0), Vec3::new(0, FX_ONE, 0), 0);
    let mut rng = Rng::new(5);
    let radiance = integrator.trace(&world, &ray, &mut rng);
    assert_eq!(radiance, env);
}

#[test]
fn deeper_render_accumulates_bounce_light() {
    let world = build_scene();
    let integrator = Integrator::new(
        8,
        2,
        fx(0.2),
        EnvironmentType::Color(Vec3::new(0, 0, 0)),
    );
    // a pixel looking at the ground next to the light: radiance can only
    // arrive via the light, so estimates stay nonnegative and eventually
    // some samples are lit
    let mut rng = Rng::new(31);
    let mut saw_light = false;
    for k in 0..200 {
        let off = fx(0.01) * k;
        let ray = Ray::new(
            Vec3::new(fx(3.0), fx(3.0), 0),
            Vec3::new(off, -FX_ONE, 0),
            0,
        );
        let r = integrator.trace(&world, &ray, &mut rng);
        assert!(r.x >= 0 && r.y >= 0 && r.z >= 0);
        if r.x > 0 {
            saw_light = true;
        }
    }
    assert!(saw_light);
}

#[test]
fn world_queries_agree_with_components() {
    let world = build_scene();
    let down = Ray::new(Vec3::new(0, fx(10.0), 0), Vec3::new(0, -FX_ONE, 0), 0);
    let itv = Interval::new(66, FX_MAX);
    let all = world.intersect_all(&down, itv);
    let (hit, is_light) = all.expect("must hit the lamp");
    assert!(is_light);
    // lamp top is at y = 6: distance from y = 10 is 4
    assert!((hit.dist - fx(4.0)).abs() < fx(0.05), "dist {}", hit.dist);
    let objects_only = world.intersect_objects(&down, itv);
    let ground_hit = objects_only.expect("must hit the ground");
    assert!((ground_hit.dist - fx(10.0)).abs() < fx(0.05));
    // the lamp blocks the segment from the ground point up to above it
    let origin = Vec3::new(0, 0, 0);
    let above = Vec3::new(0, fx(10.0), 0);
    // objects (the ground) do not block the vertical segment itself
    assert!(world.shadow_ray(&origin, &above, 0));
}
