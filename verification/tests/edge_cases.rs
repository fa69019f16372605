//! Degenerate-geometry and empty-aggregate behavior.

use path_tracer::bsdf::{DiffuseBRDF, Material};
use path_tracer::fx::{FX_MAX, FX_ONE};
use path_tracer::hittable::{HittableList, Primitive, Quad, Sphere, Triangle, World};
use path_tracer::integrator::{EnvironmentType, Integrator};
use path_tracer::interval::Interval;
use path_tracer::ray::Ray;
use path_tracer::rng::Rng;
use path_tracer::vec3::Vec3;

fn fx(x: f64) -> i64 {
    (x * 65536.0).round() as i64
}

fn mats() -> Vec<Material> {
    vec![Material::Diffuse(DiffuseBRDF::from_rgb(Vec3::new(
        fx(0.5),
        fx(0.5),
        fx(0.5),
    )))]
}

#[test]
fn empty_list_reports_no_hit_and_no_sample() {
    let list = HittableList::new();
    let m = mats();
    let ray = Ray::new(Vec3::new(0, 0, 0), Vec3::new(0, 0, FX_ONE), 0);
    assert!(list
        .intersects(&m, &ray, Interval::new(0, FX_MAX))
        .is_none());
    let mut rng = Rng::new(3);
    assert!(list.sample(&Vec3::new(0, 0, 0), 0, &mut rng).is_none());
    // an empty aggregate's density saturates (the total stand-in for a
    // division by zero); the integrator weights it by a zero probability
    assert_eq!(
        list.pdf(&m, &Vec3::new(0, 0, 0), &Vec3::new(0, 0, FX_ONE), 0),
        FX_MAX
    );
}

#[test]
fn empty_world_trace_is_the_environment() {
    let world = World::new();
    let env = Vec3::new(fx(0.1), fx(0.2), fx(0.3));
    let integrator = Integrator::new(4, 2, fx(0.2), EnvironmentType::Color(env));
    let mut rng = Rng::new(8);
    let ray = Ray::new(Vec3::new(0, 0, 0), Vec3::new(0, 0, FX_ONE), 0);
    assert_eq!(integrator.trace(&world, &ray, &mut rng), env);
}

#[test]
fn ray_parallel_to_quad_plane_misses() {
    let q = Quad::new(
        Vec3::new(0, 0, 0),
        Vec3::new(fx(1.0), 0, 0),
        Vec3::new(0, fx(1.0), 0),
        0,
    );
    let m = mats();
    // direction inside the quad's plane: normal dot direction is zero
    let ray = Ray::new(Vec3::new(fx(-1.0), fx(0.5), 0), Vec3::new(FX_ONE, 0, 0), 0);
    assert!(q.intersects(&m, &ray, Interval::new(0, FX_MAX)).is_none());
    // a ray across the plane hits, facing the front side
    let across = Ray::new(Vec3::new(fx(0.5), fx(0.5), fx(2.0)), Vec3::new(0, 0, -FX_ONE), 0);
    let hit = q.intersects(&m, &across, Interval::new(0, FX_MAX)).unwrap();
    assert!((hit.dist - fx(2.0)).abs() < fx(0.01));
    assert!(hit.front_face);
}

#[test]
fn sphere_behind_ray_misses() {
    let s = Sphere::new_still(fx(1.0), Vec3::new(0, 0, fx(-5.0)), 0);
    let m = mats();
    let ray = Ray::new(Vec3::new(0, 0, 0), Vec3::new(0, 0, FX_ONE), 0);
    assert!(s.intersects(&m, &ray, Interval::new(0, FX_MAX)).is_none());
    // negative construction radius is clamped to zero
    let degenerate = Sphere::new_still(fx(-2.0), Vec3::new(0, 0, fx(5.0)), 0);
    assert_eq!(degenerate.radius, 0);
}

#[test]
fn ray_parallel_to_triangle_plane_misses() {
    let t = Triangle::new(
        Vec3::new(0, 0, 0),
        Vec3::new(fx(1.0), 0, 0),
        Vec3::new(0, fx(1.0), 0),
        None,
        None,
        0,
    );
    let m = mats();
    let parallel = Ray::new(Vec3::new(fx(-1.0), fx(0.2), 0), Vec3::new(FX_ONE, 0, 0), 0);
    assert!(t.intersects(&m, &parallel, Interval::new(0, FX_MAX)).is_none());
    let across = Ray::new(Vec3::new(fx(0.2), fx(0.2), fx(3.0)), Vec3::new(0, 0, -FX_ONE), 0);
    let hit = t.intersects(&m, &across, Interval::new(0, FX_MAX)).unwrap();
    assert!((hit.dist - fx(3.0)).abs() < fx(0.01));
    // barycentric coordinates are reported as surface coordinates
    assert!((hit.u - fx(0.2)).abs() < fx(0.01));
    assert!((hit.v - fx(0.2)).abs() < fx(0.01));
}

#[test]
fn interval_shrinks_during_scan() {
    // two spheres on one ray: the scan must return the nearer one whichever
    // order they are stored in
    let m = mats();
    let near = || Primitive::Sphere(Sphere::new_still(fx(1.0), Vec3::new(0, 0, fx(5.0)), 0));
    let far = || Primitive::Sphere(Sphere::new_still(fx(1.0), Vec3::new(0, 0, fx(9.0)), 0));
    let ray = Ray::new(Vec3::new(0, 0, 0), Vec3::new(0, 0, FX_ONE), 0);
    for prims in [vec![near(), far()], vec![far(), near()]] {
        let mut list = HittableList::new();
        for p in prims {
            list.add(p);
        }
        let hit = list
            .intersects(&m, &ray, Interval::new(66, FX_MAX))
            .unwrap();
        assert!((hit.dist - fx(4.0)).abs() < fx(0.01), "dist {}", hit.dist);
    }
}
