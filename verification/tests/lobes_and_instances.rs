//! The blended materials and the instanced/mesh primitives.

use path_tracer::bsdf::{
    ClearcoatBRDF, DiffuseBRDF, Material, MixBxDf, PrincipledBSDF, SheenBRDF,
};
use path_tracer::fx::{fadd, fmul, fsub, FX_MAX, FX_ONE};
use path_tracer::hittable::{HitInfo, Instance, Primitive, Sphere, Triangle, TriangleMesh};
use path_tracer::interval::Interval;
use path_tracer::ray::Ray;
use path_tracer::rng::Rng;
use path_tracer::texture::ColorTexture;
use path_tracer::vec3::Vec3;

fn fx(x: f64) -> i64 {
    (x * 65536.0).round() as i64
}

fn flat_hit() -> HitInfo {
    HitInfo {
        point: Vec3::new(0, 0, 0),
        geometric_normal: Vec3::new(0, 0, FX_ONE),
        shading_normal: Vec3::new(0, 0, FX_ONE),
        dist: FX_ONE,
        front_face: true,
        mat_id: 0,
        u: 0,
        v: 0,
    }
}

/// A mix reports the weight-blended density and reflectance of its parts.
#[test]
fn mix_material_blends_pdf_and_eval() {
    let a = Material::Diffuse(DiffuseBRDF::from_rgb(Vec3::new(fx(1.0), 0, 0)));
    let b = Material::Diffuse(DiffuseBRDF::from_rgb(Vec3::new(0, fx(1.0), 0)));
    let t = fx(0.25);
    let info = flat_hit();
    let view = Vec3::new(0, 0, FX_ONE);
    let light = Vec3::new(fx(0.3), fx(0.1), fx(0.9));
    let pa = a.pdf(&view, &light, &info);
    let pb = b.pdf(&view, &light, &info);
    let ea = a.eval(&view, &light, &info);
    let eb = b.eval(&view, &light, &info);
    let mix = Material::Mix(MixBxDf::new(t, Box::new(a), Box::new(b)));
    let pm = mix.pdf(&view, &light, &info);
    assert_eq!(pm, fadd(fmul(fsub(FX_ONE, t), pa), fmul(t, pb)));
    let em = mix.eval(&view, &light, &info);
    let expect = ea.scale(fsub(FX_ONE, t)).add(&eb.scale(t)).max(&Vec3::zero());
    assert_eq!(em, expect);
    // the clamp on construction
    let clamped = MixBxDf::new(
        fx(3.0),
        Box::new(Material::Sheen(SheenBRDF::new(Vec3::new(fx(0.5), fx(0.5), fx(0.5)), 0))),
        Box::new(Material::Clearcoat(ClearcoatBRDF::new(fx(0.5)))),
    );
    assert_eq!(clamped.t, FX_ONE);
}

/// Every scattering lobe reports a nonnegative reflectance and can draw
/// directions without panicking.
#[test]
fn lobes_are_sane_at_a_generic_configuration() {
    let info = flat_hit();
    let view = Vec3::new(fx(0.3), fx(0.2), fx(0.93)).normalize();
    let light = Vec3::new(fx(-0.2), fx(0.4), fx(0.89)).normalize();
    let ray = Ray::new(Vec3::new(0, 0, fx(2.0)), view.neg(), 0);
    let mut rng = Rng::new(77);
    let mats = [
        Material::Diffuse(DiffuseBRDF::from_rgb(Vec3::new(fx(0.6), fx(0.6), fx(0.6)))),
        Material::Metal(path_tracer::bsdf::MetalBRDF::from_rgb(
            Vec3::new(fx(0.9), fx(0.8), fx(0.7)),
            fx(0.3),
        )),
        Material::Glass(path_tracer::bsdf::GlassBSDF::basic(fx(1.5))),
        Material::Clearcoat(ClearcoatBRDF::new(fx(0.5))),
        Material::Sheen(SheenBRDF::new(Vec3::new(fx(0.5), fx(0.4), fx(0.3)), fx(0.5))),
        Material::Principled(PrincipledBSDF::new(
            ColorTexture::solid(Vec3::new(fx(0.6), fx(0.2), fx(0.2))),
            fx(0.3),
            fx(0.4),
            fx(0.1),
            fx(0.5),
            fx(0.2),
            fx(1.5),
            fx(0.2),
            fx(0.3),
            fx(0.4),
            fx(0.5),
            fx(0.6),
        )),
    ];
    for m in mats.iter() {
        let e = m.eval(&view, &light, &info);
        assert!(e.x >= 0 && e.y >= 0 && e.z >= 0);
        for _ in 0..20 {
            if let Some((att, next)) = m.scatter(&ray, &info, &mut rng) {
                assert_eq!(next.time, ray.time);
                let _ = att;
            }
        }
    }
}

/// A rotated instance reports hits where the rotated geometry is, not where
/// the local geometry was.
#[test]
fn instance_rotates_geometry() {
    let mats = vec![Material::Diffuse(DiffuseBRDF::from_rgb(Vec3::new(
        fx(0.5),
        fx(0.5),
        fx(0.5),
    )))];
    let local = Primitive::Sphere(Sphere::new_still(fx(1.0), Vec3::new(fx(5.0), 0, 0), 0));
    // rotate ~90 degrees about y: the sphere moves from +x to -z
    let inst = Instance::new(
        local,
        Vec3::new(0, FX_ONE, 0),
        fx(std::f64::consts::FRAC_PI_2),
        Vec3::new(0, 0, 0),
    );
    let toward_minus_z = Ray::new(Vec3::new(0, 0, 0), Vec3::new(0, 0, -FX_ONE), 0);
    let hit = inst.intersects(&mats, &toward_minus_z, Interval::new(66, FX_MAX));
    assert!(hit.is_some(), "rotated sphere must sit on the -z axis");
    let d = hit.unwrap().dist;
    assert!((d - fx(4.0)).abs() < fx(0.05), "dist {d}");
    let toward_plus_x = Ray::new(Vec3::new(0, 0, 0), Vec3::new(FX_ONE, 0, 0), 0);
    assert!(inst.intersects(&mats, &toward_plus_x, Interval::new(66, FX_MAX)).is_none());
}

/// An indexed mesh becomes one triangle per index triple, with vertices
/// scaled.
#[test]
fn triangle_mesh_from_indexed_arrays() {
    let positions = vec![
        Vec3::new(0, 0, 0),
        Vec3::new(fx(1.0), 0, 0),
        Vec3::new(0, fx(1.0), 0),
        Vec3::new(fx(1.0), fx(1.0), 0),
    ];
    let normals: Vec<Vec3> = Vec::new();
    let uvs: Vec<(i64, i64)> = Vec::new();
    let indices = vec![0, 1, 2, 2, 1, 3];
    let tris = TriangleMesh::from_arrays(fx(2.0), &positions, &normals, &uvs, &indices, 0);
    assert_eq!(tris.len(), 2);
    match &tris[0] {
        Primitive::Triangle(t) => {
            assert_eq!(t.v1, Vec3::new(fx(2.0), 0, 0));
            assert_eq!(t.v2, Vec3::new(0, fx(2.0), 0));
        }
        _ => panic!("expected a triangle"),
    }
    // hitting the scaled square
    let mats = vec![Material::Diffuse(DiffuseBRDF::from_rgb(Vec3::new(
        fx(0.5),
        fx(0.5),
        fx(0.5),
    )))];
    let ray = Ray::new(Vec3::new(fx(0.5), fx(0.5), fx(3.0)), Vec3::new(0, 0, -FX_ONE), 0);
    let hit = match &tris[0] {
        Primitive::Triangle(t) => t.intersects(&mats, &ray, Interval::new(0, FX_MAX)),
        _ => None,
    };
    assert!(hit.is_some());
}

/// A triangle with vertex normals interpolates them into the shading data.
#[test]
fn triangle_vertex_normals_interpolate() {
    let mats = vec![Material::Diffuse(DiffuseBRDF::from_rgb(Vec3::new(
        fx(0.5),
        fx(0.5),
        fx(0.5),
    )))];
    let n = Vec3::new(0, 0, FX_ONE);
    let t = Triangle::new(
        Vec3::new(0, 0, 0),
        Vec3::new(fx(1.0), 0, 0),
        Vec3::new(0, fx(1.0), 0),
        Some((n, n, n)),
        Some(((0, 0), (FX_ONE, 0), (0, FX_ONE))),
        0,
    );
    let ray = Ray::new(Vec3::new(fx(0.25), fx(0.25), fx(2.0)), Vec3::new(0, 0, -FX_ONE), 0);
    let hit = t.intersects(&mats, &ray, Interval::new(0, FX_MAX)).unwrap();
    // interpolated texture coordinates follow the barycentric weights
    assert!((hit.u - fx(0.25)).abs() < fx(0.01));
    assert!((hit.v - fx(0.25)).abs() < fx(0.01));
    assert!(hit.front_face);
}
