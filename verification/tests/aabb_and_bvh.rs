//! Box algebra and the hierarchy: union laws, the containment invariant,
//! and traversal against a brute-force linear scan.

use path_tracer::aabb::AABB;
use path_tracer::bsdf::{DiffuseBRDF, Material};
use path_tracer::fx::{FX_MAX, FX_ONE};
use path_tracer::hittable::bvh::{BVHNode, BVH};
use path_tracer::hittable::list::closest_hit_scan_all;
use path_tracer::hittable::{Primitive, Sphere};
use path_tracer::interval::Interval;
use path_tracer::ray::Ray;
use path_tracer::rng::Rng;
use path_tracer::vec3::Vec3;

fn fx(x: f64) -> i64 {
    (x * 65536.0).round() as i64
}

#[test]
fn union_is_commutative_and_associative() {
    let a = AABB::new(Vec3::new(fx(-1.0), fx(0.0), fx(2.0)), Vec3::new(fx(1.0), fx(3.0), fx(4.0)));
    let b = AABB::new(Vec3::new(fx(0.5), fx(-2.0), fx(0.0)), Vec3::new(fx(5.0), fx(1.0), fx(9.0)));
    let c = AABB::new(
        Vec3::new(fx(-4.0), fx(-4.0), fx(-4.0)),
        Vec3::new(fx(-3.0), fx(-3.0), fx(-3.0)),
    );
    assert_eq!(a.union(b), b.union(a));
    assert_eq!(a.union(b).union(c), a.union(b.union(c)));
    assert!(a.union(b).contains_box(&a));
    assert!(a.union(b).contains_box(&b));
}

#[test]
fn slab_test_hits_and_misses() {
    let b = AABB::new(Vec3::new(fx(-1.0), fx(-1.0), fx(-1.0)), Vec3::new(fx(1.0), fx(1.0), fx(1.0)));
    let toward = Ray::new(Vec3::new(fx(0.0), fx(0.0), fx(-5.0)), Vec3::new(0, 0, FX_ONE), 0);
    let away = Ray::new(Vec3::new(fx(0.0), fx(0.0), fx(-5.0)), Vec3::new(0, 0, -FX_ONE), 0);
    let aside = Ray::new(Vec3::new(fx(0.0), fx(5.0), fx(-5.0)), Vec3::new(0, 0, FX_ONE), 0);
    let itv = Interval::new(0, FX_MAX);
    let hit = b.intersects(&toward, itv);
    assert!(hit.is_some());
    let t = hit.unwrap();
    assert!((t - fx(4.0)).abs() < fx(0.01), "entry t = {t}");
    assert!(b.intersects(&away, itv).is_none());
    assert!(b.intersects(&aside, itv).is_none());
    // a ray starting inside the box still reports a hit clamped to the
    // interval start
    let inside = Ray::new(Vec3::new(0, 0, 0), Vec3::new(0, 0, FX_ONE), 0);
    assert_eq!(b.intersects(&inside, itv), Some(0));
}

fn random_scene(rng: &mut Rng, n: usize) -> (Vec<Primitive>, Vec<Material>) {
    let mats = vec![Material::Diffuse(DiffuseBRDF::from_rgb(Vec3::new(
        fx(0.5),
        fx(0.5),
        fx(0.5),
    )))];
    let mut prims = Vec::new();
    let mut i = 0;
    while i < n {
        let x = (rng.next_unit() - 32768) * 20;
        let y = (rng.next_unit() - 32768) * 20;
        let z = (rng.next_unit() - 32768) * 20;
        let r = rng.next_unit() * 3 + fx(0.2);
        prims.push(Primitive::Sphere(Sphere::new_still(r, Vec3::new(x, y, z), 0)));
        i += 1;
    }
    (prims, mats)
}

/// Walk the tree, checking that every leaf box contains its primitives'
/// boxes and every internal box is the union of its children's.
fn check_containment(node: &BVHNode, prims: &Vec<Primitive>) {
    match node {
        BVHNode::Leaf { bbox, idxs } => {
            for &i in idxs.iter() {
                assert!(i < prims.len());
                assert!(bbox.contains_box(&prims[i].bounding_box()));
            }
        }
        BVHNode::Internal { bbox, left, right } => {
            assert_eq!(*bbox, left.bounding_box().union(right.bounding_box()));
            check_containment(left, prims);
            check_containment(right, prims);
        }
    }
}

fn collect_indices(node: &BVHNode, out: &mut Vec<usize>) {
    match node {
        BVHNode::Leaf { idxs, .. } => out.extend(idxs.iter().copied()),
        BVHNode::Internal { left, right, .. } => {
            collect_indices(left, out);
            collect_indices(right, out);
        }
    }
}

#[test]
fn bvh_containment_invariant() {
    let mut rng = Rng::new(7);
    let (prims, _mats) = random_scene(&mut rng, 100);
    let tree = BVH::build(&prims);
    check_containment(&tree, &prims);
    // every primitive index appears exactly once
    let mut idxs = Vec::new();
    collect_indices(&tree, &mut idxs);
    idxs.sort();
    let expect: Vec<usize> = (0..prims.len()).collect();
    assert_eq!(idxs, expect);
}

#[test]
fn bvh_traversal_matches_linear_scan() {
    let mut rng = Rng::new(99);
    let (prims, mats) = random_scene(&mut rng, 120);
    let tree = BVH::build(&prims);
    let mut agreements = 0;
    for _ in 0..500 {
        let ox = (rng.next_unit() - 32768) * 60;
        let oy = (rng.next_unit() - 32768) * 60;
        let oz = (rng.next_unit() - 32768) * 60;
        let dx = rng.next_symmetric();
        let dy = rng.next_symmetric();
        let dz = rng.next_symmetric();
        if dx == 0 && dy == 0 && dz == 0 {
            continue;
        }
        let ray = Ray::new(Vec3::new(ox, oy, oz), Vec3::new(dx, dy, dz), 0);
        let itv = Interval::new(66, FX_MAX);
        let from_tree = tree.intersects(&prims, &mats, &ray, itv);
        let from_scan = closest_hit_scan_all(&prims, &mats, &ray, itv.min, itv.max);
        match (&from_tree, &from_scan) {
            (None, None) => agreements += 1,
            (Some(a), Some(b)) => {
                assert!(
                    (a.dist - b.dist).abs() <= 1,
                    "tree dist {} vs scan dist {}",
                    a.dist,
                    b.dist
                );
                agreements += 1;
            }
            _ => panic!("tree and scan disagree on hit existence"),
        }
    }
    assert!(agreements >= 450);
}
