//! Geometric primitives and aggregates: everything a ray can intersect.

use vstd::prelude::*;

use crate::aabb::AABB;
use crate::bsdf::Material;
use crate::interval::Interval;
use crate::ray::Ray;
use crate::rng::Rng;
use crate::vec3::{vadd, vnormalize, vsub, Vec3};

pub mod bvh;
pub mod cuboid;
pub mod hit_info;
pub mod instance;
pub mod list;
pub mod mesh;
pub mod quad;
pub mod sphere;
pub mod world;

pub use self::cuboid::Cuboid;
pub use self::hit_info::HitInfo;
pub use self::instance::Instance;
pub use self::list::HittableList;
pub use self::mesh::{Triangle, TriangleMesh};
pub use self::quad::Quad;
pub use self::sphere::Sphere;
pub use self::world::World;

use self::instance::{rot_apply, rot_t_apply, rotation_rows, srot_apply, srot_t_apply,
    stransform_aabb, transform_aabb};
use self::mesh::{stri_hit, stri_pdf};
use self::quad::{squad_hit, squad_pdf};
use self::sphere::{ssphere_hit, ssphere_pdf};

verus! {

/// The closed set of primitive shapes.
pub enum Primitive {
    Sphere(Sphere),
    Quad(Quad),
    Triangle(Triangle),
    Instance(Instance),
}

pub open spec fn sprim_bbox(p: Primitive) -> AABB {
    match p {
        Primitive::Sphere(s) => s.bbox,
        Primitive::Quad(q) => q.bbox,
        Primitive::Triangle(t) => t.bbox,
        Primitive::Instance(i) => i.bbox,
    }
}

/// The hit a primitive reports for a ray inside the interval; instanced
/// primitives intersect in local space and carry the hit back to world
/// space, transforming the geometric normal by the rotation.
pub open spec fn sprim_hit(p: Primitive, mats: Seq<Material>, ray: Ray, ray_t: Interval)
    -> Option<HitInfo>
    decreases p,
{
    match p {
        Primitive::Sphere(s) => ssphere_hit(s, mats, ray, ray_t),
        Primitive::Quad(q) => squad_hit(q, mats, ray, ray_t),
        Primitive::Triangle(t) => stri_hit(t, mats, ray, ray_t),
        Primitive::Instance(i) => {
            let local_origin = srot_t_apply(i.r0, i.r1, i.r2, vsub(ray.origin, i.trans));
            let local_dir = srot_t_apply(i.r0, i.r1, i.r2, ray.direction);
            let local_ray = Ray {
                origin: local_origin,
                direction: vnormalize(local_dir),
                time: ray.time,
            };
            match sprim_hit(*i.inner, mats, local_ray, ray_t) {
                None => None,
                Some(info) => Some(
                    HitInfo {
                        point: vadd(srot_apply(i.r0, i.r1, i.r2, info.point), i.trans),
                        geometric_normal: vnormalize(
                            srot_apply(i.r0, i.r1, i.r2, info.geometric_normal),
                        ),
                        shading_normal: info.shading_normal,
                        dist: info.dist,
                        front_face: info.front_face,
                        mat_id: info.mat_id,
                        u: info.u,
                        v: info.v,
                    },
                ),
            }
        },
    }
}

/// The light-sampling density a primitive reports for a direction.
pub open spec fn sprim_pdf(p: Primitive, mats: Seq<Material>, origin: Vec3, direction: Vec3,
    time: i64) -> i64
    decreases p,
{
    match p {
        Primitive::Sphere(s) => ssphere_pdf(s, mats, origin, direction, time),
        Primitive::Quad(q) => squad_pdf(q, mats, origin, direction, time),
        Primitive::Triangle(t) => stri_pdf(t, mats, origin, direction, time),
        Primitive::Instance(i) => {
            let local_origin = srot_t_apply(i.r0, i.r1, i.r2, vsub(origin, i.trans));
            let local_dir = srot_t_apply(i.r0, i.r1, i.r2, direction);
            sprim_pdf(*i.inner, mats, local_origin, local_dir, time)
        },
    }
}

impl Primitive {
    pub fn bounding_box(&self) -> (r: AABB)
        ensures
            r == sprim_bbox(*self),
    {
        match self {
            Primitive::Sphere(s) => s.bbox,
            Primitive::Quad(q) => q.bbox,
            Primitive::Triangle(t) => t.bbox,
            Primitive::Instance(i) => i.bbox,
        }
    }

    pub fn intersects(&self, mats: &Vec<Material>, ray: &Ray, ray_t: Interval) -> (r: Option<
        HitInfo>)
        ensures
            r == sprim_hit(*self, mats@, *ray, ray_t),
        decreases *self,
    {
        match self {
            Primitive::Sphere(s) => s.intersects(mats, ray, ray_t),
            Primitive::Quad(q) => q.intersects(mats, ray, ray_t),
            Primitive::Triangle(t) => t.intersects(mats, ray, ray_t),
            Primitive::Instance(i) => {
                let local_origin = rot_t_apply(&i.r0, &i.r1, &i.r2, &ray.origin.sub(&i.trans));
                let local_dir = rot_t_apply(&i.r0, &i.r1, &i.r2, &ray.direction);
                let local_ray = Ray::new(local_origin, local_dir, ray.time);
                match i.inner.intersects(mats, &local_ray, ray_t) {
                    None => None,
                    Some(info) => {
                        let world_point = rot_apply(&i.r0, &i.r1, &i.r2, &info.point).add(
                            &i.trans,
                        );
                        let world_normal = rot_apply(
                            &i.r0,
                            &i.r1,
                            &i.r2,
                            &info.geometric_normal,
                        ).normalize();
                        Some(
                            HitInfo {
                                point: world_point,
                                geometric_normal: world_normal,
                                shading_normal: info.shading_normal,
                                dist: info.dist,
                                front_face: info.front_face,
                                mat_id: info.mat_id,
                                u: info.u,
                                v: info.v,
                            },
                        )
                    },
                }
            },
        }
    }

    /// A direction toward the primitive, drawn from its light-sampling
    /// distribution; every primitive can produce one.
    pub fn sample(&self, origin: &Vec3, time: i64, rng: &mut Rng) -> (r: Option<Vec3>)
        ensures
            r is Some,
        decreases *self,
    {
        match self {
            Primitive::Sphere(s) => s.sample(origin, time, rng),
            Primitive::Quad(q) => q.sample(origin, rng),
            Primitive::Triangle(t) => t.sample(origin, rng),
            Primitive::Instance(i) => {
                let local_origin = rot_t_apply(&i.r0, &i.r1, &i.r2, &origin.sub(&i.trans));
                match i.inner.sample(&local_origin, time, rng) {
                    Some(dir) => Some(rot_apply(&i.r0, &i.r1, &i.r2, &dir)),
                    None => None,
                }
            },
        }
    }

    pub fn pdf(&self, mats: &Vec<Material>, origin: &Vec3, direction: &Vec3, time: i64) -> (r:
        i64)
        ensures
            r == sprim_pdf(*self, mats@, *origin, *direction, time),
        decreases *self,
    {
        match self {
            Primitive::Sphere(s) => s.pdf(mats, origin, direction, time),
            Primitive::Quad(q) => q.pdf(mats, origin, direction, time),
            Primitive::Triangle(t) => t.pdf(mats, origin, direction, time),
            Primitive::Instance(i) => {
                let local_origin = rot_t_apply(&i.r0, &i.r1, &i.r2, &origin.sub(&i.trans));
                let local_dir = rot_t_apply(&i.r0, &i.r1, &i.r2, direction);
                i.inner.pdf(mats, &local_origin, &local_dir, time)
            },
        }
    }
}

/// The instanced primitive `Instance::new` produces.
pub open spec fn sinstance_of(object: Primitive, axis: Vec3, angle: i64, translation: Vec3)
    -> Primitive {
    let rows = crate::hittable::instance::srotation_rows(axis, angle);
    Primitive::Instance(
        Instance {
            inner: Box::new(object),
            r0: rows.0,
            r1: rows.1,
            r2: rows.2,
            trans: translation,
            bbox: stransform_aabb(sprim_bbox(object), rows.0, rows.1, rows.2, translation),
        },
    )
}

impl Instance {
    /// Wrap every primitive of a group (such as a cuboid's faces or a
    /// mesh's triangles) in the same rotation and translation.
    pub fn wrap_all(objects: Vec<Primitive>, axis: Vec3, angle: i64, translation: Vec3) -> (r:
        Vec<Primitive>)
        ensures
            r@.len() == objects@.len(),
            forall|i: int|
                0 <= i < objects@.len() ==> (#[trigger] r@[i]) == sinstance_of(
                    objects@[i],
                    axis,
                    angle,
                    translation,
                ),
    {
        let mut out: Vec<Primitive> = Vec::new();
        let mut src = objects;
        let ghost orig = src@;
        let n = src.len();
        let mut i: usize = 0;
        proof {
            assert(orig.skip(0) =~= orig);
        }
        while src.len() > 0
            invariant
                orig.len() <= usize::MAX,
                i == out@.len(),
                i + src@.len() == orig.len(),
                src@ == orig.skip(i as int),
                forall|k: int|
                    0 <= k < i ==> (#[trigger] out@[k]) == sinstance_of(
                        orig[k],
                        axis,
                        angle,
                        translation,
                    ),
            decreases src@.len(),
        {
            let obj = src.remove(0);
            proof {
                assert(orig.skip(i as int).drop_first() =~= orig.skip(i as int + 1));
            }
            out.push(Instance::new(obj, axis, angle, translation));
            i = i + 1;
        }
        out
    }

    /// Wrap a primitive in a rotation about `axis` by `angle` followed by a
    /// translation; the box is transformed once here.
    pub fn new(object: Primitive, axis: Vec3, angle: i64, translation: Vec3) -> (r: Primitive)
        ensures
            r == sinstance_of(object, axis, angle, translation),
    {
        let (r0, r1, r2) = rotation_rows(&axis, angle);
        let bbox = transform_aabb(&object.bounding_box(), &r0, &r1, &r2, &translation);
        Primitive::Instance(
            Instance { inner: Box::new(object), r0, r1, r2, trans: translation, bbox },
        )
    }
}

} // verus!
