//! The scene aggregate: renderable objects, light-emitting objects, and the
//! material arena both index into.

use vstd::prelude::*;

use crate::bsdf::Material;
use crate::hittable::hit_info::HitInfo;
use crate::hittable::list::{slist_hit, slist_wf, HittableList};
use crate::hittable::Primitive;
use crate::interval::Interval;
use crate::ray::Ray;
use crate::vec3::{vlength, vnormalize, vsub, Vec3};

verus! {

/// Offset used as the shadow-ray start so a surface does not shadow itself
/// (about 1e-3).
pub const SHADOW_EPS: i64 = 66;

pub struct World {
    pub objects: HittableList,
    pub lights: HittableList,
    pub materials: Vec<Material>,
}

pub open spec fn sworld_wf(w: World) -> bool {
    slist_wf(w.objects) && slist_wf(w.lights)
}

/// The combined query: both aggregates are intersected and the nearer hit
/// wins; the flag says whether the winner was a light surface. A tie goes to
/// the object hit.
pub open spec fn sintersect_all(w: World, ray: Ray, ray_t: Interval) -> Option<(HitInfo, bool)> {
    let light_hit = slist_hit(w.lights, w.materials@, ray, ray_t);
    let obj_hit = slist_hit(w.objects, w.materials@, ray, ray_t);
    match (light_hit, obj_hit) {
        (None, None) => None,
        (None, Some(obj)) => Some((obj, false)),
        (Some(light), None) => Some((light, true)),
        (Some(light), Some(obj)) => if light.dist < obj.dist {
            Some((light, true))
        } else {
            Some((obj, false))
        },
    }
}

/// Whether the segment from just past `origin` to `light_pos` is free of
/// scene objects.
pub open spec fn sshadow_ray_clear(w: World, origin: Vec3, light_pos: Vec3, time: i64) -> bool {
    let dir = vnormalize(vsub(light_pos, origin));
    let max_dist = vlength(vsub(light_pos, origin));
    slist_hit(
        w.objects,
        w.materials@,
        Ray { origin, direction: vnormalize(dir), time },
        Interval { min: SHADOW_EPS, max: max_dist },
    ) is None
}

impl World {
    pub fn new() -> (r: World)
        ensures
            r.objects.objects@.len() == 0,
            r.lights.objects@.len() == 0,
            r.materials@.len() == 0,
            sworld_wf(r),
    {
        World { objects: HittableList::new(), lights: HittableList::new(), materials: Vec::new() }
    }

    /// Register a material and get the identifier primitives refer to it by.
    pub fn add_material(&mut self, m: Material) -> (r: usize)
        ensures
            final(self).materials@ == old(self).materials@.push(m),
            r == old(self).materials@.len(),
            final(self).objects == old(self).objects,
            final(self).lights == old(self).lights,
    {
        let id = self.materials.len();
        self.materials.push(m);
        id
    }

    pub fn add_object(&mut self, object: Primitive)
        requires
            sworld_wf(*old(self)),
        ensures
            sworld_wf(*final(self)),
            final(self).objects.objects@ == old(self).objects.objects@.push(object),
            final(self).lights == old(self).lights,
            final(self).materials == old(self).materials,
    {
        self.objects.add(object);
    }

    pub fn add_light(&mut self, light: Primitive)
        requires
            sworld_wf(*old(self)),
        ensures
            sworld_wf(*final(self)),
            final(self).lights.objects@ == old(self).lights.objects@.push(light),
            final(self).objects == old(self).objects,
            final(self).materials == old(self).materials,
    {
        self.lights.add(light);
    }

    /// Build both hierarchies once the scene is complete.
    pub fn build_bvh(&mut self)
        ensures
            sworld_wf(*final(self)),
            final(self).objects.objects == old(self).objects.objects,
            final(self).lights.objects == old(self).lights.objects,
            final(self).materials == old(self).materials,
    {
        self.objects.build_bvh();
        self.lights.build_bvh();
    }

    pub fn intersect_objects(&self, ray: &Ray, ray_t: Interval) -> (r: Option<HitInfo>)
        requires
            sworld_wf(*self),
        ensures
            r == slist_hit(self.objects, self.materials@, *ray, ray_t),
    {
        self.objects.intersects(&self.materials, ray, ray_t)
    }

    pub fn intersect_lights(&self, ray: &Ray, ray_t: Interval) -> (r: Option<HitInfo>)
        requires
            sworld_wf(*self),
        ensures
            r == slist_hit(self.lights, self.materials@, *ray, ray_t),
    {
        self.lights.intersects(&self.materials, ray, ray_t)
    }

    /// Intersect objects and lights; the nearer hit wins and is flagged when
    /// it is a light surface.
    pub fn intersect_all(&self, ray: &Ray, ray_t: Interval) -> (r: Option<(HitInfo, bool)>)
        requires
            sworld_wf(*self),
        ensures
            r == sintersect_all(*self, *ray, ray_t),
    {
        let light_hit = self.intersect_lights(ray, ray_t);
        let obj_hit = self.intersect_objects(ray, ray_t);
        match (light_hit, obj_hit) {
            (None, None) => None,
            (None, Some(obj)) => Some((obj, false)),
            (Some(light), None) => Some((light, true)),
            (Some(light), Some(obj)) => {
                if light.dist < obj.dist {
                    Some((light, true))
                } else {
                    Some((obj, false))
                }
            },
        }
    }

    /// Visibility test along the segment to a light position, excluding the
    /// endpoints.
    pub fn shadow_ray(&self, origin: &Vec3, light_pos: &Vec3, time: i64) -> (r: bool)
        requires
            sworld_wf(*self),
        ensures
            r == sshadow_ray_clear(*self, *origin, *light_pos, time),
    {
        let dir = light_pos.sub(origin).normalize();
        let max_dist = light_pos.sub(origin).length();
        let ray = Ray::new(*origin, dir, time);
        let hit = self.intersect_objects(&ray, Interval::new(SHADOW_EPS, max_dist));
        match hit {
            Some(_) => false,
            None => true,
        }
    }
}

} // verus!
