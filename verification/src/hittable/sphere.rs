//! Spheres, still or moving, with solid-angle light sampling.

use vstd::prelude::*;

use crate::aabb::{aabb_new, aabb_union, AABB};
use crate::bsdf::sampling::{sample_unit_circle, to_world};
use crate::bsdf::Material;
use crate::fx::{facos, fadd, fdiv, fmax, fmul, fsqrt, fsub, sacos, sadd64, sdiv64, smax64,
    smul64, sneg64, ssqrt64, ssub64, FX_MAX, FX_ONE, FX_PI, FX_TWO_PI};
use crate::hittable::hit_info::{snew_hit_info, HitInfo};
use crate::interval::Interval;
use crate::ray::{ray_at, Ray};
use crate::rng::Rng;
use crate::vec3::{v3, vadd, vdot, vlength_squared, vnormalize, vscale, vsub, Vec3};

verus! {

pub struct Sphere {
    pub radius: i64,
    pub position1: Vec3,
    pub position2: Vec3,
    pub mat_id: usize,
    pub bbox: AABB,
}

/// The center at a motion-blur time: linear interpolation between the two
/// endpoint positions.
pub open spec fn ssphere_position(s: Sphere, t: i64) -> Vec3 {
    vadd(s.position1, vscale(vsub(s.position2, s.position1), t))
}

/// Spherical surface coordinates of a unit direction.
pub open spec fn ssphere_uv(p: Vec3) -> (i64, i64) {
    let theta = sacos(sneg64(p.y));
    let phi = sadd64(crate::fx::satan2(sneg64(p.z), p.x), FX_PI);
    (sdiv64(phi, FX_TWO_PI), sdiv64(theta, FX_PI))
}

/// Geometric sphere intersection: the nearer quadratic root when the origin
/// is outside, the farther one when inside, accepted only strictly inside
/// the interval.
pub open spec fn ssphere_hit(s: Sphere, mats: Seq<Material>, ray: Ray, ray_t: Interval)
    -> Option<HitInfo> {
    let center = ssphere_position(s, ray.time);
    let l = vsub(center, ray.origin);
    let sp = vdot(l, ray.direction);
    let l2 = vlength_squared(l);
    let r2 = smul64(s.radius, s.radius);
    if sp < 0 && l2 > r2 {
        None
    } else {
        let d2 = ssub64(l2, smul64(sp, sp));
        if d2 > r2 {
            None
        } else {
            let q = ssqrt64(ssub64(r2, d2));
            let t = if l2 > r2 {
                ssub64(sp, q)
            } else {
                sadd64(sp, q)
            };
            if t <= ray_t.min || t >= ray_t.max {
                None
            } else {
                let point = ray_at(ray, t);
                let normal = vnormalize(vsub(point, center));
                let uv = ssphere_uv(normal);
                Some(snew_hit_info(ray, point, normal, t, s.mat_id, mats, uv.0, uv.1))
            }
        }
    }
}

/// The cosine of the half-angle of the cone the sphere subtends from
/// `origin`: sqrt(1 - r^2/d^2). An origin on or inside the sphere drives
/// the discriminant nonpositive and the root to zero, a harmless total
/// fallback.
pub open spec fn ssphere_cos_theta_max(s: Sphere, origin: Vec3, time: i64) -> i64 {
    ssqrt64(
        ssub64(
            FX_ONE,
            sdiv64(
                smul64(s.radius, s.radius),
                vlength_squared(vsub(ssphere_position(s, time), origin)),
            ),
        ),
    )
}

/// The probability density of the direction toward this sphere: directions
/// are drawn uniformly over the cone the sphere subtends, whose solid angle
/// is `2 pi (1 - cos(theta_max))`, so the density of every direction
/// `sample` can produce is the reciprocal of that; zero when the ray
/// misses. This keeps `pdf` consistent with `sample`, as the multiple
/// importance sampling weights require.
pub open spec fn ssphere_pdf(s: Sphere, mats: Seq<Material>, origin: Vec3, direction: Vec3,
    time: i64) -> i64 {
    let ray = Ray { origin, direction: vnormalize(direction), time };
    if ssphere_hit(s, mats, ray, Interval { min: 0, max: FX_MAX }) is Some {
        sdiv64(
            FX_ONE,
            smul64(FX_TWO_PI, ssub64(FX_ONE, ssphere_cos_theta_max(s, origin, time))),
        )
    } else {
        0
    }
}

impl Sphere {
    pub fn new_still(radius: i64, position: Vec3, mat_id: usize) -> (r: Sphere)
        ensures
            r.radius == smax64(radius, 0),
            r.position1 == position,
            r.position2 == position,
            r.mat_id == mat_id,
            r.bbox == aabb_new(
                vsub(position, v3(radius, radius, radius)),
                vadd(position, v3(radius, radius, radius)),
            ),
    {
        let rvec = Vec3::splat(radius);
        let bbox = AABB::new(position.sub(&rvec), position.add(&rvec));
        Sphere { radius: fmax(radius, 0), position1: position, position2: position, mat_id, bbox }
    }

    pub fn new_moving(radius: i64, position1: Vec3, position2: Vec3, mat_id: usize) -> (r: Sphere)
        ensures
            r.radius == smax64(radius, 0),
            r.position1 == position1,
            r.position2 == position2,
            r.mat_id == mat_id,
            r.bbox == aabb_union(
                aabb_new(
                    vsub(position1, v3(radius, radius, radius)),
                    vadd(position1, v3(radius, radius, radius)),
                ),
                aabb_new(
                    vsub(position2, v3(radius, radius, radius)),
                    vadd(position2, v3(radius, radius, radius)),
                ),
            ),
    {
        let rvec = Vec3::splat(radius);
        let box1 = AABB::new(position1.sub(&rvec), position1.add(&rvec));
        let box2 = AABB::new(position2.sub(&rvec), position2.add(&rvec));
        Sphere {
            radius: fmax(radius, 0),
            position1,
            position2,
            mat_id,
            bbox: box1.union(box2),
        }
    }

    pub fn get_position(&self, t: i64) -> (r: Vec3)
        ensures
            r == ssphere_position(*self, t),
    {
        self.position1.add(&self.position2.sub(&self.position1).scale(t))
    }

    fn get_uv(p: &Vec3) -> (r: (i64, i64))
        ensures
            r == ssphere_uv(*p),
    {
        let theta = facos(crate::fx::fneg(p.y));
        let phi = fadd(crate::fx::fatan2(crate::fx::fneg(p.z), p.x), FX_PI);
        (fdiv(phi, FX_TWO_PI), fdiv(theta, FX_PI))
    }

    pub fn intersects(&self, mats: &Vec<Material>, ray: &Ray, ray_t: Interval) -> (r: Option<
        HitInfo>)
        ensures
            r == ssphere_hit(*self, mats@, *ray, ray_t),
    {
        let current_center = self.get_position(ray.time);
        let l = current_center.sub(&ray.origin);
        let s = l.dot(&ray.direction);
        let l2 = l.length_squared();
        let r2 = fmul(self.radius, self.radius);
        if s < 0 && l2 > r2 {
            return None;
        }
        let d2 = fsub(l2, fmul(s, s));
        if d2 > r2 {
            return None;
        }
        let q = fsqrt(fsub(r2, d2));
        let intersect = if l2 > r2 {
            fsub(s, q)
        } else {
            fadd(s, q)
        };
        if intersect <= ray_t.min || intersect >= ray_t.max {
            return None;
        }
        let point = ray.at(intersect);
        let normal = point.sub(&current_center).normalize();
        let (u, v) = Self::get_uv(&normal);
        Some(HitInfo::new(ray, point, normal, intersect, self.mat_id, mats, u, v))
    }

    /// A direction drawn uniformly over the cone the sphere subtends from
    /// `origin`, so that the direction measure is the one `pdf` reports.
    pub fn sample(&self, origin: &Vec3, time: i64, rng: &mut Rng) -> (r: Option<Vec3>)
        ensures
            r is Some,
    {
        let center = self.get_position(time);
        let to_center = center.sub(origin);
        let d2 = to_center.length_squared();
        let r2 = fmul(self.radius, self.radius);
        let cos_theta_max = fsqrt(fsub(FX_ONE, fdiv(r2, d2)));
        let axis = to_center.normalize();
        let u = rng.next_unit();
        let z = fadd(FX_ONE, fmul(u, fsub(cos_theta_max, FX_ONE)));
        let sin_theta = fsqrt(fmax(fsub(FX_ONE, fmul(z, z)), 0));
        let (cphi, sphi) = sample_unit_circle(rng);
        let local = Vec3::new(fmul(sin_theta, cphi), fmul(sin_theta, sphi), z);
        Some(to_world(&axis, &local))
    }

    pub fn pdf(&self, mats: &Vec<Material>, origin: &Vec3, direction: &Vec3, time: i64) -> (r:
        i64)
        ensures
            r == ssphere_pdf(*self, mats@, *origin, *direction, time),
    {
        let ray = Ray::new(*origin, *direction, time);
        match self.intersects(mats, &ray, Interval::new(0, FX_MAX)) {
            Some(_) => {
                let r2 = fmul(self.radius, self.radius);
                let cos_theta_max = fsqrt(
                    fsub(
                        FX_ONE,
                        fdiv(r2, self.get_position(time).sub(origin).length_squared()),
                    ),
                );
                fdiv(FX_ONE, fmul(FX_TWO_PI, fsub(FX_ONE, cos_theta_max)))
            },
            None => 0,
        }
    }
}

} // verus!
