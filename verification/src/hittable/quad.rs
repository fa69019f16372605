//! Parallelogram patches, used for walls, lights and cuboid faces.

use vstd::prelude::*;

use crate::aabb::{aabb_new, aabb_union, AABB};
use crate::bsdf::Material;
use crate::fx::{fabs, fdiv, fmul, sabs64, sdiv64, smul64, FX_MAX, FX_ONE};
use crate::hittable::hit_info::{snew_hit_info, HitInfo};
use crate::interval::Interval;
use crate::ray::{ray_at, Ray};
use crate::rng::Rng;
use crate::vec3::{vadd, vcross, vdiv_s, vdot, vlength, vlength_squared, vnormalize, vsub, Vec3};

verus! {

/// A parallelogram spanned by `u` and `v` from corner `q`; `w`, `normal` and
/// `d` cache the plane data used by the intersection test.
pub struct Quad {
    pub q: Vec3,
    pub u: Vec3,
    pub v: Vec3,
    pub w: Vec3,
    pub normal: Vec3,
    pub d: i64,
    pub bbox: AABB,
    pub mat_id: usize,
}

/// The quad a constructor produces: cached plane data and padded box.
pub open spec fn squad_new(q: Vec3, u: Vec3, v: Vec3, mat_id: usize) -> Quad {
    Quad {
        q,
        u,
        v,
        w: vdiv_s(vcross(u, v), vlength_squared(vcross(u, v))),
        normal: vnormalize(vcross(u, v)),
        d: vdot(vnormalize(vcross(u, v)), q),
        bbox: aabb_union(aabb_new(q, vadd(vadd(q, u), v)), aabb_new(vadd(q, u), vadd(q, v))),
        mat_id,
    }
}

/// Plane intersection followed by the barycentric inside test; a ray in the
/// plane (zero normal dot direction) never hits.
pub open spec fn squad_hit(qd: Quad, mats: Seq<Material>, ray: Ray, ray_t: Interval) -> Option<
    HitInfo> {
    let nd = vdot(qd.normal, ray.direction);
    if nd == 0 {
        None
    } else {
        let t = sdiv64(crate::fx::ssub64(qd.d, vdot(qd.normal, ray.origin)), nd);
        if !(ray_t.min <= t && t <= ray_t.max) {
            None
        } else {
            let p = vsub(ray_at(ray, t), qd.q);
            let alpha = vdot(qd.w, vcross(p, qd.v));
            let beta = vdot(qd.w, vcross(qd.u, p));
            if !(0 <= alpha && alpha <= FX_ONE) || !(0 <= beta && beta <= FX_ONE) {
                None
            } else {
                Some(snew_hit_info(ray, ray_at(ray, t), qd.normal, t, qd.mat_id, mats, alpha,
                    beta))
            }
        }
    }
}

/// Density of hitting this quad from `origin` along `direction`:
/// `dist^2 / (cos(theta) * area)` on a hit, zero otherwise.
pub open spec fn squad_pdf(qd: Quad, mats: Seq<Material>, origin: Vec3, direction: Vec3,
    time: i64) -> i64 {
    let ray = Ray { origin, direction: vnormalize(direction), time };
    match squad_hit(qd, mats, ray, Interval { min: 0, max: FX_MAX }) {
        Some(hit) => {
            let area = vlength(vcross(qd.u, qd.v));
            let cos_theta = sabs64(vdot(ray.direction, hit.geometric_normal));
            sdiv64(smul64(hit.dist, hit.dist), smul64(cos_theta, area))
        },
        None => 0,
    }
}

impl Quad {
    pub fn new(q: Vec3, u: Vec3, v: Vec3, mat_id: usize) -> (r: Quad)
        ensures
            r == squad_new(q, u, v, mat_id),
    {
        let b1 = AABB::new(q, q.add(&u).add(&v));
        let b2 = AABB::new(q.add(&u), q.add(&v));
        let bbox = b1.union(b2);
        let n = u.cross(&v);
        let normal = n.normalize();
        let d = normal.dot(&q);
        let w = n.div_s(n.length_squared());
        Quad { q, u, v, w, normal, d, bbox, mat_id }
    }

    pub fn intersects(&self, mats: &Vec<Material>, ray: &Ray, ray_t: Interval) -> (r: Option<
        HitInfo>)
        ensures
            r == squad_hit(*self, mats@, *ray, ray_t),
    {
        let nd = self.normal.dot(&ray.direction);
        if nd == 0 {
            return None;
        }
        let t = fdiv(crate::fx::fsub(self.d, self.normal.dot(&ray.origin)), nd);
        if !ray_t.contains(t) {
            return None;
        }
        let intersection = ray.at(t);
        let p = intersection.sub(&self.q);
        let alpha = self.w.dot(&p.cross(&self.v));
        let beta = self.w.dot(&self.u.cross(&p));
        if !(0 <= alpha && alpha <= FX_ONE) || !(0 <= beta && beta <= FX_ONE) {
            return None;
        }
        Some(HitInfo::new(ray, intersection, self.normal, t, self.mat_id, mats, alpha, beta))
    }

    /// A direction from `origin` toward a uniformly sampled surface point.
    pub fn sample(&self, origin: &Vec3, rng: &mut Rng) -> (r: Option<Vec3>)
        ensures
            r is Some,
    {
        let u = rng.next_unit();
        let v = rng.next_unit();
        let point = self.q.add(&self.u.scale(u)).add(&self.v.scale(v));
        let dir = point.sub(origin).normalize();
        Some(dir)
    }

    pub fn pdf(&self, mats: &Vec<Material>, origin: &Vec3, direction: &Vec3, time: i64) -> (r:
        i64)
        ensures
            r == squad_pdf(*self, mats@, *origin, *direction, time),
    {
        let ray = Ray::new(*origin, *direction, time);
        match self.intersects(mats, &ray, Interval::new(0, FX_MAX)) {
            Some(hit) => {
                let area = self.u.cross(&self.v).length();
                let cos_theta = fabs(ray.direction.dot(&hit.geometric_normal));
                fdiv(fmul(hit.dist, hit.dist), fmul(cos_theta, area))
            },
            None => 0,
        }
    }

    /// Half the doubled surface area is not needed here: lights use the full
    /// parallelogram area.
    pub fn area(&self) -> (r: i64)
        ensures
            r == vlength(vcross(self.u, self.v)),
    {
        self.u.cross(&self.v).length()
    }
}

} // verus!
