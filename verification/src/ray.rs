//! Rays: an origin, a unit-normalized direction, and a time sample for
//! motion blur.

use vstd::prelude::*;

use crate::vec3::{vadd, vnormalize, vscale, Vec3};

verus! {

#[derive(Clone, Copy, Debug, PartialEq, Eq, Structural)]
pub struct Ray {
    pub origin: Vec3,
    pub direction: Vec3,
    pub time: i64,
}

/// The point reached after travelling `t` along the ray.
pub open spec fn ray_at(r: Ray, t: i64) -> Vec3 {
    vadd(r.origin, vscale(r.direction, t))
}

impl Ray {
    /// The direction handed in is normalized, as every consumer assumes.
    pub fn new(origin: Vec3, direction: Vec3, time: i64) -> (r: Ray)
        ensures
            r.origin == origin,
            r.direction == vnormalize(direction),
            r.time == time,
    {
        Ray { origin, direction: direction.normalize(), time }
    }

    pub fn at(&self, t: i64) -> (p: Vec3)
        ensures
            p == ray_at(*self, t),
    {
        self.origin.add(&self.direction.scale(t))
    }
}

} // verus!
