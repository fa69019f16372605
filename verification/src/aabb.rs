//! Axis-aligned bounding boxes with a slab intersection test.

use vstd::prelude::*;

use crate::fx::{fadd, fdiv, fmax, fmin, fmul, sadd64, sdiv64, smax64, smin64, smul64, ssub64,
    FX_HALF, FX_MAX, FX_MIN};
use crate::interval::Interval;
use crate::ray::Ray;
use crate::vec3::{v3, vadd, vmax, vmin, vscale, vsub, Vec3};

verus! {

/// Boxes are padded by this much on every axis at construction so that flat
/// geometry still produces a box with volume (about 1e-3).
pub const AABB_PAD: i64 = 66;

#[derive(Clone, Copy, Debug, PartialEq, Eq, Structural)]
pub struct AABB {
    pub min: Vec3,
    pub max: Vec3,
}

/// The box a constructor produces: corners ordered, then padded outward.
pub open spec fn aabb_new(a: Vec3, b: Vec3) -> AABB {
    AABB {
        min: vsub(vmin(a, b), v3(AABB_PAD, AABB_PAD, AABB_PAD)),
        max: vadd(vmax(a, b), v3(AABB_PAD, AABB_PAD, AABB_PAD)),
    }
}

/// The smallest box containing both arguments.
pub open spec fn aabb_union(a: AABB, b: AABB) -> AABB {
    AABB { min: vmin(a.min, b.min), max: vmax(a.max, b.max) }
}

/// `outer` contains `inner`, componentwise.
pub open spec fn aabb_contains_box(outer: AABB, inner: AABB) -> bool {
    &&& outer.min.x <= inner.min.x
    &&& outer.min.y <= inner.min.y
    &&& outer.min.z <= inner.min.z
    &&& inner.max.x <= outer.max.x
    &&& inner.max.y <= outer.max.y
    &&& inner.max.z <= outer.max.z
}

/// The empty box: union with it is the identity on boxes whose corners are
/// strictly inside the representable range.
pub open spec fn aabb_empty() -> AABB {
    AABB { min: v3(FX_MAX, FX_MAX, FX_MAX), max: v3(FX_MIN, FX_MIN, FX_MIN) }
}

/// The entry parameter of the slab test on one axis, with its exit parameter:
/// a zero direction component saturates the divisions, which plays the role
/// IEEE infinities play in a floating-point slab test.
pub open spec fn slab_axis(bmin: i64, bmax: i64, o: i64, d: i64) -> (i64, i64) {
    let t0 = sdiv64(ssub64(bmin, o), d);
    let t1 = sdiv64(ssub64(bmax, o), d);
    if t0 <= t1 {
        (t0, t1)
    } else {
        (t1, t0)
    }
}

/// Half of the box's surface area: the three pairwise extent products.
pub open spec fn ssurface_area(b: AABB) -> i64 {
    sadd64(
        sadd64(
            smul64(ssub64(b.max.x, b.min.x), ssub64(b.max.y, b.min.y)),
            smul64(ssub64(b.max.x, b.min.x), ssub64(b.max.z, b.min.z)),
        ),
        smul64(ssub64(b.max.y, b.min.y), ssub64(b.max.z, b.min.z)),
    )
}

/// The slab test: the entry parameter into the box, clamped below by the
/// interval start, or `None` when the box is missed inside the interval.
pub open spec fn aabb_hit(b: AABB, r: Ray, ray_t: Interval) -> Option<i64> {
    let (x0, x1) = slab_axis(b.min.x, b.max.x, r.origin.x, r.direction.x);
    let (y0, y1) = slab_axis(b.min.y, b.max.y, r.origin.y, r.direction.y);
    let (z0, z1) = slab_axis(b.min.z, b.max.z, r.origin.z, r.direction.z);
    let t_near = smax64(smax64(x0, y0), z0);
    let t_far = smin64(smin64(x1, y1), z1);
    if t_near <= t_far && t_far >= ray_t.min && t_near <= ray_t.max {
        Some(smax64(t_near, ray_t.min))
    } else {
        None
    }
}

impl AABB {
    pub fn new(a: Vec3, b: Vec3) -> (r: AABB)
        ensures
            r == aabb_new(a, b),
    {
        let delta = Vec3::splat(AABB_PAD);
        AABB { min: a.min(&b).sub(&delta), max: a.max(&b).add(&delta) }
    }

    /// The empty box, the identity for `union` on in-range boxes.
    pub fn empty_box() -> (r: AABB)
        ensures
            r == aabb_empty(),
    {
        AABB { min: Vec3::splat(FX_MAX), max: Vec3::splat(FX_MIN) }
    }

    pub fn union(self, other: AABB) -> (r: AABB)
        ensures
            r == aabb_union(self, other),
    {
        AABB { min: self.min.min(&other.min), max: self.max.max(&other.max) }
    }

    pub fn centroid(&self) -> (r: Vec3)
        ensures
            r == vscale(vadd(self.min, self.max), FX_HALF),
    {
        self.min.add(&self.max).scale(FX_HALF)
    }

    pub fn extent(&self) -> (r: Vec3)
        ensures
            r == vsub(self.max, self.min),
    {
        self.max.sub(&self.min)
    }

    /// Half of the true surface area, enough for SAH cost comparison.
    pub fn surface_area(&self) -> (r: i64)
        ensures
            r == ssurface_area(*self),
    {
        let e = self.extent();
        fadd(fadd(fmul(e.x, e.y), fmul(e.x, e.z)), fmul(e.y, e.z))
    }

    pub fn contains_box(&self, inner: &AABB) -> (r: bool)
        ensures
            r == aabb_contains_box(*self, *inner),
    {
        self.min.x <= inner.min.x && self.min.y <= inner.min.y && self.min.z <= inner.min.z
            && inner.max.x <= self.max.x && inner.max.y <= self.max.y && inner.max.z <= self.max.z
    }

    /// Slab test against the ray inside `ray_t`; returns the clamped entry
    /// parameter on a hit.
    pub fn intersects(&self, ray: &Ray, ray_t: Interval) -> (r: Option<i64>)
        ensures
            r == aabb_hit(*self, *ray, ray_t),
    {
        let tx0 = fdiv(crate::fx::fsub(self.min.x, ray.origin.x), ray.direction.x);
        let tx1 = fdiv(crate::fx::fsub(self.max.x, ray.origin.x), ray.direction.x);
        let (x0, x1) = if tx0 <= tx1 { (tx0, tx1) } else { (tx1, tx0) };
        let ty0 = fdiv(crate::fx::fsub(self.min.y, ray.origin.y), ray.direction.y);
        let ty1 = fdiv(crate::fx::fsub(self.max.y, ray.origin.y), ray.direction.y);
        let (y0, y1) = if ty0 <= ty1 { (ty0, ty1) } else { (ty1, ty0) };
        let tz0 = fdiv(crate::fx::fsub(self.min.z, ray.origin.z), ray.direction.z);
        let tz1 = fdiv(crate::fx::fsub(self.max.z, ray.origin.z), ray.direction.z);
        let (z0, z1) = if tz0 <= tz1 { (tz0, tz1) } else { (tz1, tz0) };
        let t_near = fmax(fmax(x0, y0), z0);
        let t_far = fmin(fmin(x1, y1), z1);
        if t_near <= t_far && t_far >= ray_t.min && t_near <= ray_t.max {
            Some(fmax(t_near, ray_t.min))
        } else {
            None
        }
    }
}

/// A box whose corners are ordered on every axis.
pub open spec fn aabb_ordered(b: AABB) -> bool {
    b.min.x <= b.max.x && b.min.y <= b.max.y && b.min.z <= b.max.z
}

/// On one axis, a wider slab yields a wider (sorted) parameter range.
proof fn lemma_slab_axis_monotone(obmin: i64, obmax: i64, ibmin: i64, ibmax: i64, o: i64, d: i64)
    requires
        obmin <= ibmin,
        ibmin <= ibmax,
        ibmax <= obmax,
    ensures
        slab_axis(obmin, obmax, o, d).0 <= slab_axis(ibmin, ibmax, o, d).0,
        slab_axis(ibmin, ibmax, o, d).1 <= slab_axis(obmin, obmax, o, d).1,
{
    let no0 = ssub64(obmin, o);
    let no1 = ssub64(obmax, o);
    let ni0 = ssub64(ibmin, o);
    let ni1 = ssub64(ibmax, o);
    crate::fx::lemma_clip_monotone(obmin - o, ibmin - o);
    crate::fx::lemma_clip_monotone(ibmin - o, ibmax - o);
    crate::fx::lemma_clip_monotone(ibmax - o, obmax - o);
    crate::fx::lemma_sdiv64_monotone(no0, ni0, d);
    crate::fx::lemma_sdiv64_monotone(ni0, ni1, d);
    crate::fx::lemma_sdiv64_monotone(ni1, no1, d);
}

/// Containment is conservative under the slab test: a ray that hits a box
/// inside an interval also hits every box containing it, whatever the
/// interval. This is the geometric fact behind hierarchy pruning.
#[verifier::rlimit(100)]
pub proof fn lemma_slab_monotone_in_box(outer: AABB, inner: AABB, ray: Ray, ray_t: Interval)
    requires
        aabb_contains_box(outer, inner),
        aabb_ordered(inner),
        aabb_hit(inner, ray, ray_t) is Some,
    ensures
        aabb_hit(outer, ray, ray_t) is Some,
{
    lemma_slab_axis_monotone(
        outer.min.x,
        outer.max.x,
        inner.min.x,
        inner.max.x,
        ray.origin.x,
        ray.direction.x,
    );
    lemma_slab_axis_monotone(
        outer.min.y,
        outer.max.y,
        inner.min.y,
        inner.max.y,
        ray.origin.y,
        ray.direction.y,
    );
    lemma_slab_axis_monotone(
        outer.min.z,
        outer.max.z,
        inner.min.z,
        inner.max.z,
        ray.origin.z,
        ray.direction.z,
    );
}

/// The union of two boxes does not depend on argument order.
pub proof fn lemma_union_commutative(a: AABB, b: AABB)
    ensures
        aabb_union(a, b) == aabb_union(b, a),
{
}

/// The union of three boxes does not depend on grouping.
pub proof fn lemma_union_associative(a: AABB, b: AABB, c: AABB)
    ensures
        aabb_union(aabb_union(a, b), c) == aabb_union(a, aabb_union(b, c)),
{
}

/// The union contains both of its arguments.
pub proof fn lemma_union_contains(a: AABB, b: AABB)
    ensures
        aabb_contains_box(aabb_union(a, b), a),
        aabb_contains_box(aabb_union(a, b), b),
{
}

/// Box containment is transitive.
pub proof fn lemma_contains_trans(a: AABB, b: AABB, c: AABB)
    requires
        aabb_contains_box(a, b),
        aabb_contains_box(b, c),
    ensures
        aabb_contains_box(a, c),
{
}

} // verus!
