//! Rigid instancing: a rotation followed by a translation, applied to a
//! wrapped primitive by transforming rays into local space and hits back out.

use vstd::prelude::*;

use crate::aabb::{aabb_new, AABB};
use crate::fx::{fadd, fcos, fmul, fsin, fsub, sadd64, scos, smul64, ssin, ssub64, FX_MAX, FX_MIN,
    FX_ONE};
use crate::hittable::Primitive;
use crate::vec3::{v3, vadd, vdot, vmax, vmin, vnormalize, vscale, Vec3};

verus! {

/// A wrapped primitive with a rotation (rows `r0`, `r1`, `r2`) and a
/// translation; the box is the transformed child box, computed once.
pub struct Instance {
    pub inner: Box<Primitive>,
    pub r0: Vec3,
    pub r1: Vec3,
    pub r2: Vec3,
    pub trans: Vec3,
    pub bbox: AABB,
}

/// Apply the rotation with the given rows.
pub open spec fn srot_apply(r0: Vec3, r1: Vec3, r2: Vec3, v: Vec3) -> Vec3 {
    v3(vdot(r0, v), vdot(r1, v), vdot(r2, v))
}

/// Apply the transpose (the inverse for a rotation).
pub open spec fn srot_t_apply(r0: Vec3, r1: Vec3, r2: Vec3, v: Vec3) -> Vec3 {
    vadd(vadd(vscale(r0, v.x), vscale(r1, v.y)), vscale(r2, v.z))
}

pub fn rot_apply(r0: &Vec3, r1: &Vec3, r2: &Vec3, v: &Vec3) -> (r: Vec3)
    ensures
        r == srot_apply(*r0, *r1, *r2, *v),
{
    Vec3::new(r0.dot(v), r1.dot(v), r2.dot(v))
}

pub fn rot_t_apply(r0: &Vec3, r1: &Vec3, r2: &Vec3, v: &Vec3) -> (r: Vec3)
    ensures
        r == srot_t_apply(*r0, *r1, *r2, *v),
{
    r0.scale(v.x).add(&r1.scale(v.y)).add(&r2.scale(v.z))
}

/// The rows of the rotation of `angle` radians about the normalized `axis`
/// (Rodrigues' formula).
pub open spec fn srotation_rows(axis: Vec3, angle: i64) -> (Vec3, Vec3, Vec3) {
    let a = vnormalize(axis);
    let c = scos(angle);
    let s = ssin(angle);
    let cc = ssub64(FX_ONE, c);
    (
        v3(
            sadd64(c, smul64(smul64(a.x, a.x), cc)),
            ssub64(smul64(smul64(a.x, a.y), cc), smul64(a.z, s)),
            sadd64(smul64(smul64(a.x, a.z), cc), smul64(a.y, s)),
        ),
        v3(
            sadd64(smul64(smul64(a.y, a.x), cc), smul64(a.z, s)),
            sadd64(c, smul64(smul64(a.y, a.y), cc)),
            ssub64(smul64(smul64(a.y, a.z), cc), smul64(a.x, s)),
        ),
        v3(
            ssub64(smul64(smul64(a.z, a.x), cc), smul64(a.y, s)),
            sadd64(smul64(smul64(a.z, a.y), cc), smul64(a.x, s)),
            sadd64(c, smul64(smul64(a.z, a.z), cc)),
        ),
    )
}

pub fn rotation_rows(axis: &Vec3, angle: i64) -> (r: (Vec3, Vec3, Vec3))
    ensures
        r == srotation_rows(*axis, angle),
{
    let a = axis.normalize();
    let c = fcos(angle);
    let s = fsin(angle);
    let cc = fsub(FX_ONE, c);
    (
        Vec3::new(
            fadd(c, fmul(fmul(a.x, a.x), cc)),
            fsub(fmul(fmul(a.x, a.y), cc), fmul(a.z, s)),
            fadd(fmul(fmul(a.x, a.z), cc), fmul(a.y, s)),
        ),
        Vec3::new(
            fadd(fmul(fmul(a.y, a.x), cc), fmul(a.z, s)),
            fadd(c, fmul(fmul(a.y, a.y), cc)),
            fsub(fmul(fmul(a.y, a.z), cc), fmul(a.x, s)),
        ),
        Vec3::new(
            fsub(fmul(fmul(a.z, a.x), cc), fmul(a.y, s)),
            fadd(fmul(fmul(a.z, a.y), cc), fmul(a.x, s)),
            fadd(c, fmul(fmul(a.z, a.z), cc)),
        ),
    )
}

/// The transformed box: every corner is rotated and translated, and the
/// padded box of the componentwise extremes is taken.
pub open spec fn stransform_corner(b: AABB, k: int) -> Vec3 {
    v3(
        if k % 2 == 0 {
            b.min.x
        } else {
            b.max.x
        },
        if (k / 2) % 2 == 0 {
            b.min.y
        } else {
            b.max.y
        },
        if (k / 4) % 2 == 0 {
            b.min.z
        } else {
            b.max.z
        },
    )
}

pub open spec fn stransform_aabb_rec(
    b: AABB,
    r0: Vec3,
    r1: Vec3,
    r2: Vec3,
    t: Vec3,
    k: nat,
) -> (Vec3, Vec3)
    decreases k,
{
    if k == 0 {
        (v3(FX_MAX, FX_MAX, FX_MAX), v3(FX_MIN, FX_MIN, FX_MIN))
    } else {
        let (lo, hi) = stransform_aabb_rec(b, r0, r1, r2, t, (k - 1) as nat);
        let w = vadd(srot_apply(r0, r1, r2, stransform_corner(b, k - 1)), t);
        (vmin(lo, w), vmax(hi, w))
    }
}

pub open spec fn stransform_aabb(b: AABB, r0: Vec3, r1: Vec3, r2: Vec3, t: Vec3) -> AABB {
    let (lo, hi) = stransform_aabb_rec(b, r0, r1, r2, t, 8);
    aabb_new(lo, hi)
}

pub fn transform_aabb(b: &AABB, r0: &Vec3, r1: &Vec3, r2: &Vec3, t: &Vec3) -> (r: AABB)
    ensures
        r == stransform_aabb(*b, *r0, *r1, *r2, *t),
{
    let mut lo = Vec3::splat(FX_MAX);
    let mut hi = Vec3::splat(FX_MIN);
    let mut k: usize = 0;
    while k < 8
        invariant
            k <= 8,
            (lo, hi) == stransform_aabb_rec(*b, *r0, *r1, *r2, *t, k as nat),
        decreases 8 - k,
    {
        let cx = if k % 2 == 0 {
            b.min.x
        } else {
            b.max.x
        };
        let cy = if (k / 2) % 2 == 0 {
            b.min.y
        } else {
            b.max.y
        };
        let cz = if (k / 4) % 2 == 0 {
            b.min.z
        } else {
            b.max.z
        };
        let corner = Vec3::new(cx, cy, cz);
        let w = rot_apply(r0, r1, r2, &corner).add(t);
        lo = lo.min(&w);
        hi = hi.max(&w);
        k = k + 1;
    }
    AABB::new(lo, hi)
}

} // verus!
