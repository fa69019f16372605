//! Direction sampling: local frames around a normal, cosine-weighted
//! hemisphere sampling, and the GGX / GTR1 microfacet distributions.
//!
//! Random points on the unit disk come from rejection sampling, so no
//! trigonometric functions are needed; the handful of attempts is capped and
//! the center of the disk is the (measure-zero) fallback.

use vstd::prelude::*;

use crate::fx::{fabs, fadd, fdiv, flog2, fmax, fmul, fpow_frac, fsqrt, fsub, sabs64, sadd64,
    sdiv64, slog2, smax64, smul64, ssqrt64, ssub64, FX_ONE, FX_PI};
use crate::rng::Rng;
use crate::vec3::{v3, vadd, vcross, vdot, vnormalize, vscale, Vec3};

verus! {

/// Roughness terms are floored at about 0.001 to keep the microfacet
/// denominators away from zero.
pub const ALPHA_FLOOR: i64 = 66;

/// The fixed auxiliary axis used to seed a tangent frame: mostly-x normals
/// pair with the y axis, everything else with the x axis.
pub open spec fn sbasis_seed(n: Vec3) -> Vec3 {
    if sabs64(n.x) > 58982 {
        v3(0, FX_ONE, 0)
    } else {
        v3(FX_ONE, 0, 0)
    }
}

/// The tangent of the frame around `n`.
pub open spec fn stangent(n: Vec3) -> Vec3 {
    vnormalize(vcross(n, sbasis_seed(n)))
}

/// The bitangent of the frame around `n`.
pub open spec fn sbitangent(n: Vec3) -> Vec3 {
    vcross(n, stangent(n))
}

/// World-to-local: coordinates of `v` in the tangent frame of `n`, with the
/// normal as the local z axis.
pub open spec fn sto_local(n: Vec3, v: Vec3) -> Vec3 {
    v3(vdot(v, stangent(n)), vdot(v, sbitangent(n)), vdot(v, n))
}

/// Local-to-world: rebuild a world vector from tangent-frame coordinates.
pub open spec fn sto_world(n: Vec3, l: Vec3) -> Vec3 {
    vadd(vadd(vscale(stangent(n), l.x), vscale(sbitangent(n), l.y)), vscale(n, l.z))
}

/// The tangent and bitangent of an orthonormal-ish frame around `n`.
pub fn tangent_basis(n: &Vec3) -> (r: (Vec3, Vec3))
    ensures
        r.0 == stangent(*n),
        r.1 == sbitangent(*n),
{
    let a = if fabs(n.x) > 58982 {
        Vec3::new(0, FX_ONE, 0)
    } else {
        Vec3::new(FX_ONE, 0, 0)
    };
    let tangent = n.cross(&a).normalize();
    let bitangent = n.cross(&tangent);
    (tangent, bitangent)
}

pub fn to_local(n: &Vec3, v: &Vec3) -> (r: Vec3)
    ensures
        r == sto_local(*n, *v),
{
    let (t, b) = tangent_basis(n);
    Vec3::new(v.dot(&t), v.dot(&b), v.dot(n))
}

pub fn to_world(n: &Vec3, l: &Vec3) -> (r: Vec3)
    ensures
        r == sto_world(*n, *l),
{
    let (t, b) = tangent_basis(n);
    t.scale(l.x).add(&b.scale(l.y)).add(&n.scale(l.z))
}

/// A point of the closed unit disk, uniform up to the capped rejection loop.
pub fn sample_unit_disk(rng: &mut Rng) -> (r: (i64, i64))
    ensures
        sadd64(smul64(r.0, r.0), smul64(r.1, r.1)) <= FX_ONE,
        -FX_ONE <= r.0 <= FX_ONE,
        -FX_ONE <= r.1 <= FX_ONE,
{
    let mut tries: u32 = 0;
    loop
        invariant
            tries <= 32,
        decreases 32 - tries,
    {
        let x = rng.next_symmetric();
        let y = rng.next_symmetric();
        let d = fadd(fmul(x, x), fmul(y, y));
        if d <= FX_ONE {
            return (x, y);
        }
        tries = tries + 1;
        if tries >= 32 {
            return (0, 0);
        }
    }
}

/// A cosine-weighted direction on the upper unit hemisphere (Malley's
/// method: lift a uniform disk point). The returned z never goes negative.
pub fn cosine_sample_hemisphere(rng: &mut Rng) -> (r: Vec3)
    ensures
        r.z == ssqrt64(ssub64(ssub64(FX_ONE, smul64(r.x, r.x)), smul64(r.y, r.y))),
        r.z >= 0,
        sadd64(smul64(r.x, r.x), smul64(r.y, r.y)) <= FX_ONE,
{
    let (x, y) = sample_unit_disk(rng);
    let z = fsqrt(fsub(fsub(FX_ONE, fmul(x, x)), fmul(y, y)));
    Vec3::new(x, y, z)
}

/// The GGX normal distribution evaluated at a half-vector in local frame.
pub open spec fn sggx_d(h: Vec3, roughness: i64) -> i64 {
    let cos_theta = smax64(h.z, ALPHA_FLOOR);
    let alpha2 = smax64(smul64(roughness, roughness), ALPHA_FLOOR);
    let denom = sadd64(smul64(ssub64(alpha2, FX_ONE), smul64(cos_theta, cos_theta)), FX_ONE);
    sdiv64(alpha2, smul64(FX_PI, smul64(denom, denom)))
}

pub fn ggx_d(h: &Vec3, roughness: i64) -> (r: i64)
    ensures
        r == sggx_d(*h, roughness),
{
    let cos_theta = fmax(h.z, ALPHA_FLOOR);
    let alpha2 = fmax(fmul(roughness, roughness), ALPHA_FLOOR);
    let denom = fadd(fmul(fsub(alpha2, FX_ONE), fmul(cos_theta, cos_theta)), FX_ONE);
    fdiv(alpha2, fmul(FX_PI, fmul(denom, denom)))
}

/// The Smith masking term for one direction in local frame.
pub open spec fn sggx_g1(w: Vec3, roughness: i64) -> i64 {
    let alpha2 = smax64(smul64(roughness, roughness), ALPHA_FLOOR);
    let cos_theta = sabs64(w.z);
    let c2 = smul64(cos_theta, cos_theta);
    sdiv64(
        smul64(crate::fx::FX_TWO, cos_theta),
        sadd64(cos_theta, ssqrt64(sadd64(smul64(c2, ssub64(FX_ONE, alpha2)), alpha2))),
    )
}

pub fn ggx_g1(w: &Vec3, roughness: i64) -> (r: i64)
    ensures
        r == sggx_g1(*w, roughness),
{
    let alpha2 = fmax(fmul(roughness, roughness), ALPHA_FLOOR);
    let cos_theta = fabs(w.z);
    let c2 = fmul(cos_theta, cos_theta);
    fdiv(
        fmul(crate::fx::FX_TWO, cos_theta),
        fadd(cos_theta, fsqrt(fadd(fmul(c2, fsub(FX_ONE, alpha2)), alpha2))),
    )
}

/// The separable Smith shadowing-masking term.
pub open spec fn sggx_g(v: Vec3, l: Vec3, roughness: i64) -> i64 {
    smul64(sggx_g1(v, roughness), sggx_g1(l, roughness))
}

pub fn ggx_g(v: &Vec3, l: &Vec3, roughness: i64) -> (r: i64)
    ensures
        r == sggx_g(*v, *l, roughness),
{
    fmul(ggx_g1(v, roughness), ggx_g1(l, roughness))
}

/// One GGX visible-normal sample around the local view direction `v`:
/// stretch the view, sample a projected disk point, and unstretch. The
/// returned half-vector never points into the surface.
pub fn ggx_sample_microfacet_normal(v: &Vec3, roughness: i64, rng: &mut Rng) -> (h: Vec3)
    ensures
        h.z >= 0,
{
    let a2 = fmul(roughness, roughness);
    let stretched = Vec3::new(fmul(v.x, a2), fmul(v.y, a2), v.z).normalize();
    let t1 = if stretched.z < 65529 {
        stretched.cross(&Vec3::new(0, 0, FX_ONE)).normalize()
    } else {
        Vec3::new(FX_ONE, 0, 0)
    };
    let t2 = t1.cross(&stretched);
    let (d1, d2) = sample_unit_disk(rng);
    let s = fmul(crate::fx::FX_HALF, fadd(FX_ONE, stretched.z));
    let d1sq = fmul(d1, d1);
    let p1 = d1;
    let p2 = fadd(
        fmul(fsub(FX_ONE, s), fsqrt(fsub(FX_ONE, d1sq))),
        fmul(s, d2),
    );
    let rest = fsub(fsub(FX_ONE, fmul(p1, p1)), fmul(p2, p2));
    let n = t1.scale(p1).add(&t2.scale(p2)).add(&stretched.scale(fsqrt(fmax(rest, 0))));
    let unstretched = Vec3::new(fmul(n.x, a2), fmul(n.y, a2), fmax(n.z, 0)).normalize();
    if unstretched.z < 0 {
        unstretched.neg()
    } else {
        unstretched
    }
}

/// The GTR1 distribution used by the clearcoat lobe, normalized through the
/// base-2 logarithm of the squared width.
pub open spec fn sgtr1_d(abs_cos_theta: i64, alpha_g: i64) -> i64 {
    let alpha2 = smul64(alpha_g, alpha_g);
    let t = sadd64(FX_ONE, smul64(ssub64(alpha2, FX_ONE), smul64(abs_cos_theta, abs_cos_theta)));
    sdiv64(ssub64(alpha2, FX_ONE), smul64(FX_PI, smul64(t, slog2(alpha2))))
}

pub fn gtr1_d(abs_cos_theta: i64, alpha_g: i64) -> (r: i64)
    ensures
        r == sgtr1_d(abs_cos_theta, alpha_g),
{
    let alpha2 = fmul(alpha_g, alpha_g);
    let t = fadd(FX_ONE, fmul(fsub(alpha2, FX_ONE), fmul(abs_cos_theta, abs_cos_theta)));
    fdiv(fsub(alpha2, FX_ONE), fmul(FX_PI, fmul(t, flog2(alpha2))))
}

/// One GTR1 half-vector sample for the fixed clearcoat sampling roughness;
/// the returned half-vector never points into the surface.
pub fn gtr1_sample_microfacet_normal(alpha: i64, rng: &mut Rng) -> (h: Vec3)
    ensures
        h.z >= 0,
{
    let e1 = rng.next_unit();
    let alpha2 = fmul(alpha, alpha);
    let powed = fpow_frac(alpha2, fsub(FX_ONE, e1));
    let cos2 = fdiv(fsub(FX_ONE, powed), fsub(FX_ONE, alpha2));
    let cos_theta = fsqrt(cos2);
    let sin_theta = fsqrt(fmax(fsub(FX_ONE, fmul(cos_theta, cos_theta)), 0));
    let (cphi, sphi) = sample_unit_circle(rng);
    Vec3::new(fmul(sin_theta, cphi), fmul(sin_theta, sphi), cos_theta)
}

/// A direction on the unit circle, from a normalized disk sample; a
/// degenerate draw falls back to the x axis.
pub fn sample_unit_circle(rng: &mut Rng) -> (r: (i64, i64)) {
    let (x, y) = sample_unit_disk(rng);
    let d = fsqrt(fadd(fmul(x, x), fmul(y, y)));
    if d == 0 {
        (FX_ONE, 0)
    } else {
        (fdiv(x, d), fdiv(y, d))
    }
}

} // verus!
