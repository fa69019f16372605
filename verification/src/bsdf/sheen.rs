//! Sheen: a soft grazing-angle lobe tinted toward the base color.

use vstd::prelude::*;

use crate::bsdf::sampling::{cosine_sample_hemisphere, sto_local, sto_world, to_local, to_world};
use crate::bsdf::{stint, tint, SheenBRDF};
use crate::fx::{fabs, fdiv, fpow5, fsub, sabs64, sdiv64, spow564, ssub64, FX_ONE, FX_PI};
use crate::hittable::hit_info::HitInfo;
use crate::rng::Rng;
use crate::vec3::{v3, vadd, vdot, vlerp, vnormalize, vscale, Vec3};

verus! {

pub open spec fn ssheen_pdf(light_dir: Vec3, info: HitInfo) -> i64 {
    let l = sto_local(info.geometric_normal, light_dir);
    sdiv64(sabs64(l.z), FX_PI)
}

/// The sheen reflectance: the tinted color scaled by `(1 - |l.h|)^5 |l.z|`.
pub open spec fn ssheen_eval(s: SheenBRDF, view_dir: Vec3, light_dir: Vec3, info: HitInfo)
    -> Vec3 {
    let v = sto_local(info.geometric_normal, view_dir);
    let l = sto_local(info.geometric_normal, light_dir);
    let h = vnormalize(vadd(v, l));
    let c_tint = stint(s.base_color);
    let c_sheen = vlerp(v3(FX_ONE, FX_ONE, FX_ONE), c_tint, s.sheen_tint);
    vscale(vscale(c_sheen, spow564(ssub64(FX_ONE, sabs64(vdot(l, h))))), sabs64(l.z))
}

impl SheenBRDF {
    pub fn new(base_color: Vec3, sheen_tint: i64) -> (r: Self)
        ensures
            r.base_color == base_color,
            r.sheen_tint == sheen_tint,
    {
        SheenBRDF { base_color, sheen_tint }
    }

    /// A cosine-weighted direction about the geometric normal: the image of
    /// an upper-hemisphere point of the normal's tangent frame.
    pub fn sample(&self, info: &HitInfo, rng: &mut Rng) -> (r: Option<Vec3>)
        ensures
            r is Some,
            exists|local: Vec3|
                local.z >= 0 && r.unwrap() == sto_world(info.geometric_normal, local),
    {
        let local = cosine_sample_hemisphere(rng);
        let w = to_world(&info.geometric_normal, &local);
        proof {
            assert(local.z >= 0 && w == sto_world(info.geometric_normal, local));
        }
        Some(w)
    }

    pub fn pdf(&self, light_dir: &Vec3, info: &HitInfo) -> (r: i64)
        ensures
            r == ssheen_pdf(*light_dir, *info),
    {
        let l = to_local(&info.geometric_normal, light_dir);
        fdiv(fabs(l.z), FX_PI)
    }

    pub fn eval(&self, view_dir: &Vec3, light_dir: &Vec3, info: &HitInfo) -> (r: Vec3)
        ensures
            r == ssheen_eval(*self, *view_dir, *light_dir, *info),
    {
        let v = to_local(&info.geometric_normal, view_dir);
        let l = to_local(&info.geometric_normal, light_dir);
        let h = v.add(&l).normalize();
        let c_tint = tint(&self.base_color);
        let c_sheen = Vec3::one().lerp(&c_tint, self.sheen_tint);
        c_sheen.scale(fpow5(fsub(FX_ONE, fabs(l.dot(&h))))).scale(fabs(l.z))
    }
}

} // verus!
