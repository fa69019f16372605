//! Clearcoat: a GTR1 specular lobe over a fixed 1.5-index coating.

use vstd::prelude::*;

use crate::bsdf::sampling::{ggx_g, ggx_g1, gtr1_d, gtr1_sample_microfacet_normal, sggx_g,
    sggx_g1, sgtr1_d, sto_local, to_local, to_world};
use crate::bsdf::{r0, schlick_fresnel, sr0, sschlick_fresnel, ClearcoatBRDF};
use crate::fx::{fabs, fadd, fdiv, fmul, fsub, sabs64, sdiv64, smul64, ssub64, FX_FOUR, FX_ONE};
use crate::hittable::hit_info::HitInfo;
use crate::ray::Ray;
use crate::rng::Rng;
use crate::vec3::{v3, vadd, vdiv_s, vdot, vnormalize, vscale, Vec3};

verus! {

/// The fixed roughness the clearcoat lobe is sampled with (0.25).
pub const CLEARCOAT_SAMPLE_ALPHA: i64 = 16384;

/// The coating's index of refraction (1.5).
pub const CLEARCOAT_IOR: i64 = 98304;

pub open spec fn sclearcoat_pdf(c: ClearcoatBRDF, view_dir: Vec3, light_dir: Vec3, info: HitInfo)
    -> i64 {
    let v = sto_local(info.geometric_normal, view_dir);
    let l = sto_local(info.geometric_normal, light_dir);
    let h = vnormalize(vadd(v, l));
    let pdf_h = sdiv64(
        smul64(
            smul64(sggx_g1(v, CLEARCOAT_SAMPLE_ALPHA), sabs64(vdot(v, h))),
            sgtr1_d(sabs64(vdot(l, h)), c.alpha_g),
        ),
        sabs64(v.z),
    );
    let jacobian = sdiv64(FX_ONE, smul64(FX_FOUR, sabs64(vdot(l, h))));
    smul64(pdf_h, jacobian)
}

pub open spec fn sclearcoat_eval(c: ClearcoatBRDF, view_dir: Vec3, light_dir: Vec3, info: HitInfo)
    -> Vec3 {
    let v = sto_local(info.geometric_normal, view_dir);
    let l = sto_local(info.geometric_normal, light_dir);
    let h = vnormalize(vadd(v, l));
    let d = sgtr1_d(sabs64(vdot(l, h)), c.alpha_g);
    let g = sggx_g(v, l, CLEARCOAT_SAMPLE_ALPHA);
    let r0v = v3(sr0(CLEARCOAT_IOR), sr0(CLEARCOAT_IOR), sr0(CLEARCOAT_IOR));
    let f = sschlick_fresnel(r0v, ssub64(FX_ONE, vdot(l, h)));
    vscale(
        vdiv_s(vscale(vscale(f, d), g), smul64(smul64(FX_FOUR, sabs64(l.z)), sabs64(v.z))),
        sabs64(l.z),
    )
}

impl ClearcoatBRDF {
    /// The gloss parameter interpolates the distribution width between 0.1
    /// and 0.001.
    pub fn new(clearcoat_gloss: i64) -> (r: Self)
        ensures
            r.alpha_g == crate::fx::sadd64(
                smul64(ssub64(FX_ONE, clearcoat_gloss), 6554),
                smul64(clearcoat_gloss, 66),
            ),
    {
        ClearcoatBRDF { alpha_g: fadd(fmul(fsub(FX_ONE, clearcoat_gloss), 6554), fmul(
            clearcoat_gloss,
            66,
        )) }
    }

    pub fn sample(&self, ray: &Ray, info: &HitInfo, rng: &mut Rng) -> (r: Option<Vec3>)
        ensures
            r is Some ==> vdot(r.unwrap(), info.geometric_normal) > 0,
    {
        let view_dir = ray.direction.neg();
        let v = to_local(&info.geometric_normal, &view_dir);
        let h = gtr1_sample_microfacet_normal(CLEARCOAT_SAMPLE_ALPHA, rng);
        let specular_dir_local = v.neg().reflect(&h);
        let specular_dir = to_world(&info.geometric_normal, &specular_dir_local);
        if specular_dir.dot(&info.geometric_normal) <= 0 {
            None
        } else {
            Some(specular_dir)
        }
    }

    pub fn pdf(&self, view_dir: &Vec3, light_dir: &Vec3, info: &HitInfo) -> (r: i64)
        ensures
            r == sclearcoat_pdf(*self, *view_dir, *light_dir, *info),
    {
        let v = to_local(&info.geometric_normal, view_dir);
        let l = to_local(&info.geometric_normal, light_dir);
        let h = v.add(&l).normalize();
        let pdf_h = fdiv(
            fmul(
                fmul(ggx_g1(&v, CLEARCOAT_SAMPLE_ALPHA), fabs(v.dot(&h))),
                gtr1_d(fabs(l.dot(&h)), self.alpha_g),
            ),
            fabs(v.z),
        );
        let jacobian = fdiv(FX_ONE, fmul(FX_FOUR, fabs(l.dot(&h))));
        fmul(pdf_h, jacobian)
    }

    pub fn eval(&self, view_dir: &Vec3, light_dir: &Vec3, info: &HitInfo) -> (r: Vec3)
        ensures
            r == sclearcoat_eval(*self, *view_dir, *light_dir, *info),
    {
        let v = to_local(&info.geometric_normal, view_dir);
        let l = to_local(&info.geometric_normal, light_dir);
        let h = v.add(&l).normalize();
        let d = gtr1_d(fabs(l.dot(&h)), self.alpha_g);
        let g = ggx_g(&v, &l, CLEARCOAT_SAMPLE_ALPHA);
        let r0s = r0(CLEARCOAT_IOR);
        let r0v = Vec3::new(r0s, r0s, r0s);
        let f = schlick_fresnel(&r0v, fsub(FX_ONE, l.dot(&h)));
        f.scale(d).scale(g).div_s(fmul(fmul(FX_FOUR, fabs(l.z)), fabs(v.z))).scale(fabs(l.z))
    }
}

} // verus!
