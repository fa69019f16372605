//! GGX microfacet conductor with visible-normal sampling.

use vstd::prelude::*;

use crate::bsdf::sampling::{ggx_d, ggx_g, ggx_g1, ggx_sample_microfacet_normal, sggx_d, sggx_g,
    sggx_g1, sto_local, to_local, to_world};
use crate::bsdf::{schlick_fresnel, sschlick_fresnel, MetalBRDF, SCATTER_EPS};
use crate::fx::{fabs, fdiv, fmul, fsub, sabs64, sdiv64, smul64, ssub64, FX_FOUR, FX_ONE};
use crate::hittable::hit_info::HitInfo;
use crate::ray::Ray;
use crate::rng::Rng;
use crate::texture::{scolor_value, sscalar_value, ColorTexture, ScalarTexture, SolidTexture};
use crate::vec3::{vadd, vdiv_s, vdot, vnormalize, vscale, Vec3};

verus! {

/// The visible-normal sampling density transformed to the reflected
/// direction: `G1(v) |v.h| D(h) / |v.z|` times the reflection Jacobian
/// `1 / (4 |l.h|)`.
pub open spec fn smetal_pdf(m: MetalBRDF, view_dir: Vec3, light_dir: Vec3, info: HitInfo) -> i64 {
    let v = sto_local(info.shading_normal, view_dir);
    let l = sto_local(info.shading_normal, light_dir);
    let h = vnormalize(vadd(v, l));
    let roughness = sscalar_value(m.roughness);
    let pdf_h = sdiv64(
        smul64(smul64(sggx_g1(v, roughness), sabs64(vdot(v, h))), sggx_d(h, roughness)),
        sabs64(v.z),
    );
    let jacobian = sdiv64(FX_ONE, smul64(FX_FOUR, sabs64(vdot(l, h))));
    smul64(pdf_h, jacobian)
}

/// The full microfacet reflectance with the cosine folded in:
/// `|l.z| * F G D / (4 |l.z| |v.z|)`.
pub open spec fn smetal_eval(m: MetalBRDF, view_dir: Vec3, light_dir: Vec3, info: HitInfo)
    -> Vec3 {
    let v = sto_local(info.shading_normal, view_dir);
    let l = sto_local(info.shading_normal, light_dir);
    let h = vnormalize(vadd(v, l));
    let roughness = sscalar_value(m.roughness);
    let base_color = scolor_value(m.base_color, info.u, info.v, info.point);
    let d = sggx_d(h, roughness);
    let g = sggx_g(v, l, roughness);
    let f = sschlick_fresnel(base_color, ssub64(FX_ONE, vdot(l, h)));
    vscale(
        vdiv_s(vscale(vscale(f, g), d), smul64(smul64(FX_FOUR, sabs64(l.z)), sabs64(v.z))),
        sabs64(l.z),
    )
}

impl MetalBRDF {
    pub fn new(base_color: ColorTexture, roughness: ScalarTexture) -> (r: Self)
        ensures
            r.base_color == base_color,
            r.roughness == roughness,
    {
        MetalBRDF { base_color, roughness }
    }

    pub fn from_rgb(base_color: Vec3, roughness: i64) -> (r: Self)
        ensures
            r.base_color == ColorTexture::Solid(SolidTexture { value: base_color }),
            r.roughness == ScalarTexture::SolidS(SolidTexture { value: roughness }),
    {
        MetalBRDF {
            base_color: ColorTexture::solid(base_color),
            roughness: ScalarTexture::solid(roughness),
        }
    }

    /// Sample a visible microfacet normal and reflect the view about it;
    /// directions ending up under the surface yield no continuation.
    pub fn sample(&self, ray: &Ray, info: &HitInfo, rng: &mut Rng) -> (r: Option<Vec3>)
        ensures
            r is Some ==> vdot(r.unwrap(), info.shading_normal) > 0,
    {
        let view_dir = ray.direction.neg();
        let v = to_local(&info.shading_normal, &view_dir);
        let roughness = self.roughness.value();
        let h = ggx_sample_microfacet_normal(&v, roughness, rng);
        let specular_dir_local = v.neg().reflect(&h);
        let specular_dir = to_world(&info.shading_normal, &specular_dir_local);
        if specular_dir.dot(&info.shading_normal) <= 0 {
            None
        } else {
            Some(specular_dir)
        }
    }

    pub fn pdf(&self, view_dir: &Vec3, light_dir: &Vec3, info: &HitInfo) -> (r: i64)
        ensures
            r == smetal_pdf(*self, *view_dir, *light_dir, *info),
    {
        let v = to_local(&info.shading_normal, view_dir);
        let l = to_local(&info.shading_normal, light_dir);
        let h = v.add(&l).normalize();
        let roughness = self.roughness.value();
        let pdf_h = fdiv(
            fmul(fmul(ggx_g1(&v, roughness), fabs(v.dot(&h))), ggx_d(&h, roughness)),
            fabs(v.z),
        );
        let jacobian = fdiv(FX_ONE, fmul(FX_FOUR, fabs(l.dot(&h))));
        fmul(pdf_h, jacobian)
    }

    pub fn eval(&self, view_dir: &Vec3, light_dir: &Vec3, info: &HitInfo) -> (r: Vec3)
        ensures
            r == smetal_eval(*self, *view_dir, *light_dir, *info),
    {
        let v = to_local(&info.shading_normal, view_dir);
        let l = to_local(&info.shading_normal, light_dir);
        let h = v.add(&l).normalize();
        let roughness = self.roughness.value();
        let base_color = self.base_color.value(info.u, info.v, &info.point);
        let d = ggx_d(&h, roughness);
        let g = ggx_g(&v, &l, roughness);
        let f = schlick_fresnel(&base_color, fsub(FX_ONE, l.dot(&h)));
        f.scale(g).scale(d).div_s(fmul(fmul(FX_FOUR, fabs(l.z)), fabs(v.z))).scale(fabs(l.z))
    }

    /// The fused scatter path: sample a direction, then hand back exactly
    /// `eval / pdf` at it. No algebraic shortcut is taken: under the
    /// visible-normal sampling density this lobe declares, the shortened
    /// cancellations valid for plain distribution sampling do not hold, so
    /// the quotient is computed as stated.
    pub fn scatter(&self, ray: &Ray, info: &HitInfo, rng: &mut Rng) -> (r: Option<(Vec3, Ray)>)
        ensures
            match r {
                None => true,
                Some((att, nray)) => exists|dir: Vec3|
                    att == vdiv_s(
                        smetal_eval(*self, vneg_s(ray.direction), dir, *info),
                        smetal_pdf(*self, vneg_s(ray.direction), dir, *info),
                    ) && nray == (Ray {
                        origin: vadd(
                            info.point,
                            vscale(
                                info.geometric_normal,
                                crate::fx::smul64(
                                    SCATTER_EPS,
                                    crate::fx::ssignum(vdot(dir, info.geometric_normal)),
                                ),
                            ),
                        ),
                        direction: vnormalize(dir),
                        time: ray.time,
                    }),
            },
    {
        let dir = match self.sample(ray, info, rng) {
            Some(d) => d,
            None => {
                return None;
            },
        };
        let view_dir = ray.direction.neg();
        let pdf = self.pdf(&view_dir, &dir, info);
        let brdf = self.eval(&view_dir, &dir, info);
        let brdf_weight = brdf.div_s(pdf);
        let eps = fmul(SCATTER_EPS, crate::fx::fsignum(dir.dot(&info.geometric_normal)));
        let next_ray = Ray::new(
            info.point.add(&info.geometric_normal.scale(eps)),
            dir,
            ray.time,
        );
        Some((brdf_weight, next_ray))
    }
}

/// Shorthand for the negated vector in contracts.
pub open spec fn vneg_s(v: Vec3) -> Vec3 {
    crate::vec3::vneg(v)
}

} // verus!
