//! Rough dielectric with a Fresnel-weighted choice between reflection and
//! refraction; total internal reflection always reflects.

use vstd::prelude::*;

use crate::bsdf::sampling::{ggx_d, ggx_g, ggx_g1, ggx_sample_microfacet_normal, sggx_d, sggx_g,
    sggx_g1, sto_local, sto_world, to_local, to_world};
use crate::bsdf::{dielectric_fresnel, sdielectric_fresnel, GlassBSDF, SCATTER_EPS};
use crate::fx::{fabs, fdiv, fmul, fsignum, fsub, sabs64, sadd64, sdiv64, smul64, ssignum, ssub64,
    FX_FOUR, FX_ONE};
use crate::hittable::hit_info::HitInfo;
use crate::ray::Ray;
use crate::rng::Rng;
use crate::texture::{sscalar_value, ColorTexture, ScalarTexture, SolidTexture};
use crate::vec3::{refract, v3, vadd, vdiv_s, vdot, vneg, vnormalize, vrefract, vscale, Vec3};

verus! {

/// The interface indices seen from this hit: entering uses (1, ior), leaving
/// uses (ior, 1).
pub open spec fn seta(g: GlassBSDF, front_face: bool) -> (i64, i64) {
    if front_face {
        (FX_ONE, g.ior)
    } else {
        (g.ior, FX_ONE)
    }
}

/// The half-vector for a view/light pair: the bisector for reflection, the
/// generalized (eta-weighted) bisector for transmission.
pub open spec fn sglass_half(v: Vec3, l: Vec3, eta_i: i64, eta_o: i64, reflect: bool) -> Vec3 {
    if reflect {
        vscale(vnormalize(vadd(l, v)), ssignum(v.z))
    } else {
        vneg(vnormalize(vadd(vscale(l, eta_o), vscale(v, eta_i))))
    }
}

pub open spec fn sglass_pdf(g: GlassBSDF, view_dir: Vec3, light_dir: Vec3, info: HitInfo) -> i64 {
    let v = sto_local(info.geometric_normal, view_dir);
    let l = sto_local(info.geometric_normal, light_dir);
    let reflect = smul64(l.z, v.z) > 0;
    let etas = seta(g, info.front_face);
    let eta_i = etas.0;
    let eta_o = etas.1;
    let h = sglass_half(v, l, eta_i, eta_o, reflect);
    let roughness = sscalar_value(g.roughness);
    let pdf_h = sdiv64(
        smul64(smul64(sggx_g1(v, roughness), sabs64(vdot(v, h))), sggx_d(h, roughness)),
        sabs64(v.z),
    );
    let f = sdielectric_fresnel(v, h, eta_i, eta_o);
    let jacobian = if reflect {
        sdiv64(f, smul64(FX_FOUR, sabs64(vdot(l, h))))
    } else {
        let v_dot_h = vdot(v, h);
        let l_dot_h = vdot(l, h);
        sdiv64(
            smul64(ssub64(FX_ONE, f), smul64(smul64(eta_o, eta_o), sabs64(l_dot_h))),
            smul64(
                sadd64(smul64(eta_i, v_dot_h), smul64(eta_o, l_dot_h)),
                sadd64(smul64(eta_i, v_dot_h), smul64(eta_o, l_dot_h)),
            ),
        )
    };
    smul64(pdf_h, jacobian)
}

pub open spec fn sglass_eval(g: GlassBSDF, view_dir: Vec3, light_dir: Vec3, info: HitInfo)
    -> Vec3 {
    let v = sto_local(info.geometric_normal, view_dir);
    let l = sto_local(info.geometric_normal, light_dir);
    let reflect = smul64(l.z, v.z) > 0;
    let etas = seta(g, info.front_face);
    let eta_i = etas.0;
    let eta_o = etas.1;
    let h = sglass_half(v, l, eta_i, eta_o, reflect);
    let roughness = sscalar_value(g.roughness);
    let d = sggx_d(h, roughness);
    let gg = sggx_g(v, l, roughness);
    let f = sdielectric_fresnel(v, h, eta_i, eta_o);
    let result = if reflect {
        let factor = sdiv64(
            smul64(smul64(f, gg), d),
            smul64(smul64(FX_FOUR, sabs64(l.z)), sabs64(v.z)),
        );
        v3(factor, factor, factor)
    } else {
        let l_dot_h = vdot(l, h);
        let v_dot_h = vdot(v, h);
        let term1 = sabs64(sdiv64(smul64(l_dot_h, v_dot_h), smul64(l.z, v.z)));
        let term2 = sdiv64(
            smul64(eta_o, eta_o),
            smul64(
                sadd64(smul64(eta_i, v_dot_h), smul64(eta_o, l_dot_h)),
                sadd64(smul64(eta_i, v_dot_h), smul64(eta_o, l_dot_h)),
            ),
        );
        let factor = smul64(smul64(smul64(term1, term2), ssub64(FX_ONE, f)), smul64(gg, d));
        v3(factor, factor, factor)
    };
    vscale(result, sabs64(l.z))
}

/// The direction the dielectric takes for a sampled half-vector and a
/// uniform draw `u`: reflect with probability equal to the Fresnel term,
/// refract otherwise, and fall back to reflection when refraction is
/// impossible.
pub open spec fn sreflect_or_refract(v: Vec3, h: Vec3, eta_i: i64, eta_o: i64, u: i64) -> Vec3 {
    let f = sdielectric_fresnel(v, h, eta_i, eta_o);
    if u < f {
        crate::vec3::vreflect(vneg(v), h)
    } else {
        let t = vrefract(vneg(v), h, sdiv64(eta_i, eta_o));
        if t == v3(0, 0, 0) {
            crate::vec3::vreflect(vneg(v), h)
        } else {
            t
        }
    }
}

/// Choose reflection or refraction for one local half-vector sample. Past
/// the critical angle the Fresnel term is exactly 1, every unit draw is
/// below it, and the result is always the mirror reflection.
pub fn reflect_or_refract(v: &Vec3, h: &Vec3, eta_i: i64, eta_o: i64, u: i64) -> (r: Vec3)
    requires
        0 <= u < FX_ONE,
    ensures
        r == sreflect_or_refract(*v, *h, eta_i, eta_o, u),
        sdielectric_fresnel(*v, *h, eta_i, eta_o) == FX_ONE ==> r == crate::vec3::vreflect(
            vneg(*v),
            *h,
        ),
{
    let f = dielectric_fresnel(v, h, eta_i, eta_o);
    if u < f {
        v.neg().reflect(h)
    } else {
        let t = refract(&v.neg(), h, fdiv(eta_i, eta_o));
        if t.x == 0 && t.y == 0 && t.z == 0 {
            v.neg().reflect(h)
        } else {
            t
        }
    }
}

impl GlassBSDF {
    pub fn new(base_color: ColorTexture, roughness: ScalarTexture, ior: i64) -> (r: Self)
        ensures
            r.base_color == base_color,
            r.roughness == roughness,
            r.ior == ior,
    {
        GlassBSDF { base_color, roughness, ior }
    }

    /// Clear glass: white, almost smooth, with the given index.
    pub fn basic(ior: i64) -> (r: Self)
        ensures
            r.base_color == ColorTexture::Solid(SolidTexture { value: v3(FX_ONE, FX_ONE, FX_ONE) }),
            r.roughness == ScalarTexture::SolidS(SolidTexture { value: 66 }),
            r.ior == ior,
    {
        GlassBSDF {
            base_color: ColorTexture::solid(Vec3::one()),
            roughness: ScalarTexture::solid(66),
            ior,
        }
    }

    /// Sample a microfacet normal, then stochastically reflect or refract by
    /// the Fresnel split; glass always continues, and the result is the
    /// dielectric's reflect-or-refract outcome for some sampled upper-side
    /// half-vector and unit draw.
    pub fn sample(&self, ray: &Ray, info: &HitInfo, rng: &mut Rng) -> (r: Option<Vec3>)
        ensures
            r is Some,
            exists|h: Vec3, u: i64|
                h.z >= 0 && 0 <= u < FX_ONE && r.unwrap() == sto_world(
                    info.geometric_normal,
                    sreflect_or_refract(
                        sto_local(info.geometric_normal, vneg(ray.direction)),
                        h,
                        seta(*self, info.front_face).0,
                        seta(*self, info.front_face).1,
                        u,
                    ),
                ),
    {
        let view_dir = ray.direction.neg();
        let v = to_local(&info.geometric_normal, &view_dir);
        let roughness = self.roughness.value();
        let h = ggx_sample_microfacet_normal(&v, roughness, rng);
        let (eta_i, eta_o) = if info.front_face {
            (FX_ONE, self.ior)
        } else {
            (self.ior, FX_ONE)
        };
        let u = rng.next_unit();
        let dir_local = reflect_or_refract(&v, &h, eta_i, eta_o, u);
        let w = to_world(&info.geometric_normal, &dir_local);
        proof {
            assert(h.z >= 0 && 0 <= u < FX_ONE && w == sto_world(
                info.geometric_normal,
                sreflect_or_refract(
                    sto_local(info.geometric_normal, vneg(ray.direction)),
                    h,
                    seta(*self, info.front_face).0,
                    seta(*self, info.front_face).1,
                    u,
                ),
            ));
        }
        Some(w)
    }

    pub fn pdf(&self, view_dir: &Vec3, light_dir: &Vec3, info: &HitInfo) -> (r: i64)
        ensures
            r == sglass_pdf(*self, *view_dir, *light_dir, *info),
    {
        let v = to_local(&info.geometric_normal, view_dir);
        let l = to_local(&info.geometric_normal, light_dir);
        let reflect = fmul(l.z, v.z) > 0;
        let (eta_i, eta_o) = if info.front_face {
            (FX_ONE, self.ior)
        } else {
            (self.ior, FX_ONE)
        };
        let h = if reflect {
            l.add(&v).normalize().scale(fsignum(v.z))
        } else {
            l.scale(eta_o).add(&v.scale(eta_i)).normalize().neg()
        };
        let roughness = self.roughness.value();
        let pdf_h = fdiv(
            fmul(fmul(ggx_g1(&v, roughness), fabs(v.dot(&h))), ggx_d(&h, roughness)),
            fabs(v.z),
        );
        let f = dielectric_fresnel(&v, &h, eta_i, eta_o);
        let jacobian = if reflect {
            fdiv(f, fmul(FX_FOUR, fabs(l.dot(&h))))
        } else {
            let v_dot_h = v.dot(&h);
            let l_dot_h = l.dot(&h);
            let denom = crate::fx::fadd(fmul(eta_i, v_dot_h), fmul(eta_o, l_dot_h));
            fdiv(
                fmul(fsub(FX_ONE, f), fmul(fmul(eta_o, eta_o), fabs(l_dot_h))),
                fmul(denom, denom),
            )
        };
        fmul(pdf_h, jacobian)
    }

    pub fn eval(&self, view_dir: &Vec3, light_dir: &Vec3, info: &HitInfo) -> (r: Vec3)
        ensures
            r == sglass_eval(*self, *view_dir, *light_dir, *info),
    {
        let v = to_local(&info.geometric_normal, view_dir);
        let l = to_local(&info.geometric_normal, light_dir);
        let reflect = fmul(l.z, v.z) > 0;
        let (eta_i, eta_o) = if info.front_face {
            (FX_ONE, self.ior)
        } else {
            (self.ior, FX_ONE)
        };
        let h = if reflect {
            l.add(&v).normalize().scale(fsignum(v.z))
        } else {
            l.scale(eta_o).add(&v.scale(eta_i)).normalize().neg()
        };
        let roughness = self.roughness.value();
        let d = ggx_d(&h, roughness);
        let gg = ggx_g(&v, &l, roughness);
        let f = dielectric_fresnel(&v, &h, eta_i, eta_o);
        let result = if reflect {
            let factor = fdiv(fmul(fmul(f, gg), d), fmul(fmul(FX_FOUR, fabs(l.z)), fabs(v.z)));
            Vec3::splat(factor)
        } else {
            let l_dot_h = l.dot(&h);
            let v_dot_h = v.dot(&h);
            let term1 = fabs(fdiv(fmul(l_dot_h, v_dot_h), fmul(l.z, v.z)));
            let denom = crate::fx::fadd(fmul(eta_i, v_dot_h), fmul(eta_o, l_dot_h));
            let term2 = fdiv(fmul(eta_o, eta_o), fmul(denom, denom));
            let factor = fmul(fmul(fmul(term1, term2), fsub(FX_ONE, f)), fmul(gg, d));
            Vec3::splat(factor)
        };
        result.scale(fabs(l.z))
    }

    /// The fused scatter path: sample a direction, then hand back exactly
    /// `eval / pdf` at it. The quotient is computed as stated rather than
    /// by an algebraic shortcut: the cancellations that look tempting here
    /// fail for the refraction branch, so nothing is cancelled.
    pub fn scatter(&self, ray: &Ray, info: &HitInfo, rng: &mut Rng) -> (r: Option<(Vec3, Ray)>)
        ensures
            r is Some,
            ({
                let (att, nray) = r.unwrap();
                exists|dir: Vec3|
                    att == vdiv_s(
                        sglass_eval(*self, vneg(ray.direction), dir, *info),
                        sglass_pdf(*self, vneg(ray.direction), dir, *info),
                    ) && nray == (Ray {
                        origin: vadd(
                            info.point,
                            vscale(
                                info.geometric_normal,
                                smul64(SCATTER_EPS, ssignum(vdot(dir, info.geometric_normal))),
                            ),
                        ),
                        direction: vnormalize(dir),
                        time: ray.time,
                    })
            }),
    {
        let dir = self.sample(ray, info, rng).unwrap();
        let view_dir = ray.direction.neg();
        let pdf = self.pdf(&view_dir, &dir, info);
        let brdf = self.eval(&view_dir, &dir, info);
        let brdf_weight = brdf.div_s(pdf);
        let eps = fmul(SCATTER_EPS, fsignum(dir.dot(&info.geometric_normal)));
        let next_ray = Ray::new(info.point.add(&info.geometric_normal.scale(eps)), dir, ray.time);
        Some((brdf_weight, next_ray))
    }
}

} // verus!
