//! The principled BSDF: a weighted combination of diffuse (with retro and
//! subsurface terms), GGX specular, rough glass and GTR1 clearcoat lobes.
//!
//! One lobe is chosen stochastically by its selection probability for
//! `sample`, but `eval` sums every active lobe weighted by its blend weight
//! and `pdf` sums the lobes' densities weighted by their selection
//! probabilities: that asymmetry is exactly what keeps one-sample multiple
//! importance sampling over the lobes unbiased.

use vstd::prelude::*;

use crate::bsdf::glass::{sglass_half, sreflect_or_refract};
use crate::bsdf::sampling::{cosine_sample_hemisphere, ggx_d, ggx_g, ggx_g1,
    ggx_sample_microfacet_normal, gtr1_d, gtr1_sample_microfacet_normal, sggx_d, sggx_g, sggx_g1,
    sgtr1_d, sto_local, sto_world, to_local, to_world};
use crate::bsdf::{dielectric_fresnel, r0, schlick_fresnel, schlick_weight, sdielectric_fresnel,
    sr0, sschlick_fresnel, sschlick_weight, stint, tint, PrincipledBSDF};
use crate::fx::{fabs, fadd, fdiv, fmul, fsignum, fsub, sabs64, sadd64, sdiv64, smul64, ssub64,
    FX_FOUR, FX_HALF, FX_ONE, FX_PI, FX_TWO};
use crate::hittable::hit_info::HitInfo;
use crate::ray::Ray;
use crate::rng::Rng;
use crate::texture::{scolor_value, ColorTexture};
use crate::vec3::{slerp64, v3, vadd, vdiv_s, vdot, vlerp, vneg, vscale, Vec3};

verus! {

/// The clearcoat sampling roughness (0.25) and the "1.25" and quarter
/// constants of the Disney diffuse terms.
pub const PR_CLEARCOAT_ALPHA: i64 = 16384;

pub const PR_ONE_AND_QUARTER: i64 = 81920;

pub const PR_QUARTER: i64 = 16384;

/// The clearcoat distribution width from the gloss parameter.
pub open spec fn salpha_g(p: PrincipledBSDF) -> i64 {
    sadd64(smul64(ssub64(FX_ONE, p.clearcoat_gloss), 6554), smul64(p.clearcoat_gloss, 66))
}

/// The blend weights of the four lobes.
pub open spec fn slobe_weights(p: PrincipledBSDF) -> (i64, i64, i64, i64) {
    (
        smul64(ssub64(FX_ONE, p.metallic), ssub64(FX_ONE, p.spec_trans)),
        ssub64(FX_ONE, smul64(p.spec_trans, ssub64(FX_ONE, p.metallic))),
        smul64(p.spec_trans, ssub64(FX_ONE, p.metallic)),
        smul64(PR_QUARTER, p.clearcoat),
    )
}

/// The selection probabilities: the weights normalized by their sum.
pub open spec fn slobe_probabilities(w: (i64, i64, i64, i64)) -> (i64, i64, i64, i64) {
    let inv_total = sdiv64(FX_ONE, sadd64(sadd64(sadd64(w.0, w.1), w.2), w.3));
    (smul64(w.0, inv_total), smul64(w.1, inv_total), smul64(w.2, inv_total), smul64(w.3,
        inv_total))
}

pub open spec fn seta_p(p: PrincipledBSDF, front_face: bool) -> (i64, i64) {
    if front_face {
        (FX_ONE, p.ior)
    } else {
        (p.ior, FX_ONE)
    }
}

pub open spec fn sdiffuse_lobe_pdf(l: Vec3) -> i64 {
    sdiv64(sabs64(l.z), FX_PI)
}

pub open spec fn sspecular_lobe_pdf(p: PrincipledBSDF, v: Vec3, l: Vec3, h: Vec3) -> i64 {
    let pdf_h = sdiv64(
        smul64(smul64(sggx_g1(v, p.roughness), sabs64(vdot(v, h))), sggx_d(h, p.roughness)),
        sabs64(v.z),
    );
    smul64(pdf_h, sdiv64(FX_ONE, smul64(FX_FOUR, sabs64(vdot(l, h)))))
}

pub open spec fn sglass_lobe_pdf(
    p: PrincipledBSDF,
    v: Vec3,
    l: Vec3,
    h: Vec3,
    eta_i: i64,
    eta_o: i64,
    reflect: bool,
) -> i64 {
    let pdf_h = sdiv64(
        smul64(smul64(sggx_g1(v, p.roughness), sabs64(vdot(v, h))), sggx_d(h, p.roughness)),
        sabs64(v.z),
    );
    let f = sdielectric_fresnel(v, h, eta_i, eta_o);
    let jacobian = if reflect {
        sdiv64(f, smul64(FX_FOUR, sabs64(vdot(l, h))))
    } else {
        let v_dot_h = vdot(v, h);
        let l_dot_h = vdot(l, h);
        sdiv64(
            smul64(ssub64(FX_ONE, f), smul64(smul64(eta_o, eta_o), sabs64(l_dot_h))),
            smul64(
                sadd64(smul64(eta_i, v_dot_h), smul64(eta_o, l_dot_h)),
                sadd64(smul64(eta_i, v_dot_h), smul64(eta_o, l_dot_h)),
            ),
        )
    };
    smul64(pdf_h, jacobian)
}

pub open spec fn sclearcoat_lobe_pdf(p: PrincipledBSDF, v: Vec3, l: Vec3, h: Vec3) -> i64 {
    let pdf_h = sdiv64(
        smul64(
            smul64(sggx_g1(v, PR_CLEARCOAT_ALPHA), sabs64(vdot(v, h))),
            sgtr1_d(sabs64(vdot(l, h)), salpha_g(p)),
        ),
        sabs64(v.z),
    );
    smul64(pdf_h, sdiv64(FX_ONE, smul64(FX_FOUR, sabs64(vdot(l, h)))))
}

/// The Disney diffuse lobe with retro-reflection and an approximate
/// subsurface term (without the cosine, which the caller folds in).
pub open spec fn seval_diffuse(p: PrincipledBSDF, base_color: Vec3, v: Vec3, l: Vec3, h: Vec3)
    -> Vec3 {
    let l_dot_h = vdot(l, h);
    let rr = smul64(smul64(FX_TWO, p.roughness), smul64(l_dot_h, l_dot_h));
    let fl = sschlick_weight(l.z);
    let fv = sschlick_weight(v.z);
    let f_retro = smul64(rr, sadd64(sadd64(fl, fv), smul64(smul64(fl, fv), ssub64(rr, FX_ONE))));
    let f_d = smul64(
        ssub64(FX_ONE, smul64(FX_HALF, fl)),
        ssub64(FX_ONE, smul64(FX_HALF, fv)),
    );
    let fss90 = smul64(FX_HALF, rr);
    let f_ss = smul64(slerp64(FX_ONE, fss90, fl), slerp64(FX_ONE, fss90, fv));
    let ss = smul64(
        PR_ONE_AND_QUARTER,
        sadd64(
            smul64(f_ss, ssub64(sdiv64(FX_ONE, sadd64(l.z, v.z)), FX_HALF)),
            FX_HALF,
        ),
    );
    vscale(vdiv_s(base_color, FX_PI), slerp64(sadd64(f_d, f_retro), ss, p.subsurface))
}

pub open spec fn seval_specular(p: PrincipledBSDF, fresnel: Vec3, v: Vec3, l: Vec3, h: Vec3)
    -> Vec3 {
    let d = sggx_d(h, p.roughness);
    let g = sggx_g(v, l, p.roughness);
    vdiv_s(vscale(vscale(fresnel, g), d), smul64(smul64(FX_FOUR, sabs64(l.z)), sabs64(v.z)))
}

pub open spec fn seval_glass(
    p: PrincipledBSDF,
    v: Vec3,
    l: Vec3,
    h: Vec3,
    eta_i: i64,
    eta_o: i64,
    reflect: bool,
) -> Vec3 {
    let d = sggx_d(h, p.roughness);
    let g = sggx_g(v, l, p.roughness);
    let f = sdielectric_fresnel(v, h, eta_i, eta_o);
    if reflect {
        let factor = sdiv64(
            smul64(smul64(f, g), d),
            smul64(smul64(FX_FOUR, sabs64(l.z)), sabs64(v.z)),
        );
        v3(factor, factor, factor)
    } else {
        let l_dot_h = vdot(l, h);
        let v_dot_h = vdot(v, h);
        let term1 = sabs64(sdiv64(smul64(l_dot_h, v_dot_h), smul64(l.z, v.z)));
        let term2 = sdiv64(
            smul64(eta_o, eta_o),
            smul64(
                sadd64(smul64(eta_i, v_dot_h), smul64(eta_o, l_dot_h)),
                sadd64(smul64(eta_i, v_dot_h), smul64(eta_o, l_dot_h)),
            ),
        );
        let factor = smul64(smul64(smul64(term1, term2), ssub64(FX_ONE, f)), smul64(g, d));
        v3(factor, factor, factor)
    }
}

pub open spec fn seval_clearcoat(p: PrincipledBSDF, v: Vec3, l: Vec3, h: Vec3) -> Vec3 {
    let d = sgtr1_d(sabs64(vdot(l, h)), salpha_g(p));
    let g = sggx_g(v, l, PR_CLEARCOAT_ALPHA);
    let r0v = v3(sr0(98304), sr0(98304), sr0(98304));
    let f = sschlick_fresnel(r0v, ssub64(FX_ONE, vdot(l, h)));
    vscale(
        vdiv_s(vscale(vscale(f, d), g), smul64(smul64(FX_FOUR, sabs64(l.z)), sabs64(v.z))),
        sabs64(l.z),
    )
}

/// The probability-weighted sum of the active lobes' densities for a
/// direction pair.
pub open spec fn sprincipled_pdf(p: PrincipledBSDF, view_dir: Vec3, light_dir: Vec3,
    info: HitInfo) -> i64 {
    let w = slobe_weights(p);
    let pr = slobe_probabilities(w);
    let v = sto_local(info.geometric_normal, view_dir);
    let l = sto_local(info.geometric_normal, light_dir);
    let reflect = smul64(l.z, v.z) > 0;
    let etas = seta_p(p, info.front_face);
    let h = sglass_half(v, l, etas.0, etas.1, reflect);
    let pdf0: i64 = 0;
    let pdf1 = if pr.0 > 0 && reflect {
        sadd64(pdf0, smul64(pr.0, sdiffuse_lobe_pdf(l)))
    } else {
        pdf0
    };
    let pdf2 = if pr.1 > 0 && reflect {
        sadd64(pdf1, smul64(pr.1, sspecular_lobe_pdf(p, v, l, h)))
    } else {
        pdf1
    };
    let pdf3 = if pr.2 > 0 {
        sadd64(pdf2, smul64(pr.2, sglass_lobe_pdf(p, v, l, h, etas.0, etas.1, reflect)))
    } else {
        pdf2
    };
    if pr.3 > 0 && reflect {
        sadd64(pdf3, smul64(pr.3, sclearcoat_lobe_pdf(p, v, l, h)))
    } else {
        pdf3
    }
}

/// The blend-weighted sum of the active lobes' reflectances, with the
/// cosine folded in at the end.
pub open spec fn sprincipled_eval(p: PrincipledBSDF, view_dir: Vec3, light_dir: Vec3,
    info: HitInfo) -> Vec3 {
    let w = slobe_weights(p);
    let pr = slobe_probabilities(w);
    let base_color = scolor_value(p.base_color, info.u, info.v, info.point);
    let v = sto_local(info.geometric_normal, view_dir);
    let l = sto_local(info.geometric_normal, light_dir);
    let reflect = smul64(l.z, v.z) > 0;
    let etas = seta_p(p, info.front_face);
    let h = sglass_half(v, l, etas.0, etas.1, reflect);
    let brdf0 = v3(0, 0, 0);
    let brdf1 = if pr.0 > 0 && reflect {
        let c_tint = stint(base_color);
        let c_sheen = vlerp(v3(FX_ONE, FX_ONE, FX_ONE), c_tint, p.sheen_tint);
        let sheen_term = vscale(
            vscale(c_sheen, p.sheen),
            sschlick_weight(sabs64(vdot(l, h))),
        );
        let diffuse_term = seval_diffuse(p, base_color, v, l, h);
        vadd(brdf0, vscale(vadd(diffuse_term, sheen_term), w.0))
    } else {
        brdf0
    };
    let brdf2 = if pr.1 > 0 && reflect {
        let c_tint = stint(base_color);
        let ks = vlerp(v3(FX_ONE, FX_ONE, FX_ONE), c_tint, p.specular_tint);
        let c0 = vlerp(
            vscale(ks, smul64(p.specular, sr0(sdiv64(etas.0, etas.1)))),
            base_color,
            p.metallic,
        );
        let metallic_fresnel = sschlick_fresnel(c0, ssub64(FX_ONE, vdot(l, h)));
        let df = sdielectric_fresnel(v, h, etas.0, etas.1);
        let fresnel = vlerp(v3(df, df, df), metallic_fresnel, p.metallic);
        vadd(brdf1, vscale(seval_specular(p, fresnel, v, l, h), w.1))
    } else {
        brdf1
    };
    let brdf3 = if pr.2 > 0 {
        vadd(brdf2, vscale(seval_glass(p, v, l, h, etas.0, etas.1, reflect), w.2))
    } else {
        brdf2
    };
    let brdf4 = if pr.3 > 0 && reflect {
        vadd(brdf3, vscale(seval_clearcoat(p, v, l, h), w.3))
    } else {
        brdf3
    };
    vscale(brdf4, sabs64(l.z))
}

impl PrincipledBSDF {
    pub fn new(
        base_color: ColorTexture,
        metallic: i64,
        roughness: i64,
        subsurface: i64,
        specular: i64,
        specular_tint: i64,
        ior: i64,
        spec_trans: i64,
        sheen: i64,
        sheen_tint: i64,
        clearcoat: i64,
        clearcoat_gloss: i64,
    ) -> (r: Self)
        ensures
            r == (PrincipledBSDF {
                base_color,
                metallic,
                roughness,
                subsurface,
                specular,
                specular_tint,
                ior,
                spec_trans,
                sheen,
                sheen_tint,
                clearcoat,
                clearcoat_gloss,
            }),
    {
        PrincipledBSDF {
            base_color,
            metallic,
            roughness,
            subsurface,
            specular,
            specular_tint,
            ior,
            spec_trans,
            sheen,
            sheen_tint,
            clearcoat,
            clearcoat_gloss,
        }
    }

    fn lobe_weights(&self) -> (r: (i64, i64, i64, i64))
        ensures
            r == slobe_weights(*self),
    {
        let diffuse_wt = fmul(fsub(FX_ONE, self.metallic), fsub(FX_ONE, self.spec_trans));
        let specular_wt = fsub(FX_ONE, fmul(self.spec_trans, fsub(FX_ONE, self.metallic)));
        let glass_wt = fmul(self.spec_trans, fsub(FX_ONE, self.metallic));
        let clearcoat_wt = fmul(PR_QUARTER, self.clearcoat);
        (diffuse_wt, specular_wt, glass_wt, clearcoat_wt)
    }

    fn lobe_probabilities(&self, w: (i64, i64, i64, i64)) -> (r: (i64, i64, i64, i64))
        ensures
            r == slobe_probabilities(w),
    {
        let inv_total = fdiv(FX_ONE, fadd(fadd(fadd(w.0, w.1), w.2), w.3));
        (fmul(w.0, inv_total), fmul(w.1, inv_total), fmul(w.2, inv_total), fmul(w.3, inv_total))
    }

    fn sample_diffuse(&self, info: &HitInfo, rng: &mut Rng) -> (r: Option<Vec3>)
        ensures
            r is Some,
            exists|local: Vec3|
                local.z >= 0 && r.unwrap() == sto_world(info.geometric_normal, local),
    {
        let local = cosine_sample_hemisphere(rng);
        let w = to_world(&info.geometric_normal, &local);
        proof {
            assert(local.z >= 0 && w == sto_world(info.geometric_normal, local));
        }
        Some(w)
    }

    /// A reflected visible-normal draw; a direction below the surface yields
    /// no continuation.
    fn sample_specular(&self, ray: &Ray, info: &HitInfo, rng: &mut Rng) -> (r: Option<Vec3>)
        ensures
            r is Some ==> vdot(r.unwrap(), info.geometric_normal) > 0,
    {
        let view_dir = ray.direction.neg();
        let v = to_local(&info.geometric_normal, &view_dir);
        let h = ggx_sample_microfacet_normal(&v, self.roughness, rng);
        let specular_dir_local = v.neg().reflect(&h);
        let specular_dir = to_world(&info.geometric_normal, &specular_dir_local);
        if specular_dir.dot(&info.geometric_normal) <= 0 {
            None
        } else {
            Some(specular_dir)
        }
    }

    fn sample_glass(&self, ray: &Ray, info: &HitInfo, rng: &mut Rng) -> (r: Option<Vec3>)
        ensures
            r is Some,
            exists|h: Vec3, u: i64|
                h.z >= 0 && 0 <= u < FX_ONE && r.unwrap() == sto_world(
                    info.geometric_normal,
                    sreflect_or_refract(
                        sto_local(info.geometric_normal, vneg(ray.direction)),
                        h,
                        seta_p(*self, info.front_face).0,
                        seta_p(*self, info.front_face).1,
                        u,
                    ),
                ),
    {
        let view_dir = ray.direction.neg();
        let v = to_local(&info.geometric_normal, &view_dir);
        let h = ggx_sample_microfacet_normal(&v, self.roughness, rng);
        let (eta_i, eta_o) = if info.front_face {
            (FX_ONE, self.ior)
        } else {
            (self.ior, FX_ONE)
        };
        let u = rng.next_unit();
        let dir_local = crate::bsdf::glass::reflect_or_refract(&v, &h, eta_i, eta_o, u);
        let w = to_world(&info.geometric_normal, &dir_local);
        proof {
            assert(h.z >= 0 && 0 <= u < FX_ONE && w == sto_world(
                info.geometric_normal,
                sreflect_or_refract(
                    sto_local(info.geometric_normal, vneg(ray.direction)),
                    h,
                    seta_p(*self, info.front_face).0,
                    seta_p(*self, info.front_face).1,
                    u,
                ),
            ));
        }
        Some(w)
    }

    /// A reflected clearcoat-distribution draw; a direction below the
    /// surface yields no continuation.
    fn sample_clearcoat(&self, ray: &Ray, info: &HitInfo, rng: &mut Rng) -> (r: Option<Vec3>)
        ensures
            r is Some ==> vdot(r.unwrap(), info.geometric_normal) > 0,
    {
        let view_dir = ray.direction.neg();
        let v = to_local(&info.geometric_normal, &view_dir);
        let h = gtr1_sample_microfacet_normal(PR_CLEARCOAT_ALPHA, rng);
        let specular_dir_local = v.neg().reflect(&h);
        let specular_dir = to_world(&info.geometric_normal, &specular_dir_local);
        if specular_dir.dot(&info.geometric_normal) <= 0 {
            None
        } else {
            Some(specular_dir)
        }
    }

    /// Choose a lobe by its selection probability and sample it. Whatever
    /// lobe the draw lands on, a returned direction is one of the lobes'
    /// legal constructions: a draw already on the outward side of the
    /// surface (specular, clearcoat), the image of an upper-hemisphere
    /// tangent-frame point (diffuse), or the dielectric's reflect-or-refract
    /// outcome for a sampled half-vector (glass).
    pub fn sample(&self, ray: &Ray, info: &HitInfo, rng: &mut Rng) -> (r: Option<Vec3>)
        ensures
            match r {
                None => true,
                Some(dir) => vdot(dir, info.geometric_normal) > 0 || (exists|local: Vec3|
                    local.z >= 0 && dir == sto_world(info.geometric_normal, local)) || (exists|
                    h: Vec3,
                    u: i64,
                |
                    h.z >= 0 && 0 <= u < FX_ONE && dir == sto_world(
                        info.geometric_normal,
                        sreflect_or_refract(
                            sto_local(info.geometric_normal, vneg(ray.direction)),
                            h,
                            seta_p(*self, info.front_face).0,
                            seta_p(*self, info.front_face).1,
                            u,
                        ),
                    )),
            },
    {
        let w = self.lobe_weights();
        let pr = self.lobe_probabilities(w);
        let u = rng.next_unit();
        if u < pr.0 {
            self.sample_diffuse(info, rng)
        } else if u < fadd(pr.0, pr.1) {
            self.sample_specular(ray, info, rng)
        } else if u < fadd(fadd(pr.0, pr.1), pr.2) {
            self.sample_glass(ray, info, rng)
        } else {
            self.sample_clearcoat(ray, info, rng)
        }
    }

    pub fn pdf(&self, view_dir: &Vec3, light_dir: &Vec3, info: &HitInfo) -> (r: i64)
        ensures
            r == sprincipled_pdf(*self, *view_dir, *light_dir, *info),
    {
        let w = self.lobe_weights();
        let pr = self.lobe_probabilities(w);
        let v = to_local(&info.geometric_normal, view_dir);
        let l = to_local(&info.geometric_normal, light_dir);
        let reflect = fmul(l.z, v.z) > 0;
        let (eta_i, eta_o) = if info.front_face {
            (FX_ONE, self.ior)
        } else {
            (self.ior, FX_ONE)
        };
        let h = if reflect {
            l.add(&v).normalize().scale(fsignum(v.z))
        } else {
            l.scale(eta_o).add(&v.scale(eta_i)).normalize().neg()
        };
        let mut pdf: i64 = 0;
        if pr.0 > 0 && reflect {
            pdf = fadd(pdf, fmul(pr.0, fdiv(fabs(l.z), FX_PI)));
        }
        if pr.1 > 0 && reflect {
            let pdf_h = fdiv(
                fmul(fmul(ggx_g1(&v, self.roughness), fabs(v.dot(&h))), ggx_d(&h,
                    self.roughness)),
                fabs(v.z),
            );
            pdf = fadd(pdf, fmul(pr.1, fmul(pdf_h, fdiv(FX_ONE, fmul(FX_FOUR, fabs(l.dot(
                &h,
            )))))));
        }
        if pr.2 > 0 {
            let pdf_h = fdiv(
                fmul(fmul(ggx_g1(&v, self.roughness), fabs(v.dot(&h))), ggx_d(&h,
                    self.roughness)),
                fabs(v.z),
            );
            let f = dielectric_fresnel(&v, &h, eta_i, eta_o);
            let jacobian = if reflect {
                fdiv(f, fmul(FX_FOUR, fabs(l.dot(&h))))
            } else {
                let v_dot_h = v.dot(&h);
                let l_dot_h = l.dot(&h);
                let denom = fadd(fmul(eta_i, v_dot_h), fmul(eta_o, l_dot_h));
                fdiv(
                    fmul(fsub(FX_ONE, f), fmul(fmul(eta_o, eta_o), fabs(l_dot_h))),
                    fmul(denom, denom),
                )
            };
            pdf = fadd(pdf, fmul(pr.2, fmul(pdf_h, jacobian)));
        }
        if pr.3 > 0 && reflect {
            let pdf_h = fdiv(
                fmul(
                    fmul(ggx_g1(&v, PR_CLEARCOAT_ALPHA), fabs(v.dot(&h))),
                    gtr1_d(fabs(l.dot(&h)), fadd(fmul(fsub(FX_ONE, self.clearcoat_gloss), 6554),
                        fmul(self.clearcoat_gloss, 66))),
                ),
                fabs(v.z),
            );
            pdf = fadd(pdf, fmul(pr.3, fmul(pdf_h, fdiv(FX_ONE, fmul(FX_FOUR, fabs(l.dot(
                &h,
            )))))));
        }
        pdf
    }

    pub fn eval(&self, view_dir: &Vec3, light_dir: &Vec3, info: &HitInfo) -> (r: Vec3)
        ensures
            r == sprincipled_eval(*self, *view_dir, *light_dir, *info),
    {
        let w = self.lobe_weights();
        let pr = self.lobe_probabilities(w);
        let base_color = self.base_color.value(info.u, info.v, &info.point);
        let v = to_local(&info.geometric_normal, view_dir);
        let l = to_local(&info.geometric_normal, light_dir);
        let reflect = fmul(l.z, v.z) > 0;
        let (eta_i, eta_o) = if info.front_face {
            (FX_ONE, self.ior)
        } else {
            (self.ior, FX_ONE)
        };
        let h = if reflect {
            l.add(&v).normalize().scale(fsignum(v.z))
        } else {
            l.scale(eta_o).add(&v.scale(eta_i)).normalize().neg()
        };
        let mut brdf = Vec3::zero();
        if pr.0 > 0 && reflect {
            let c_tint = tint(&base_color);
            let c_sheen = Vec3::one().lerp(&c_tint, self.sheen_tint);
            let sheen_term = c_sheen.scale(self.sheen).scale(schlick_weight(fabs(l.dot(&h))));
            let diffuse_term = self.eval_diffuse(&base_color, &v, &l, &h);
            brdf = brdf.add(&diffuse_term.add(&sheen_term).scale(w.0));
        }
        if pr.1 > 0 && reflect {
            let c_tint = tint(&base_color);
            let ks = Vec3::one().lerp(&c_tint, self.specular_tint);
            let c0 = ks.scale(fmul(self.specular, r0(fdiv(eta_i, eta_o)))).lerp(
                &base_color,
                self.metallic,
            );
            let metallic_fresnel = schlick_fresnel(&c0, fsub(FX_ONE, l.dot(&h)));
            let df = dielectric_fresnel(&v, &h, eta_i, eta_o);
            let fresnel = Vec3::splat(df).lerp(&metallic_fresnel, self.metallic);
            brdf = brdf.add(&self.eval_specular(&fresnel, &v, &l, &h).scale(w.1));
        }
        if pr.2 > 0 {
            brdf = brdf.add(&self.eval_glass(&v, &l, &h, eta_i, eta_o, reflect).scale(w.2));
        }
        if pr.3 > 0 && reflect {
            brdf = brdf.add(&self.eval_clearcoat(&v, &l, &h).scale(w.3));
        }
        brdf.scale(fabs(l.z))
    }

    fn eval_diffuse(&self, base_color: &Vec3, v: &Vec3, l: &Vec3, h: &Vec3) -> (r: Vec3)
        ensures
            r == seval_diffuse(*self, *base_color, *v, *l, *h),
    {
        let l_dot_h = l.dot(h);
        let rr = fmul(fmul(FX_TWO, self.roughness), fmul(l_dot_h, l_dot_h));
        let fl = schlick_weight(l.z);
        let fv = schlick_weight(v.z);
        let f_retro = fmul(rr, fadd(fadd(fl, fv), fmul(fmul(fl, fv), fsub(rr, FX_ONE))));
        let f_d = fmul(fsub(FX_ONE, fmul(FX_HALF, fl)), fsub(FX_ONE, fmul(FX_HALF, fv)));
        let fss90 = fmul(FX_HALF, rr);
        let f_ss = fmul(
            fadd(FX_ONE, fmul(fsub(fss90, FX_ONE), fl)),
            fadd(FX_ONE, fmul(fsub(fss90, FX_ONE), fv)),
        );
        let ss = fmul(
            PR_ONE_AND_QUARTER,
            fadd(fmul(f_ss, fsub(fdiv(FX_ONE, fadd(l.z, v.z)), FX_HALF)), FX_HALF),
        );
        let mix = fadd(fadd(f_d, f_retro), fmul(fsub(ss, fadd(f_d, f_retro)), self.subsurface));
        base_color.div_s(FX_PI).scale(mix)
    }

    fn eval_specular(&self, fresnel: &Vec3, v: &Vec3, l: &Vec3, h: &Vec3) -> (r: Vec3)
        ensures
            r == seval_specular(*self, *fresnel, *v, *l, *h),
    {
        let d = ggx_d(h, self.roughness);
        let g = ggx_g(v, l, self.roughness);
        fresnel.scale(g).scale(d).div_s(fmul(fmul(FX_FOUR, fabs(l.z)), fabs(v.z)))
    }

    fn eval_glass(&self, v: &Vec3, l: &Vec3, h: &Vec3, eta_i: i64, eta_o: i64, reflect: bool)
        -> (r: Vec3)
        ensures
            r == seval_glass(*self, *v, *l, *h, eta_i, eta_o, reflect),
    {
        let d = ggx_d(h, self.roughness);
        let g = ggx_g(v, l, self.roughness);
        let f = dielectric_fresnel(v, h, eta_i, eta_o);
        if reflect {
            let factor = fdiv(fmul(fmul(f, g), d), fmul(fmul(FX_FOUR, fabs(l.z)), fabs(v.z)));
            Vec3::splat(factor)
        } else {
            let l_dot_h = l.dot(h);
            let v_dot_h = v.dot(h);
            let term1 = fabs(fdiv(fmul(l_dot_h, v_dot_h), fmul(l.z, v.z)));
            let denom = fadd(fmul(eta_i, v_dot_h), fmul(eta_o, l_dot_h));
            let term2 = fdiv(fmul(eta_o, eta_o), fmul(denom, denom));
            let factor = fmul(fmul(fmul(term1, term2), fsub(FX_ONE, f)), fmul(g, d));
            Vec3::splat(factor)
        }
    }

    fn eval_clearcoat(&self, v: &Vec3, l: &Vec3, h: &Vec3) -> (r: Vec3)
        ensures
            r == seval_clearcoat(*self, *v, *l, *h),
    {
        let d = gtr1_d(fabs(l.dot(h)), fadd(fmul(fsub(FX_ONE, self.clearcoat_gloss), 6554), fmul(
            self.clearcoat_gloss,
            66,
        )));
        let g = ggx_g(v, l, PR_CLEARCOAT_ALPHA);
        let r0s = r0(98304);
        let r0v = Vec3::new(r0s, r0s, r0s);
        let f = schlick_fresnel(&r0v, fsub(FX_ONE, l.dot(h)));
        f.scale(d).scale(g).div_s(fmul(fmul(FX_FOUR, fabs(l.z)), fabs(v.z))).scale(fabs(l.z))
    }
}

} // verus!
