//! Materials: a closed set of BxDF variants sharing one dispatch surface.
//!
//! Every scattering variant reports, for a view/light direction pair, a
//! sampling density (`pdf`) and a reflectance (`eval`) computed from the same
//! microfacet terms, which keeps the two consistent for multiple importance
//! sampling; emissive variants never scatter.

use vstd::prelude::*;

use crate::fx::{fabs, fadd, fclamp, fdiv, fmul, fpow5, fsqrt, fsub, sadd64, sclamp64, sdiv64,
    smul64, spow564, ssqrt64, ssub64, FX_HALF, FX_ONE};
use crate::texture::{ColorTexture, ImageTexture, ScalarTexture};
use crate::vec3::{v3, vadd, vdiv_s, vdot, vluminance, vneg, vnormalize, vscale, vsub, Vec3};

pub mod clearcoat;
pub mod diffuse;
pub mod glass;
pub mod metal;
pub mod principled;
pub mod sampling;
pub mod sheen;

verus! {

/// Offset applied along the normal when spawning a secondary ray, to avoid
/// self-intersection (about 1e-3).
pub const SCATTER_EPS: i64 = 66;

/// Lambertian diffuse with a texture-backed albedo and an optional normal
/// map.
pub struct DiffuseBRDF {
    pub base_color: ColorTexture,
    pub normal_map: Option<ImageTexture>,
}

/// GGX microfacet conductor.
pub struct MetalBRDF {
    pub base_color: ColorTexture,
    pub roughness: ScalarTexture,
}

/// Rough dielectric with Fresnel-weighted reflection/refraction.
pub struct GlassBSDF {
    pub base_color: ColorTexture,
    pub roughness: ScalarTexture,
    pub ior: i64,
}

/// GTR1 clearcoat lobe.
pub struct ClearcoatBRDF {
    pub alpha_g: i64,
}

/// Sheen lobe tinted toward the base color.
pub struct SheenBRDF {
    pub base_color: Vec3,
    pub sheen_tint: i64,
}

/// Weighted multi-lobe combination of diffuse, specular, glass and clearcoat.
pub struct PrincipledBSDF {
    pub base_color: ColorTexture,
    pub metallic: i64,
    pub roughness: i64,
    pub subsurface: i64,
    pub specular: i64,
    pub specular_tint: i64,
    pub ior: i64,
    pub spec_trans: i64,
    pub sheen: i64,
    pub sheen_tint: i64,
    pub clearcoat: i64,
    pub clearcoat_gloss: i64,
}

/// Emission-only material; it never scatters.
pub struct DiffuseLight {
    pub emission: ColorTexture,
}

/// Stochastic blend of two materials: weight `t` selects the second.
pub struct MixBxDf {
    pub t: i64,
    pub bxdf1: Box<Material>,
    pub bxdf2: Box<Material>,
}

pub enum Material {
    Diffuse(DiffuseBRDF),
    Metal(MetalBRDF),
    Glass(GlassBSDF),
    Clearcoat(ClearcoatBRDF),
    Sheen(SheenBRDF),
    Principled(PrincipledBSDF),
    Light(DiffuseLight),
    Mix(MixBxDf),
}

/// The radiance a material emits at the given surface coordinates.
pub open spec fn semitted(m: Material, u: i64, v: i64, p: Vec3) -> Vec3 {
    match m {
        Material::Light(l) => crate::texture::scolor_value(l.emission, u, v, p),
        _ => v3(0, 0, 0),
    }
}

impl Material {
    pub fn emitted(&self, u: i64, v: i64, p: &Vec3) -> (r: Vec3)
        ensures
            r == semitted(*self, u, v, *p),
    {
        match self {
            Material::Light(l) => l.emission.value(u, v, p),
            _ => Vec3::zero(),
        }
    }

    pub fn is_emissive(&self) -> (r: bool)
        ensures
            r == (self is Light),
    {
        match self {
            Material::Light(_) => true,
            _ => false,
        }
    }

    /// The normal map consulted when shading normals are perturbed; only the
    /// diffuse variant carries one.
    pub fn normal_map(&self) -> (r: Option<&ImageTexture>)
        ensures
            match *self {
                Material::Diffuse(d) => match d.normal_map {
                    Some(_) => r is Some && *r.unwrap() == d.normal_map.unwrap(),
                    None => r is None,
                },
                _ => r is None,
            },
    {
        match self {
            Material::Diffuse(d) => match &d.normal_map {
                Some(t) => Some(t),
                None => None,
            },
            _ => None,
        }
    }
}

impl DiffuseLight {
    pub fn new(texture: ColorTexture) -> (r: Self)
        ensures
            r.emission == texture,
    {
        DiffuseLight { emission: texture }
    }

    pub fn from_rgb(rgb: Vec3) -> (r: Self)
        ensures
            r.emission == ColorTexture::Solid(crate::texture::SolidTexture { value: rgb }),
    {
        DiffuseLight { emission: ColorTexture::solid(rgb) }
    }
}

impl MixBxDf {
    /// The blend weight is clamped into `[0, 1]`.
    pub fn new(t: i64, bxdf1: Box<Material>, bxdf2: Box<Material>) -> (r: Self)
        ensures
            r.t == crate::fx::sclamp64(t, 0, FX_ONE),
            r.bxdf1 == bxdf1,
            r.bxdf2 == bxdf2,
    {
        MixBxDf { t: fclamp(t, 0, FX_ONE), bxdf1, bxdf2 }
    }
}

/// The sampling density a material reports for a view/light pair; the
/// emissive variant reports the constant it has always reported, and a mix
/// blends its parts by its weight.
pub open spec fn smat_pdf(
    m: Material,
    view_dir: Vec3,
    light_dir: Vec3,
    info: crate::hittable::hit_info::HitInfo,
) -> i64
    decreases m,
{
    match m {
        Material::Diffuse(_) => crate::bsdf::diffuse::sdiffuse_pdf(light_dir, info),
        Material::Metal(mm) => crate::bsdf::metal::smetal_pdf(mm, view_dir, light_dir, info),
        Material::Glass(g) => crate::bsdf::glass::sglass_pdf(g, view_dir, light_dir, info),
        Material::Clearcoat(c) => crate::bsdf::clearcoat::sclearcoat_pdf(c, view_dir, light_dir,
            info),
        Material::Sheen(_) => crate::bsdf::sheen::ssheen_pdf(light_dir, info),
        Material::Principled(p) => crate::bsdf::principled::sprincipled_pdf(p, view_dir,
            light_dir, info),
        Material::Light(_) => FX_ONE,
        Material::Mix(mx) => sadd64(
            smul64(ssub64(FX_ONE, mx.t), smat_pdf(*mx.bxdf1, view_dir, light_dir, info)),
            smul64(mx.t, smat_pdf(*mx.bxdf2, view_dir, light_dir, info)),
        ),
    }
}

/// The reflectance a material reports, clamped componentwise at zero so that
/// pathological parameters cannot inject negative energy into the estimator.
pub open spec fn smat_eval(
    m: Material,
    view_dir: Vec3,
    light_dir: Vec3,
    info: crate::hittable::hit_info::HitInfo,
) -> Vec3
    decreases m,
{
    let raw = match m {
        Material::Diffuse(d) => crate::bsdf::diffuse::sdiffuse_eval(d, light_dir, info),
        Material::Metal(mm) => crate::bsdf::metal::smetal_eval(mm, view_dir, light_dir, info),
        Material::Glass(g) => crate::bsdf::glass::sglass_eval(g, view_dir, light_dir, info),
        Material::Clearcoat(c) => crate::bsdf::clearcoat::sclearcoat_eval(c, view_dir, light_dir,
            info),
        Material::Sheen(s) => crate::bsdf::sheen::ssheen_eval(s, view_dir, light_dir, info),
        Material::Principled(p) => crate::bsdf::principled::sprincipled_eval(p, view_dir,
            light_dir, info),
        Material::Light(_) => v3(FX_ONE, FX_ONE, FX_ONE),
        Material::Mix(mx) => vadd(
            vscale(smat_eval(*mx.bxdf1, view_dir, light_dir, info), ssub64(FX_ONE, mx.t)),
            vscale(smat_eval(*mx.bxdf2, view_dir, light_dir, info), mx.t),
        ),
    };
    crate::vec3::vmax(raw, v3(0, 0, 0))
}

impl Material {
    /// Draw one incident direction from the material's importance-sampling
    /// distribution; emissive materials never scatter.
    pub fn sample(
        &self,
        ray: &crate::ray::Ray,
        info: &crate::hittable::hit_info::HitInfo,
        rng: &mut crate::rng::Rng,
    ) -> (r: Option<Vec3>)
        ensures
            self is Light ==> r is None,
            self is Diffuse ==> r is Some,
            self is Sheen ==> r is Some,
            self is Glass ==> r is Some,
            self is Metal ==> (r is Some ==> vdot(r.unwrap(), info.shading_normal) > 0),
            self is Clearcoat ==> (r is Some ==> vdot(r.unwrap(), info.geometric_normal) > 0),
        decreases *self,
    {
        match self {
            Material::Diffuse(d) => d.sample(info, rng),
            Material::Metal(m) => m.sample(ray, info, rng),
            Material::Glass(g) => g.sample(ray, info, rng),
            Material::Clearcoat(c) => c.sample(ray, info, rng),
            Material::Sheen(s) => s.sample(info, rng),
            Material::Principled(p) => p.sample(ray, info, rng),
            Material::Light(_) => None,
            Material::Mix(mx) => {
                let p = rng.next_unit();
                if mx.t < p {
                    mx.bxdf1.sample(ray, info, rng)
                } else {
                    mx.bxdf2.sample(ray, info, rng)
                }
            },
        }
    }

    pub fn pdf(
        &self,
        view_dir: &Vec3,
        light_dir: &Vec3,
        info: &crate::hittable::hit_info::HitInfo,
    ) -> (r: i64)
        ensures
            r == smat_pdf(*self, *view_dir, *light_dir, *info),
        decreases *self,
    {
        match self {
            Material::Diffuse(d) => d.pdf(light_dir, info),
            Material::Metal(m) => m.pdf(view_dir, light_dir, info),
            Material::Glass(g) => g.pdf(view_dir, light_dir, info),
            Material::Clearcoat(c) => c.pdf(view_dir, light_dir, info),
            Material::Sheen(s) => s.pdf(light_dir, info),
            Material::Principled(p) => p.pdf(view_dir, light_dir, info),
            Material::Light(_) => FX_ONE,
            Material::Mix(mx) => {
                let p1 = fmul(fsub(FX_ONE, mx.t), mx.bxdf1.pdf(view_dir, light_dir, info));
                let p2 = fmul(mx.t, mx.bxdf2.pdf(view_dir, light_dir, info));
                fadd(p1, p2)
            },
        }
    }

    #[verifier::rlimit(60)]
    pub fn eval(
        &self,
        view_dir: &Vec3,
        light_dir: &Vec3,
        info: &crate::hittable::hit_info::HitInfo,
    ) -> (r: Vec3)
        ensures
            r == smat_eval(*self, *view_dir, *light_dir, *info),
            r.x >= 0 && r.y >= 0 && r.z >= 0,
        decreases *self,
    {
        let raw = match self {
            Material::Diffuse(d) => d.eval(light_dir, info),
            Material::Metal(m) => m.eval(view_dir, light_dir, info),
            Material::Glass(g) => g.eval(view_dir, light_dir, info),
            Material::Clearcoat(c) => c.eval(view_dir, light_dir, info),
            Material::Sheen(s) => s.eval(view_dir, light_dir, info),
            Material::Principled(p) => p.eval(view_dir, light_dir, info),
            Material::Light(_) => Vec3::one(),
            Material::Mix(mx) => {
                let w1 = mx.bxdf1.eval(view_dir, light_dir, info).scale(fsub(FX_ONE, mx.t));
                let w2 = mx.bxdf2.eval(view_dir, light_dir, info).scale(mx.t);
                w1.add(&w2)
            },
        };
        raw.max(&Vec3::zero())
    }

    /// The fused operation: sample a direction, then hand back `eval / pdf`
    /// at it and the offset continuation ray. Only the diffuse variant keeps
    /// a simplified attenuation, because there the cancellation is exact:
    /// the cosine-weighted density divides out the cosine-weighted
    /// reflectance, leaving the albedo. Every other variant computes the
    /// quotient as stated.
    pub fn scatter(
        &self,
        ray: &crate::ray::Ray,
        info: &crate::hittable::hit_info::HitInfo,
        rng: &mut crate::rng::Rng,
    ) -> (r: Option<(Vec3, crate::ray::Ray)>)
        ensures
            self is Light ==> r is None,
            self is Diffuse ==> r is Some,
            self is Glass ==> r is Some,
            self is Sheen ==> r is Some,
            match r {
                None => true,
                Some((att, nray)) => nray.time == ray.time && (match *self {
                    Material::Diffuse(d) => att == crate::texture::scolor_value(
                        d.base_color,
                        info.u,
                        info.v,
                        info.point,
                    ) && nray.origin == vadd(info.point, vscale(info.geometric_normal,
                        SCATTER_EPS)),
                    Material::Light(_) => false,
                    _ => exists|dir: Vec3|
                        att == vdiv_s(
                            smat_eval(*self, vneg(ray.direction), dir, *info),
                            smat_pdf(*self, vneg(ray.direction), dir, *info),
                        ) && nray == sscatter_ray(*info, dir, ray.time),
                }),
            },
        decreases *self,
    {
        match self {
            Material::Diffuse(d) => d.scatter(ray, info, rng),
            Material::Light(_) => None,
            _ => {
                let dir = match self.sample(ray, info, rng) {
                    Some(d) => d,
                    None => {
                        return None;
                    },
                };
                let view_dir = ray.direction.neg();
                let pdf = self.pdf(&view_dir, &dir, info);
                let brdf = self.eval(&view_dir, &dir, info);
                let brdf_weight = brdf.div_s(pdf);
                let eps = fmul(SCATTER_EPS, crate::fx::fsignum(
                    dir.dot(&info.geometric_normal),
                ));
                let next_ray = crate::ray::Ray::new(
                    info.point.add(&info.geometric_normal.scale(eps)),
                    dir,
                    ray.time,
                );
                proof {
                    assert(next_ray == sscatter_ray(*info, dir, ray.time));
                    assert(brdf_weight == vdiv_s(
                        smat_eval(*self, vneg(ray.direction), dir, *info),
                        smat_pdf(*self, vneg(ray.direction), dir, *info),
                    ));
                }
                Some((brdf_weight, next_ray))
            },
        }
    }
}

/// The continuation ray a scatter produces: the origin stepped off the
/// surface along the geometric normal, signed by the side the new direction
/// leaves on, with the time carried through.
pub open spec fn sscatter_ray(
    info: crate::hittable::hit_info::HitInfo,
    dir: Vec3,
    time: i64,
) -> crate::ray::Ray {
    crate::ray::Ray {
        origin: vadd(
            info.point,
            vscale(
                info.geometric_normal,
                smul64(SCATTER_EPS, crate::fx::ssignum(vdot(dir, info.geometric_normal))),
            ),
        ),
        direction: vnormalize(dir),
        time,
    }
}

/// The tint direction of a base color: the color normalized to unit
/// luminance, or white for a black base.
pub open spec fn stint(base_color: Vec3) -> Vec3 {
    if vluminance(base_color) > 0 {
        vdiv_s(base_color, vluminance(base_color))
    } else {
        v3(FX_ONE, FX_ONE, FX_ONE)
    }
}

pub fn tint(base_color: &Vec3) -> (r: Vec3)
    ensures
        r == stint(*base_color),
{
    let lum = base_color.luminance();
    if lum > 0 {
        base_color.div_s(lum)
    } else {
        Vec3::one()
    }
}

/// Normal-incidence reflectance of a dielectric interface with relative
/// index `eta`: ((eta-1)/(eta+1))^2.
pub open spec fn sr0(eta: i64) -> i64 {
    let q = sdiv64(ssub64(eta, FX_ONE), sadd64(eta, FX_ONE));
    smul64(q, q)
}

pub fn r0(eta: i64) -> (r: i64)
    ensures
        r == sr0(eta),
{
    let q = fdiv(fsub(eta, FX_ONE), fadd(eta, FX_ONE));
    fmul(q, q)
}

/// Schlick's approximation as a function of `x = 1 - cos(theta)`:
/// `f0 + (1 - f0) * x^5`, componentwise.
pub open spec fn sschlick_fresnel(f0: Vec3, x: i64) -> Vec3 {
    vadd(f0, vscale(vsub(v3(FX_ONE, FX_ONE, FX_ONE), f0), spow564(x)))
}

pub fn schlick_fresnel(f0: &Vec3, x: i64) -> (r: Vec3)
    ensures
        r == sschlick_fresnel(*f0, x),
{
    f0.add(&Vec3::one().sub(f0).scale(fpow5(x)))
}

/// The Schlick interpolation weight `clamp(1 - x, 0, 1)^5`.
pub open spec fn sschlick_weight(x: i64) -> i64 {
    spow564(sclamp64(ssub64(FX_ONE, x), 0, FX_ONE))
}

pub fn schlick_weight(x: i64) -> (r: i64)
    ensures
        r == sschlick_weight(x),
{
    fpow5(fclamp(fsub(FX_ONE, x), 0, FX_ONE))
}

/// At grazing incidence (`x = 1`) Schlick's approximation reaches white, and
/// at normal incidence (`x = 0`) it returns the base reflectance exactly.
pub proof fn lemma_schlick_boundaries(f0: Vec3)
    requires
        0 <= f0.x <= FX_ONE,
        0 <= f0.y <= FX_ONE,
        0 <= f0.z <= FX_ONE,
    ensures
        sschlick_fresnel(f0, 0) == f0,
        sschlick_fresnel(f0, FX_ONE) == v3(FX_ONE, FX_ONE, FX_ONE),
{
    assert(spow564(0) == 0);
    assert(spow564(FX_ONE) == FX_ONE);
}

/// The exact dielectric Fresnel term for the interface `eta_i -> eta_o`,
/// through the generalized half-angle `g`; a negative discriminant means
/// total internal reflection and yields exactly 1. The result is clamped to
/// `[0, 1]` so rounding can never produce an out-of-range reflectance.
pub open spec fn sdielectric_fresnel(w: Vec3, h: Vec3, eta_i: i64, eta_o: i64) -> i64 {
    let c = crate::fx::sabs64(crate::vec3::vdot(w, h));
    let e = sdiv64(eta_o, eta_i);
    let g_squared = sadd64(ssub64(smul64(e, e), FX_ONE), smul64(c, c));
    if g_squared < 0 {
        FX_ONE
    } else {
        let g = ssqrt64(g_squared);
        let gmc = ssub64(g, c);
        let gpc = sadd64(g, c);
        let x = sdiv64(ssub64(smul64(c, gpc), FX_ONE), sadd64(smul64(c, gmc), FX_ONE));
        sclamp64(
            smul64(
                smul64(FX_HALF, sdiv64(smul64(gmc, gmc), smul64(gpc, gpc))),
                sadd64(FX_ONE, smul64(x, x)),
            ),
            0,
            FX_ONE,
        )
    }
}

pub fn dielectric_fresnel(w: &Vec3, h: &Vec3, eta_i: i64, eta_o: i64) -> (r: i64)
    ensures
        r == sdielectric_fresnel(*w, *h, eta_i, eta_o),
        0 <= r <= FX_ONE,
{
    let c = fabs(w.dot(h));
    let e = fdiv(eta_o, eta_i);
    let g_squared = fadd(fsub(fmul(e, e), FX_ONE), fmul(c, c));
    if g_squared < 0 {
        FX_ONE
    } else {
        let g = fsqrt(g_squared);
        let gmc = fsub(g, c);
        let gpc = fadd(g, c);
        let x = fdiv(fsub(fmul(c, gpc), FX_ONE), fadd(fmul(c, gmc), FX_ONE));
        fclamp(
            fmul(fmul(FX_HALF, fdiv(fmul(gmc, gmc), fmul(gpc, gpc))), fadd(FX_ONE, fmul(x, x))),
            0,
            FX_ONE,
        )
    }
}

/// Past the critical angle the discriminant is negative and the dielectric
/// Fresnel term is exactly 1: every sample reflects, none refracts.
pub proof fn lemma_fresnel_total_internal_reflection(w: Vec3, h: Vec3, eta_i: i64, eta_o: i64)
    requires
        sadd64(
            ssub64(smul64(sdiv64(eta_o, eta_i), sdiv64(eta_o, eta_i)), FX_ONE),
            smul64(
                crate::fx::sabs64(crate::vec3::vdot(w, h)),
                crate::fx::sabs64(crate::vec3::vdot(w, h)),
            ),
        ) < 0,
    ensures
        sdielectric_fresnel(w, h, eta_i, eta_o) == FX_ONE,
{
}

} // verus!
