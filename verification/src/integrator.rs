//! The per-sample Monte Carlo path-tracing estimator.
//!
//! The loop intersects the scene, accumulates emission, applies Russian
//! roulette after a warm-up, and picks the next direction by one-sample
//! multiple importance sampling between explicit light sampling and BSDF
//! sampling. A nonpositive combined density means the sample cannot
//! contribute and ends the path, so a degenerate draw can never corrupt the
//! running radiance.

use vstd::prelude::*;

use crate::bsdf::{semitted, smat_eval, smat_pdf, sscatter_ray, Material, SCATTER_EPS};
use crate::fx::{fadd, fclamp, fmul, fsignum, fsub, sabs64, sadd64, sclamp64, sdiv64, smul64,
    ssub64, FX_MAX, FX_ONE, FX_PI, FX_TWO_PI};

use crate::hittable::hit_info::HitInfo;
use crate::hittable::list::slist_pdf;
use crate::hittable::world::{sintersect_all, sworld_wf, World};
use crate::interval::Interval;
use crate::ray::Ray;
use crate::rng::Rng;
use crate::texture::{scolor_value, simg_value, ColorTexture, ImageTexture};
use crate::vec3::{v3, vadd, vdiv_s, vluminance, vmul, vneg, Vec3};

verus! {

/// Lower bound of every intersection interval (about 1e-3), against
/// self-intersection at the origin of secondary rays.
pub const TRACE_EPS: i64 = 66;

/// Russian-roulette survival probabilities are clamped to at least this
/// (about 0.01).
pub const RR_MIN_PROB: i64 = 655;

/// The radiance behind every escaped ray: a constant color or a
/// latitude-longitude environment map.
pub enum EnvironmentType {
    Color(Vec3),
    Image(ImageTexture),
}

/// The environment radiance along a direction: map lookups convert the
/// direction to latitude-longitude coordinates.
pub open spec fn senvironment(e: EnvironmentType, ray: Ray) -> Vec3 {
    match e {
        EnvironmentType::Color(c) => c,
        EnvironmentType::Image(img) => {
            let theta = crate::fx::sacos(ray.direction.y);
            let phi = crate::fx::satan2(ray.direction.z, ray.direction.x);
            let u = sdiv64(sadd64(phi, FX_PI), FX_TWO_PI);
            let v = ssub64(FX_ONE, sdiv64(theta, FX_PI));
            simg_value(img, u, v)
        },
    }
}

/// Componentwise nonnegativity of every color a texture can produce.
pub open spec fn stex_nonneg(t: ColorTexture) -> bool
    decreases t,
{
    match t {
        ColorTexture::Solid(s) => s.value.x >= 0 && s.value.y >= 0 && s.value.z >= 0,
        ColorTexture::Checker(c) => stex_nonneg(*c.tex1) && stex_nonneg(*c.tex2),
        ColorTexture::Image(img) => forall|i: int|
            0 <= i < img.pixels@.len() ==> (#[trigger] img.pixels@[i]).x >= 0
                && img.pixels@[i].y >= 0 && img.pixels@[i].z >= 0,
    }
}

pub open spec fn senv_nonneg(e: EnvironmentType) -> bool {
    match e {
        EnvironmentType::Color(c) => c.x >= 0 && c.y >= 0 && c.z >= 0,
        EnvironmentType::Image(img) => forall|i: int|
            0 <= i < img.pixels@.len() ==> (#[trigger] img.pixels@[i]).x >= 0
                && img.pixels@[i].y >= 0 && img.pixels@[i].z >= 0,
    }
}

/// Every emissive material in the arena emits nonnegative radiance.
pub open spec fn smats_emission_nonneg(mats: Seq<Material>) -> bool {
    forall|i: int|
        0 <= i < mats.len() ==> match #[trigger] mats[i] {
            Material::Light(l) => stex_nonneg(l.emission),
            _ => true,
        }
}

pub open spec fn vnonneg(v: Vec3) -> bool {
    v.x >= 0 && v.y >= 0 && v.z >= 0
}

pub open spec fn vge(a: Vec3, b: Vec3) -> bool {
    a.x >= b.x && a.y >= b.y && a.z >= b.z
}

/// All components within the saturation range; every arithmetic result is.
pub open spec fn vbounded(v: Vec3) -> bool {
    &&& -FX_MAX <= v.x <= FX_MAX
    &&& -FX_MAX <= v.y <= FX_MAX
    &&& -FX_MAX <= v.z <= FX_MAX
}

/// The emission term the first hit of the primary ray contributes, at unit
/// throughput.
pub open spec fn sfirst_emission(w: World, primary: Ray) -> Vec3 {
    match sintersect_all(w, primary, Interval { min: TRACE_EPS, max: FX_MAX }) {
        Some(hb) => {
            if hb.0.mat_id < w.materials@.len() {
                vmul(
                    v3(FX_ONE, FX_ONE, FX_ONE),
                    semitted(w.materials@[hb.0.mat_id as int], hb.0.u, hb.0.v, hb.0.point),
                )
            } else {
                v3(0, 0, 0)
            }
        },
        None => v3(0, 0, 0),
    }
}

proof fn lemma_vmul_nonneg(a: Vec3, b: Vec3)
    requires
        vnonneg(a),
        vnonneg(b),
    ensures
        vnonneg(vmul(a, b)),
{
}

proof fn lemma_vdiv_nonneg(a: Vec3, s: i64)
    requires
        vnonneg(a),
        s >= 0,
    ensures
        vnonneg(vdiv_s(a, s)),
{
}

proof fn lemma_vadd_ge(a: Vec3, b: Vec3)
    requires
        vnonneg(b),
        vbounded(a),
    ensures
        vge(vadd(a, b), a),
{
}

/// A nonnegative texture yields nonnegative colors everywhere.
proof fn lemma_tex_value_nonneg(t: ColorTexture, u: i64, v: i64, p: Vec3)
    requires
        stex_nonneg(t),
    ensures
        vnonneg(scolor_value(t, u, v, p)),
    decreases t,
{
    match t {
        ColorTexture::Solid(_) => {},
        ColorTexture::Checker(c) => {
            lemma_tex_value_nonneg(*c.tex1, u, v, p);
            lemma_tex_value_nonneg(*c.tex2, u, v, p);
        },
        ColorTexture::Image(img) => {
            lemma_img_value_nonneg(img, u, v);
        },
    }
}

proof fn lemma_img_value_nonneg(img: ImageTexture, u: i64, v: i64)
    requires
        forall|i: int|
            0 <= i < img.pixels@.len() ==> (#[trigger] img.pixels@[i]).x >= 0
                && img.pixels@[i].y >= 0 && img.pixels@[i].z >= 0,
    ensures
        vnonneg(simg_value(img, u, v)),
{
    if img.height == 0 || img.width == 0 || img.pixels@.len() != img.width * img.height {
    } else {
        let i = crate::texture::simg_index(u, img.width);
        let j = crate::texture::simg_index(
            ssub64(FX_ONE, sclamp64(v, 0, FX_ONE)),
            img.height,
        );
        assert(0 <= i < img.width as int);
        assert(0 <= j < img.height as int);
        assert(j * (img.width as int) + i < (img.width as int) * (img.height as int))
            by (nonlinear_arith)
            requires
                0 <= i < img.width as int,
                0 <= j < img.height as int,
        ;
        assert(j * (img.width as int) + i >= 0) by (nonlinear_arith)
            requires
                0 <= i,
                0 <= j,
                (img.width as int) > 0,
        ;
    }
}

/// The emitted radiance of any material in a nonnegative arena is
/// nonnegative.
proof fn lemma_emitted_nonneg(mats: Seq<Material>, id: int, u: i64, v: i64, p: Vec3)
    requires
        smats_emission_nonneg(mats),
        0 <= id < mats.len(),
    ensures
        vnonneg(semitted(mats[id], u, v, p)),
{
    match mats[id] {
        Material::Light(l) => {
            lemma_tex_value_nonneg(l.emission, u, v, p);
        },
        _ => {},
    }
}

proof fn lemma_env_nonneg(e: EnvironmentType, ray: Ray)
    requires
        senv_nonneg(e),
    ensures
        vnonneg(senvironment(e, ray)),
{
    match e {
        EnvironmentType::Color(_) => {},
        EnvironmentType::Image(img) => {
            let theta = crate::fx::sacos(ray.direction.y);
            let phi = crate::fx::satan2(ray.direction.z, ray.direction.x);
            let u = sdiv64(sadd64(phi, FX_PI), FX_TWO_PI);
            let v = ssub64(FX_ONE, sdiv64(theta, FX_PI));
            lemma_img_value_nonneg(img, u, v);
        },
    }
}

/// When a value fits the representable range, filtering it by a unit
/// throughput and adding it to black changes nothing: the contract of a
/// miss on the primary ray reduces to the environment term itself.
pub proof fn lemma_unit_filter(e: Vec3)
    requires
        -FX_MAX <= e.x <= FX_MAX,
        -FX_MAX <= e.y <= FX_MAX,
        -FX_MAX <= e.z <= FX_MAX,
    ensures
        vadd(v3(0, 0, 0), vmul(v3(FX_ONE, FX_ONE, FX_ONE), e)) == e,
{
    vstd::arithmetic::div_mod::lemma_div_multiples_vanish(sabs64(e.x) as int, FX_ONE as int);
    vstd::arithmetic::div_mod::lemma_div_multiples_vanish(sabs64(e.y) as int, FX_ONE as int);
    vstd::arithmetic::div_mod::lemma_div_multiples_vanish(sabs64(e.z) as int, FX_ONE as int);
    assert(smul64(FX_ONE, e.x) == e.x);
    assert(smul64(FX_ONE, e.y) == e.y);
    assert(smul64(FX_ONE, e.z) == e.z);
}

/// Russian roulette is unbiased: a path surviving with probability `p` has
/// its throughput divided by `p`, so the probability-weighted compensated
/// throughput `p * (t / p)` equals the original throughput `t` exactly, up
/// to less than one unit of the division's rounding. Over many trials the
/// expected throughput after roulette therefore equals the throughput
/// before it.
pub proof fn lemma_russian_roulette_unbiased(t: i64, p: i64)
    requires
        0 <= t,
        0 < p <= FX_ONE,
        (t as int) * (FX_ONE as int) <= (FX_MAX as int) * (p as int),
    ensures
        (p as int) * (sdiv64(t, p) as int) <= (t as int) * (FX_ONE as int),
        (t as int) * (FX_ONE as int) < (p as int) * (sdiv64(t, p) as int) + (p as int),
{
    let n: int = (t as int) * (FX_ONE as int);
    let pp: int = p as int;
    let q: int = n / pp;
    vstd::arithmetic::div_mod::lemma_fundamental_div_mod(n, pp);
    assert(n == pp * q + n % pp);
    assert(0 <= n % pp < pp);
    assert((t as int) * (FX_ONE as int) >= 0) by (nonlinear_arith)
        requires
            0 <= (t as int),
    ;
    assert(n >= 0);
    vstd::arithmetic::div_mod::lemma_div_is_ordered(n, (FX_MAX as int) * pp, pp);
    vstd::arithmetic::div_mod::lemma_div_multiples_vanish(FX_MAX as int, pp);
    assert(q <= FX_MAX as int);
    assert(q >= 0) by {
        vstd::arithmetic::div_mod::lemma_div_is_ordered(0, n, pp);
    }
    assert(sdiv64(t, p) as int == q);
}

/// The per-pixel estimator: everything but camera ray generation and image
/// output.
pub struct Integrator {
    pub max_depth: usize,
    pub min_bounces: usize,
    pub light_sample_prob: i64,
    pub environment: EnvironmentType,
}

/// The estimator's loop state before or after one bounce.
pub struct TraceState {
    pub ray: Ray,
    pub throughput: Vec3,
    pub radiance: Vec3,
    pub done: bool,
}

/// The probability of choosing the explicit light-sampling strategy: zero
/// for a scene without lights, else the configured constant.
pub open spec fn sp_light(ig: Integrator, w: World) -> i64 {
    if w.lights.objects@.len() == 0 {
        0
    } else {
        ig.light_sample_prob
    }
}

/// The one-sample multiple-importance-sampling density of a chosen
/// direction: both strategies' densities for that single direction,
/// combined with the selection probabilities.
pub open spec fn smis_pdf(ig: Integrator, w: World, s_ray: Ray, hit: HitInfo, dir: Vec3) -> i64 {
    let view = vneg(s_ray.direction);
    let p_light = sp_light(ig, w);
    let p_bsdf = ssub64(FX_ONE, p_light);
    let bsdf_pdf = smat_pdf(w.materials@[hit.mat_id as int], view, dir, hit);
    let light_pdf = slist_pdf(w.lights, w.materials@, hit.point, dir, s_ray.time);
    sadd64(smul64(p_bsdf, bsdf_pdf), smul64(p_light, light_pdf))
}

/// The throughput factor of a continuing bounce: the material's reflectance
/// over the combined density.
pub open spec fn smis_attenuation(ig: Integrator, w: World, s_ray: Ray, hit: HitInfo, dir: Vec3)
    -> Vec3 {
    vdiv_s(
        smat_eval(w.materials@[hit.mat_id as int], vneg(s_ray.direction), dir, hit),
        smis_pdf(ig, w, s_ray, hit, dir),
    )
}

/// The Russian-roulette outcome at bounce `i`: during the warm-up nothing
/// happens; afterwards the path is either killed with its throughput left
/// alone — possible only when the clamped survival probability is below
/// one — or survives with the throughput divided by that probability.
pub open spec fn srr_outcome(ig: Integrator, i: int, tp: Vec3, tp2: Vec3, killed: bool) -> bool {
    if i <= ig.min_bounces as int {
        !killed && tp2 == tp
    } else {
        (killed && tp2 == tp && sclamp64(vluminance(tp), RR_MIN_PROB, FX_ONE) < FX_ONE) || (
        !killed && tp2 == vdiv_s(tp, sclamp64(vluminance(tp), RR_MIN_PROB, FX_ONE)))
    }
}

/// Whether a material's sampler can decline to produce a direction: the
/// diffuse, sheen and glass variants always continue, so a path may stop
/// for want of a sampled direction only on the others.
pub open spec fn ssample_may_fail(m: Material) -> bool {
    !(m is Diffuse || m is Sheen || m is Glass)
}

/// One step of the estimator: exactly the transitions the loop may make,
/// with the random draws quantified existentially so that every clause
/// holds of every outcome.
///
/// A miss adds the throughput-weighted environment term and ends the path;
/// a hit always adds the throughput-weighted emission and then either dies
/// to roulette, stops because no usable continuation was drawn (a failed
/// sample, or a nonpositive combined density, which must contribute
/// nothing), or continues along a direction with positive combined density:
/// the throughput is multiplied by `eval / pdf` of that one direction under
/// both strategies, and the next ray starts at the hit point stepped off
/// along the geometric normal with the time carried through. Radiance
/// changes in no other way.
pub open spec fn strace_step(ig: Integrator, w: World, i: int, s: TraceState, t: TraceState)
    -> bool {
    !s.done && match sintersect_all(w, s.ray, Interval { min: TRACE_EPS, max: FX_MAX }) {
        None => t == (TraceState {
            ray: s.ray,
            throughput: s.throughput,
            radiance: vadd(s.radiance, vmul(s.throughput, senvironment(ig.environment, s.ray))),
            done: true,
        }),
        Some(hb) => {
            let hit = hb.0;
            if hit.mat_id >= w.materials@.len() {
                t == (TraceState {
                    ray: s.ray,
                    throughput: s.throughput,
                    radiance: s.radiance,
                    done: true,
                })
            } else {
                let rad2 = vadd(
                    s.radiance,
                    vmul(
                        s.throughput,
                        semitted(w.materials@[hit.mat_id as int], hit.u, hit.v, hit.point),
                    ),
                );
                exists|killed: bool, tp2: Vec3|
                    #![trigger srr_outcome(ig, i, s.throughput, tp2, killed)]
                    srr_outcome(ig, i, s.throughput, tp2, killed) && (if killed {
                        t == (TraceState {
                            ray: s.ray,
                            throughput: s.throughput,
                            radiance: rad2,
                            done: true,
                        })
                    } else {
                        ((ssample_may_fail(w.materials@[hit.mat_id as int]) || exists|dir: Vec3|
                            #![trigger smis_pdf(ig, w, s.ray, hit, dir)]
                            smis_pdf(ig, w, s.ray, hit, dir) <= 0) && t == (TraceState {
                            ray: s.ray,
                            throughput: tp2,
                            radiance: rad2,
                            done: true,
                        })) || exists|dir: Vec3|
                            #![trigger smis_pdf(ig, w, s.ray, hit, dir)]
                            smis_pdf(ig, w, s.ray, hit, dir) > 0 && t == (TraceState {
                                ray: sscatter_ray(hit, dir, s.ray.time),
                                throughput: vmul(tp2, smis_attenuation(ig, w, s.ray, hit, dir)),
                                radiance: rad2,
                                done: false,
                            })
                    })
            }
        },
    }
}

impl Integrator {
    pub fn new(
        max_depth: usize,
        min_bounces: usize,
        light_sample_prob: i64,
        environment: EnvironmentType,
    ) -> (r: Integrator)
        ensures
            r.max_depth == max_depth,
            r.min_bounces == min_bounces,
            r.light_sample_prob == light_sample_prob,
            r.environment == environment,
    {
        Integrator { max_depth, min_bounces, light_sample_prob, environment }
    }

    pub fn sample_environment(&self, ray: &Ray) -> (r: Vec3)
        ensures
            r == senvironment(self.environment, *ray),
    {
        match &self.environment {
            EnvironmentType::Color(c) => *c,
            EnvironmentType::Image(img) => {
                let theta = crate::fx::facos(ray.direction.y);
                let phi = crate::fx::fatan2(ray.direction.z, ray.direction.x);
                let u = crate::fx::fdiv(fadd(phi, FX_PI), FX_TWO_PI);
                let v = fsub(FX_ONE, crate::fx::fdiv(theta, FX_PI));
                img.value(u, v)
            },
        }
    }

    /// Estimate the radiance arriving along one primary ray.
    ///
    /// The result is the end of a bounce log whose every consecutive pair
    /// satisfies `strace_step`: radiance accumulates exactly the
    /// throughput-weighted emission of each hit, plus the environment term
    /// on a miss, and nothing else; the throughput is multiplied by
    /// `eval / pdf` of the one chosen direction under the combined
    /// light/BSDF densities; every continuation ray starts at the offset
    /// hit point with the time carried through; and a path ends only at the
    /// depth limit, on a miss, by a justified roulette kill, or for want of
    /// a usable direction. In particular a primary ray that escapes the
    /// scene yields exactly the environment term, and with nonnegative
    /// emission and environment the estimate is never negative and at least
    /// the directly seen emission of the first hit.
    #[verifier::rlimit(100)]
    pub fn trace(&self, world: &World, primary: &Ray, rng: &mut Rng) -> (radiance: Vec3)
        requires
            sworld_wf(*world),
        ensures
            (self.max_depth > 0 && sintersect_all(
                *world,
                *primary,
                Interval { min: TRACE_EPS, max: FX_MAX },
            ) is None) ==> radiance == vadd(
                v3(0, 0, 0),
                vmul(v3(FX_ONE, FX_ONE, FX_ONE), senvironment(self.environment, *primary)),
            ),
            (self.max_depth > 0 && sintersect_all(
                *world,
                *primary,
                Interval { min: TRACE_EPS, max: FX_MAX },
            ) is None && vbounded(senvironment(self.environment, *primary))) ==> radiance
                == senvironment(self.environment, *primary),
            (senv_nonneg(self.environment) && smats_emission_nonneg(world.materials@))
                ==> vnonneg(radiance),
            (self.max_depth > 0 && senv_nonneg(self.environment) && smats_emission_nonneg(
                world.materials@,
            )) ==> vge(radiance, sfirst_emission(*world, *primary)),
            exists|steps: Seq<TraceState>|
                #![trigger steps.len()]
                steps.len() >= 1 && steps.len() <= self.max_depth + 1 && steps[0]
                    == (TraceState {
                    ray: *primary,
                    throughput: v3(FX_ONE, FX_ONE, FX_ONE),
                    radiance: v3(0, 0, 0),
                    done: false,
                }) && (forall|i: int|
                    0 <= i < steps.len() - 1 ==> strace_step(
                        *self,
                        *world,
                        i,
                        #[trigger] steps[i],
                        steps[i + 1],
                    )) && radiance == steps[steps.len() - 1].radiance && (steps[steps.len()
                    - 1].done || steps.len() == self.max_depth + 1),
    {
        let ghost h_nonneg = senv_nonneg(self.environment) && smats_emission_nonneg(
            world.materials@,
        );
        let ghost miss_primary = sintersect_all(
            *world,
            *primary,
            Interval { min: TRACE_EPS, max: FX_MAX },
        ) is None;
        let ghost first_emit = sfirst_emission(*world, *primary);
        let ghost miss_val = vadd(
            v3(0, 0, 0),
            vmul(v3(FX_ONE, FX_ONE, FX_ONE), senvironment(self.environment, *primary)),
        );

        proof {
            if vbounded(senvironment(self.environment, *primary)) {
                lemma_unit_filter(senvironment(self.environment, *primary));
            }
        }
        let mut radiance = Vec3::zero();
        let mut throughput = Vec3::one();
        let mut ray = *primary;
        let mut bounces: usize = 0;
        let mut done: bool = false;
        let ghost init_state = TraceState {
            ray: *primary,
            throughput: v3(FX_ONE, FX_ONE, FX_ONE),
            radiance: v3(0, 0, 0),
            done: false,
        };
        let ghost mut steps: Seq<TraceState> = seq![init_state];

        proof {
            if h_nonneg {
                lemma_env_nonneg(self.environment, *primary);
            }
        }

        while bounces < self.max_depth && !done
            invariant
                sworld_wf(*world),
                h_nonneg == (senv_nonneg(self.environment) && smats_emission_nonneg(
                    world.materials@,
                )),
                miss_primary == (sintersect_all(
                    *world,
                    *primary,
                    Interval { min: TRACE_EPS, max: FX_MAX },
                ) is None),
                first_emit == sfirst_emission(*world, *primary),
                miss_val == vadd(
                    v3(0, 0, 0),
                    vmul(v3(FX_ONE, FX_ONE, FX_ONE), senvironment(self.environment, *primary)),
                ),
                vbounded(radiance),
                h_nonneg ==> vnonneg(radiance) && vnonneg(throughput),
                (bounces == 0 && !done) ==> (radiance == v3(0, 0, 0) && throughput == v3(
                    FX_ONE,
                    FX_ONE,
                    FX_ONE,
                ) && ray == *primary),
                (miss_primary && (bounces > 0 || done)) ==> (done && radiance == miss_val),
                (h_nonneg && (bounces > 0 || done)) ==> vge(radiance, first_emit),
                bounces <= self.max_depth,
                steps.len() == bounces + 1,
                steps[0] == init_state,
                steps[steps.len() - 1] == (TraceState { ray, throughput, radiance, done }),
                forall|i: int|
                    0 <= i < steps.len() - 1 ==> strace_step(
                        *self,
                        *world,
                        i,
                        #[trigger] steps[i],
                        steps[i + 1],
                    ),
            decreases self.max_depth - bounces,
        {
            let ghost s_prev = TraceState { ray, throughput, radiance, done };
            let ghost bi = bounces as int;
            let hit_opt = world.intersect_all(&ray, Interval::new(TRACE_EPS, FX_MAX));
            match hit_opt {
                None => {
                    let env = self.sample_environment(&ray);
                    proof {
                        if h_nonneg {
                            lemma_env_nonneg(self.environment, ray);
                            lemma_vmul_nonneg(throughput, env);
                            lemma_vadd_ge(radiance, vmul(throughput, env));
                        }
                    }
                    radiance = radiance.add(&throughput.mul(&env));
                    done = true;
                    proof {
                        assert(strace_step(
                            *self,
                            *world,
                            bi,
                            s_prev,
                            TraceState { ray, throughput, radiance, done },
                        ));
                    }
                },
                Some((hit_info, _is_light)) => {
                    if hit_info.mat_id >= world.materials.len() {
                        done = true;
                        proof {
                            assert(strace_step(
                                *self,
                                *world,
                                bi,
                                s_prev,
                                TraceState { ray, throughput, radiance, done },
                            ));
                        }
                    } else {
                        let mat_id = hit_info.mat_id;
                        let emission = world.materials[mat_id].emitted(
                            hit_info.u,
                            hit_info.v,
                            &hit_info.point,
                        );
                        proof {
                            if h_nonneg {
                                lemma_emitted_nonneg(
                                    world.materials@,
                                    mat_id as int,
                                    hit_info.u,
                                    hit_info.v,
                                    hit_info.point,
                                );
                                lemma_vmul_nonneg(throughput, emission);
                                lemma_vadd_ge(radiance, vmul(throughput, emission));
                            }
                        }
                        radiance = radiance.add(&throughput.mul(&emission));

                        let mut continue_path = true;
                        if bounces > self.min_bounces {
                            let p = fclamp(throughput.luminance(), RR_MIN_PROB, FX_ONE);
                            if rng.next_unit() > p {
                                continue_path = false;
                                proof {
                                    assert(sclamp64(
                                        vluminance(s_prev.throughput),
                                        RR_MIN_PROB,
                                        FX_ONE,
                                    ) < FX_ONE);
                                }
                            } else {
                                proof {
                                    if h_nonneg {
                                        lemma_vdiv_nonneg(throughput, p);
                                    }
                                }
                                throughput = throughput.div_s(p);
                            }
                        }
                        let ghost tp2_w = throughput;
                        proof {
                            assert(srr_outcome(*self, bi, s_prev.throughput, tp2_w,
                                !continue_path));
                        }
                        if !continue_path {
                            done = true;
                            proof {
                                assert(strace_step(
                                    *self,
                                    *world,
                                    bi,
                                    s_prev,
                                    TraceState { ray, throughput, radiance, done },
                                ));
                            }
                        } else {
                            let p_light: i64 = if world.lights.is_empty() {
                                0
                            } else {
                                self.light_sample_prob
                            };
                            let p_bsdf = fsub(FX_ONE, p_light);
                            let rsel = rng.next_unit();
                            let ghost from_lights = rsel < p_light;
                            let dir_opt = if rsel < p_light {
                                world.lights.sample(&hit_info.point, ray.time, rng)
                            } else {
                                world.materials[mat_id].sample(&ray, &hit_info, rng)
                            };
                            match dir_opt {
                                None => {
                                    done = true;
                                    proof {
                                        assert(!from_lights);
                                        assert(ssample_may_fail(
                                            world.materials@[mat_id as int],
                                        ));
                                        assert(strace_step(
                                            *self,
                                            *world,
                                            bi,
                                            s_prev,
                                            TraceState { ray, throughput, radiance, done },
                                        ));
                                    }
                                },
                                Some(dir) => {
                                    let view_dir = ray.direction.neg();
                                    let bsdf_pdf = world.materials[mat_id].pdf(
                                        &view_dir,
                                        &dir,
                                        &hit_info,
                                    );
                                    let light_pdf = world.lights.pdf(
                                        &world.materials,
                                        &hit_info.point,
                                        &dir,
                                        ray.time,
                                    );
                                    let pdf = fadd(
                                        fmul(p_bsdf, bsdf_pdf),
                                        fmul(p_light, light_pdf),
                                    );
                                    if pdf <= 0 {
                                        done = true;
                                        proof {
                                            assert(smis_pdf(*self, *world, s_prev.ray, hit_info,
                                                dir) <= 0);
                                            assert(strace_step(
                                                *self,
                                                *world,
                                                bi,
                                                s_prev,
                                                TraceState { ray, throughput, radiance, done },
                                            ));
                                        }
                                    } else {
                                        let brdf = world.materials[mat_id].eval(
                                            &view_dir,
                                            &dir,
                                            &hit_info,
                                        );
                                        let attenuation = brdf.div_s(pdf);
                                        proof {
                                            if h_nonneg {
                                                lemma_vdiv_nonneg(brdf, pdf);
                                                lemma_vmul_nonneg(throughput, attenuation);
                                            }
                                        }
                                        let eps = fmul(
                                            SCATTER_EPS,
                                            fsignum(dir.dot(&hit_info.geometric_normal)),
                                        );
                                        let next_ray = Ray::new(
                                            hit_info.point.add(
                                                &hit_info.geometric_normal.scale(eps),
                                            ),
                                            dir,
                                            ray.time,
                                        );
                                        throughput = throughput.mul(&attenuation);
                                        ray = next_ray;
                                        proof {
                                            assert(pdf == smis_pdf(*self, *world, s_prev.ray,
                                                hit_info, dir));
                                            assert(attenuation == smis_attenuation(*self, *world,
                                                s_prev.ray, hit_info, dir));
                                            assert(ray == sscatter_ray(hit_info, dir,
                                                s_prev.ray.time));
                                            assert(strace_step(
                                                *self,
                                                *world,
                                                bi,
                                                s_prev,
                                                TraceState { ray, throughput, radiance, done },
                                            ));
                                        }
                                    }
                                },
                            }
                        }
                    }
                },
            }
            proof {
                assert(strace_step(
                    *self,
                    *world,
                    bi,
                    s_prev,
                    TraceState { ray, throughput, radiance, done },
                ));
                steps = steps.push(TraceState { ray, throughput, radiance, done });
            }
            bounces = bounces + 1;
        }
        proof {
            assert(steps.len() >= 1 && steps.len() <= self.max_depth + 1 && steps[0]
                == init_state && radiance == steps[steps.len() - 1].radiance && (steps[steps.len()
                - 1].done || steps.len() == self.max_depth + 1));
        }
        radiance
    }
}

} // verus!
