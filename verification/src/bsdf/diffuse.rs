//! Lambertian diffuse reflection with cosine-weighted sampling.

use vstd::prelude::*;

use crate::bsdf::sampling::{cosine_sample_hemisphere, sto_local, sto_world, to_local, to_world};
use crate::bsdf::{DiffuseBRDF, SCATTER_EPS};
use crate::fx::{fabs, fdiv, sabs64, sdiv64, FX_PI};
use crate::hittable::hit_info::HitInfo;
use crate::ray::Ray;
use crate::rng::Rng;
use crate::texture::{scolor_value, ColorTexture, ImageTexture, SolidTexture};
use crate::vec3::{vadd, vdiv_s, vscale, Vec3};

verus! {

/// The cosine density of the sampled direction around the shading normal.
pub open spec fn sdiffuse_pdf(light_dir: Vec3, info: HitInfo) -> i64 {
    let l = sto_local(info.shading_normal, light_dir);
    sdiv64(sabs64(l.z), FX_PI)
}

/// The Lambertian reflectance with the cosine term folded in:
/// `|cos| * albedo / pi`.
pub open spec fn sdiffuse_eval(d: DiffuseBRDF, light_dir: Vec3, info: HitInfo) -> Vec3 {
    let color = scolor_value(d.base_color, info.u, info.v, info.point);
    let l = sto_local(info.shading_normal, light_dir);
    vscale(vdiv_s(color, FX_PI), sabs64(l.z))
}

impl DiffuseBRDF {
    pub fn new(base_color: ColorTexture) -> (r: Self)
        ensures
            r.base_color == base_color,
            r.normal_map is None,
    {
        DiffuseBRDF { base_color, normal_map: None }
    }

    pub fn from_rgb(base_color: Vec3) -> (r: Self)
        ensures
            r.base_color == ColorTexture::Solid(SolidTexture { value: base_color }),
            r.normal_map is None,
    {
        DiffuseBRDF { base_color: ColorTexture::solid(base_color), normal_map: None }
    }

    pub fn with_normal(base_color: Vec3, normal_map: ImageTexture) -> (r: Self)
        ensures
            r.base_color == ColorTexture::Solid(SolidTexture { value: base_color }),
            r.normal_map == Some(normal_map),
    {
        DiffuseBRDF { base_color: ColorTexture::solid(base_color), normal_map: Some(normal_map) }
    }

    pub fn from_textures(color_texture: ColorTexture, normal_map: Option<ImageTexture>) -> (r:
        Self)
        ensures
            r.base_color == color_texture,
            r.normal_map == normal_map,
    {
        DiffuseBRDF { base_color: color_texture, normal_map }
    }

    /// A cosine-weighted direction about the shading normal; diffuse
    /// scattering always continues, and the returned direction is the image
    /// of an upper-hemisphere point of the shading normal's tangent frame.
    pub fn sample(&self, info: &HitInfo, rng: &mut Rng) -> (r: Option<Vec3>)
        ensures
            r is Some,
            exists|local: Vec3|
                local.z >= 0 && r.unwrap() == sto_world(info.shading_normal, local),
    {
        let local = cosine_sample_hemisphere(rng);
        let w = to_world(&info.shading_normal, &local);
        proof {
            assert(local.z >= 0 && w == sto_world(info.shading_normal, local));
        }
        Some(w)
    }

    pub fn pdf(&self, light_dir: &Vec3, info: &HitInfo) -> (r: i64)
        ensures
            r == sdiffuse_pdf(*light_dir, *info),
    {
        let l = to_local(&info.shading_normal, light_dir);
        fdiv(fabs(l.z), FX_PI)
    }

    pub fn eval(&self, light_dir: &Vec3, info: &HitInfo) -> (r: Vec3)
        ensures
            r == sdiffuse_eval(*self, *light_dir, *info),
    {
        let color = self.base_color.value(info.u, info.v, &info.point);
        let l = to_local(&info.shading_normal, light_dir);
        color.div_s(FX_PI).scale(fabs(l.z))
    }

    /// The algebraically simplified scatter: for a Lambertian surface the
    /// cosine-weighted density cancels `eval` exactly, so the attenuation is
    /// the albedo itself.
    pub fn scatter(&self, ray: &Ray, info: &HitInfo, rng: &mut Rng) -> (r: Option<(Vec3, Ray)>)
        ensures
            r is Some,
            ({
                let (att, nray) = r.unwrap();
                att == scolor_value(self.base_color, info.u, info.v, info.point)
                    && nray.origin == vadd(
                    info.point,
                    vscale(info.geometric_normal, SCATTER_EPS),
                ) && nray.time == ray.time
            }),
    {
        let color = self.base_color.value(info.u, info.v, &info.point);
        let dir = match self.sample(info, rng) {
            Some(d) => d,
            None => Vec3::zero(),
        };
        let next_ray = Ray::new(
            info.point.add(&info.geometric_normal.scale(SCATTER_EPS)),
            dir,
            ray.time,
        );
        Some((color, next_ray))
    }
}

} // verus!
