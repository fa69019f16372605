//! Information about one ray/surface intersection.

use vstd::prelude::*;

use crate::bsdf::sampling::{sbitangent, stangent, tangent_basis};
use crate::bsdf::Material;
use crate::fx::FX_TWO;
use crate::ray::Ray;
use crate::texture::simg_value;
use crate::vec3::{vadd, vdot, vneg, vnormalize, vscale, vsub, Vec3};

verus! {

/// Created fresh on every successful intersection and never mutated. The
/// geometric normal always faces the incoming ray; the shading normal is the
/// normal-map perturbation of it when the material carries one.
pub struct HitInfo {
    pub point: Vec3,
    pub geometric_normal: Vec3,
    pub shading_normal: Vec3,
    pub dist: i64,
    pub front_face: bool,
    pub mat_id: usize,
    pub u: i64,
    pub v: i64,
}

/// The geometric normal after orienting it against the ray.
pub open spec fn soriented_normal(ray: Ray, gn: Vec3) -> Vec3 {
    if vdot(ray.direction, gn) < 0 {
        vnormalize(gn)
    } else {
        vneg(vnormalize(gn))
    }
}

/// The shading normal: the tangent-frame image of the normal-map color
/// remapped from `[0, 1]` to `[-1, 1]`, or the geometric normal when the
/// material has no normal map.
pub open spec fn sshading_normal(g: Vec3, mat_id: usize, mats: Seq<Material>, u: i64, v: i64)
    -> Vec3 {
    if mat_id < mats.len() && mats[mat_id as int] is Diffuse && mats[mat_id as int]->Diffuse_0
        .normal_map is Some {
        let nm = mats[mat_id as int]->Diffuse_0.normal_map.unwrap();
        let mv = simg_value(nm, u, v);
        let mapped = vsub(vscale(mv, FX_TWO), crate::vec3::v3(crate::fx::FX_ONE, crate::fx::FX_ONE,
            crate::fx::FX_ONE));
        vnormalize(
            vadd(
                vadd(vscale(stangent(g), mapped.x), vscale(sbitangent(g), mapped.y)),
                vscale(g, mapped.z),
            ),
        )
    } else {
        g
    }
}

/// The hit record built from a raw intersection: normal oriented, shading
/// normal derived, everything else carried through.
pub open spec fn snew_hit_info(
    ray: Ray,
    point: Vec3,
    gn: Vec3,
    dist: i64,
    mat_id: usize,
    mats: Seq<Material>,
    u: i64,
    v: i64,
) -> HitInfo {
    let g = soriented_normal(ray, gn);
    HitInfo {
        point,
        geometric_normal: g,
        shading_normal: sshading_normal(g, mat_id, mats, u, v),
        dist,
        front_face: vdot(ray.direction, gn) < 0,
        mat_id,
        u,
        v,
    }
}

impl HitInfo {
    pub fn new(
        ray: &Ray,
        point: Vec3,
        geometric_normal: Vec3,
        dist: i64,
        mat_id: usize,
        mats: &Vec<Material>,
        u: i64,
        v: i64,
    ) -> (r: HitInfo)
        ensures
            r == snew_hit_info(*ray, point, geometric_normal, dist, mat_id, mats@, u, v),
    {
        let front_face = ray.direction.dot(&geometric_normal) < 0;
        let g = if front_face {
            geometric_normal.normalize()
        } else {
            geometric_normal.normalize().neg()
        };
        let has_map = mat_id < mats.len();
        let shading_normal = if has_map {
            match mats[mat_id].normal_map() {
                Some(nm) => {
                    let mv = nm.value(u, v);
                    let mapped = mv.scale(FX_TWO).sub(&Vec3::one());
                    let (tangent, bitangent) = tangent_basis(&g);
                    tangent.scale(mapped.x).add(&bitangent.scale(mapped.y)).add(
                        &g.scale(mapped.z),
                    ).normalize()
                },
                None => g,
            }
        } else {
            g
        };
        HitInfo {
            point,
            geometric_normal: g,
            shading_normal,
            dist,
            front_face,
            mat_id,
            u,
            v,
        }
    }
}

} // verus!
