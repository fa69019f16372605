//! Triangles with optional per-vertex normals and texture coordinates, and
//! the construction of a triangle batch from indexed mesh arrays.

use vstd::prelude::*;

use crate::aabb::{aabb_new, AABB};
use crate::bsdf::Material;
use crate::fx::{fabs, fadd, fdiv, fmul, fsub, sabs64, sadd64, sdiv64, smul64, ssub64, FX_HALF,
    FX_MAX, FX_ONE};
use crate::hittable::hit_info::{snew_hit_info, HitInfo};
use crate::hittable::Primitive;
use crate::interval::Interval;
use crate::ray::{ray_at, Ray};
use crate::rng::Rng;
use crate::vec3::{vadd, vcross, vdot, vlength, vmax, vmin, vnormalize, vscale, vsub, Vec3};

verus! {

pub struct Triangle {
    pub v0: Vec3,
    pub v1: Vec3,
    pub v2: Vec3,
    pub normals: Option<(Vec3, Vec3, Vec3)>,
    pub uvs: Option<((i64, i64), (i64, i64), (i64, i64))>,
    pub mat_id: usize,
    pub bbox: AABB,
}

/// The interpolated shading data and intersection via the Moller-Trumbore
/// test; a ray parallel to the triangle plane never hits.
pub open spec fn stri_hit(tr: Triangle, mats: Seq<Material>, ray: Ray, ray_t: Interval) -> Option<
    HitInfo> {
    let edge1 = vsub(tr.v1, tr.v0);
    let edge2 = vsub(tr.v2, tr.v0);
    let h = vcross(ray.direction, edge2);
    let a = vdot(edge1, h);
    if a == 0 {
        None
    } else {
        let f = sdiv64(FX_ONE, a);
        let s = vsub(ray.origin, tr.v0);
        let u = smul64(f, vdot(s, h));
        if !(0 <= u && u <= FX_ONE) {
            None
        } else {
            let q = vcross(s, edge1);
            let v = smul64(f, vdot(ray.direction, q));
            if v < 0 || sadd64(u, v) > FX_ONE {
                None
            } else {
                let t = smul64(f, vdot(edge2, q));
                if !(ray_t.min <= t && t <= ray_t.max) {
                    None
                } else {
                    let w = ssub64(ssub64(FX_ONE, u), v);
                    let normal = match tr.normals {
                        Some(ns) => vnormalize(
                            vadd(vadd(vscale(ns.0, w), vscale(ns.1, u)), vscale(ns.2, v)),
                        ),
                        None => vnormalize(vcross(edge1, edge2)),
                    };
                    let uv = match tr.uvs {
                        Some(uvs) => (
                            sadd64(sadd64(smul64(uvs.0.0, w), smul64(uvs.1.0, u)), smul64(uvs.2.0,
                                v)),
                            sadd64(sadd64(smul64(uvs.0.1, w), smul64(uvs.1.1, u)), smul64(uvs.2.1,
                                v)),
                        ),
                        None => (u, v),
                    };
                    Some(snew_hit_info(ray, ray_at(ray, t), normal, t, tr.mat_id, mats, uv.0,
                        uv.1))
                }
            }
        }
    }
}

/// Half the parallelogram area spanned by the triangle's edges.
pub open spec fn stri_area(tr: Triangle) -> i64 {
    smul64(FX_HALF, vlength(vcross(vsub(tr.v1, tr.v0), vsub(tr.v2, tr.v0))))
}

/// Density of hitting this triangle from `origin` along `direction`.
pub open spec fn stri_pdf(tr: Triangle, mats: Seq<Material>, origin: Vec3, direction: Vec3,
    time: i64) -> i64 {
    let ray = Ray { origin, direction: vnormalize(direction), time };
    match stri_hit(tr, mats, ray, Interval { min: 0, max: FX_MAX }) {
        Some(hit) => {
            let cos_theta = sabs64(vdot(direction, hit.geometric_normal));
            sdiv64(smul64(hit.dist, hit.dist), smul64(cos_theta, stri_area(tr)))
        },
        None => 0,
    }
}

/// The triangle a constructor produces.
pub open spec fn stri_new(
    v0: Vec3,
    v1: Vec3,
    v2: Vec3,
    normals: Option<(Vec3, Vec3, Vec3)>,
    uvs: Option<((i64, i64), (i64, i64), (i64, i64))>,
    mat_id: usize,
) -> Triangle {
    Triangle {
        v0,
        v1,
        v2,
        normals,
        uvs,
        mat_id,
        bbox: aabb_new(vmin(vmin(v0, v1), v2), vmax(vmax(v0, v1), v2)),
    }
}

/// The `j`-th triangle of an indexed mesh, with vertices scaled uniformly.
pub open spec fn smesh_triangle(
    scale: i64,
    positions: Seq<Vec3>,
    normals: Seq<Vec3>,
    uvs: Seq<(i64, i64)>,
    indices: Seq<usize>,
    mat_id: usize,
    j: int,
) -> Triangle {
    let i0 = indices[3 * j] as int;
    let i1 = indices[3 * j + 1] as int;
    let i2 = indices[3 * j + 2] as int;
    let ns = if normals.len() == 0 {
        None
    } else {
        Some((normals[i0], normals[i1], normals[i2]))
    };
    let ts = if uvs.len() == 0 {
        None
    } else {
        Some((uvs[i0], uvs[i1], uvs[i2]))
    };
    stri_new(
        vscale(positions[i0], scale),
        vscale(positions[i1], scale),
        vscale(positions[i2], scale),
        ns,
        ts,
        mat_id,
    )
}

/// A batch of triangles built from indexed mesh arrays (as an OBJ file
/// provides them, already decoded into plain vectors).
pub struct TriangleMesh;

impl TriangleMesh {
    /// Build one triangle per index triple, scaling every vertex by `scale`.
    /// The optional normal and texture-coordinate arrays must either be
    /// absent or cover every referenced index.
    pub fn from_arrays(
        scale: i64,
        positions: &Vec<Vec3>,
        normals: &Vec<Vec3>,
        uvs: &Vec<(i64, i64)>,
        indices: &Vec<usize>,
        mat_id: usize,
    ) -> (r: Vec<Primitive>)
        requires
            indices@.len() % 3 == 0,
            forall|k: int|
                0 <= k < indices@.len() ==> (#[trigger] indices@[k]) < positions@.len(),
            normals@.len() == 0 || forall|k: int|
                0 <= k < indices@.len() ==> (#[trigger] indices@[k]) < normals@.len(),
            uvs@.len() == 0 || forall|k: int|
                0 <= k < indices@.len() ==> (#[trigger] indices@[k]) < uvs@.len(),
        ensures
            r@.len() == indices@.len() / 3,
            forall|j: int|
                0 <= j < r@.len() ==> (#[trigger] r@[j]) == Primitive::Triangle(
                    smesh_triangle(scale, positions@, normals@, uvs@, indices@, mat_id, j),
                ),
    {
        let n_tris = indices.len() / 3;
        let mut tris: Vec<Primitive> = Vec::new();
        let mut j: usize = 0;
        while j < n_tris
            invariant
                j <= n_tris,
                indices@.len() <= usize::MAX,
                n_tris == indices@.len() / 3,
                indices@.len() % 3 == 0,
                forall|k: int|
                    0 <= k < indices@.len() ==> (#[trigger] indices@[k]) < positions@.len(),
                normals@.len() == 0 || forall|k: int|
                    0 <= k < indices@.len() ==> (#[trigger] indices@[k]) < normals@.len(),
                uvs@.len() == 0 || forall|k: int|
                    0 <= k < indices@.len() ==> (#[trigger] indices@[k]) < uvs@.len(),
                tris@.len() == j,
                forall|i: int|
                    0 <= i < j ==> (#[trigger] tris@[i]) == Primitive::Triangle(
                        smesh_triangle(scale, positions@, normals@, uvs@, indices@, mat_id, i),
                    ),
            decreases n_tris - j,
        {
            proof {
                assert(3 * (j as int) + 2 < indices@.len()) by (nonlinear_arith)
                    requires
                        (j as int) < (n_tris as int),
                        (n_tris as int) == indices@.len() / 3,
                        indices@.len() % 3 == 0,
                ;
            }
            let i0 = indices[3 * j];
            let i1 = indices[3 * j + 1];
            let i2 = indices[3 * j + 2];
            let ns = if normals.len() == 0 {
                None
            } else {
                Some((normals[i0], normals[i1], normals[i2]))
            };
            let ts = if uvs.len() == 0 {
                None
            } else {
                Some((uvs[i0], uvs[i1], uvs[i2]))
            };
            let tri = Triangle::new(
                positions[i0].scale(scale),
                positions[i1].scale(scale),
                positions[i2].scale(scale),
                ns,
                ts,
                mat_id,
            );
            tris.push(Primitive::Triangle(tri));
            j = j + 1;
        }
        tris
    }
}

impl Triangle {
    pub fn new(
        v0: Vec3,
        v1: Vec3,
        v2: Vec3,
        normals: Option<(Vec3, Vec3, Vec3)>,
        uvs: Option<((i64, i64), (i64, i64), (i64, i64))>,
        mat_id: usize,
    ) -> (r: Triangle)
        ensures
            r == stri_new(v0, v1, v2, normals, uvs, mat_id),
    {
        let min_v = v0.min(&v1).min(&v2);
        let max_v = v0.max(&v1).max(&v2);
        let bbox = AABB::new(min_v, max_v);
        Triangle { v0, v1, v2, normals, uvs, mat_id, bbox }
    }

    pub fn area(&self) -> (r: i64)
        ensures
            r == stri_area(*self),
    {
        let edge1 = self.v1.sub(&self.v0);
        let edge2 = self.v2.sub(&self.v0);
        fmul(FX_HALF, edge1.cross(&edge2).length())
    }

    pub fn intersects(&self, mats: &Vec<Material>, ray: &Ray, ray_t: Interval) -> (r: Option<
        HitInfo>)
        ensures
            r == stri_hit(*self, mats@, *ray, ray_t),
    {
        let edge1 = self.v1.sub(&self.v0);
        let edge2 = self.v2.sub(&self.v0);
        let h = ray.direction.cross(&edge2);
        let a = edge1.dot(&h);
        if a == 0 {
            return None;
        }
        let f = fdiv(FX_ONE, a);
        let s = ray.origin.sub(&self.v0);
        let u = fmul(f, s.dot(&h));
        if !(0 <= u && u <= FX_ONE) {
            return None;
        }
        let q = s.cross(&edge1);
        let v = fmul(f, ray.direction.dot(&q));
        if v < 0 || fadd(u, v) > FX_ONE {
            return None;
        }
        let t = fmul(f, edge2.dot(&q));
        if !ray_t.contains(t) {
            return None;
        }
        let w = fsub(fsub(FX_ONE, u), v);
        let normal = match &self.normals {
            Some(ns) => ns.0.scale(w).add(&ns.1.scale(u)).add(&ns.2.scale(v)).normalize(),
            None => edge1.cross(&edge2).normalize(),
        };
        let (uu, vv) = match &self.uvs {
            Some(uvs) => (
                fadd(fadd(fmul(uvs.0.0, w), fmul(uvs.1.0, u)), fmul(uvs.2.0, v)),
                fadd(fadd(fmul(uvs.0.1, w), fmul(uvs.1.1, u)), fmul(uvs.2.1, v)),
            ),
            None => (u, v),
        };
        Some(HitInfo::new(ray, ray.at(t), normal, t, self.mat_id, mats, uu, vv))
    }

    /// A direction from `origin` toward a sampled surface point.
    pub fn sample(&self, origin: &Vec3, rng: &mut Rng) -> (r: Option<Vec3>)
        ensures
            r is Some,
    {
        let u = rng.next_unit();
        let v = rng.next_unit();
        let w = fsub(fsub(FX_ONE, u), v);
        let point = self.v0.scale(w).add(&self.v1.scale(u)).add(&self.v2.scale(v));
        let dir = point.sub(origin).normalize();
        Some(dir)
    }

    pub fn pdf(&self, mats: &Vec<Material>, origin: &Vec3, direction: &Vec3, time: i64) -> (r:
        i64)
        ensures
            r == stri_pdf(*self, mats@, *origin, *direction, time),
    {
        let ray = Ray::new(*origin, *direction, time);
        match self.intersects(mats, &ray, Interval::new(0, FX_MAX)) {
            Some(hit) => {
                let area = self.area();
                let cos_theta = fabs(direction.dot(&hit.geometric_normal));
                fdiv(fmul(hit.dist, hit.dist), fmul(cos_theta, area))
            },
            None => 0,
        }
    }
}

} // verus!
