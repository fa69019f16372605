//! An axis-aligned box built from six quads.

use vstd::prelude::*;

use crate::hittable::quad::{squad_new, Quad};
use crate::hittable::Primitive;
use crate::vec3::{v3, vmax, vmin, Vec3};

verus! {

/// The six faces of the cuboid with opposite corners `a` and `b`, in the
/// order front, right, back, left, top, bottom.
pub open spec fn scuboid_faces(a: Vec3, b: Vec3, mat_id: usize) -> Seq<Quad> {
    let min = vmin(a, b);
    let max = vmax(a, b);
    let dx = v3(crate::fx::ssub64(max.x, min.x), 0, 0);
    let dy = v3(0, crate::fx::ssub64(max.y, min.y), 0);
    let dz = v3(0, 0, crate::fx::ssub64(max.z, min.z));
    let ndx = v3(crate::fx::sneg64(dx.x), 0, 0);
    let ndz = v3(0, 0, crate::fx::sneg64(dz.z));
    seq![
        squad_new(v3(min.x, min.y, max.z), dx, dy, mat_id),
        squad_new(v3(max.x, min.y, max.z), ndz, dy, mat_id),
        squad_new(v3(max.x, min.y, min.z), ndx, dy, mat_id),
        squad_new(v3(min.x, min.y, min.z), dz, dy, mat_id),
        squad_new(v3(min.x, max.y, max.z), dx, ndz, mat_id),
        squad_new(v3(min.x, min.y, min.z), dx, dz, mat_id),
    ]
}

pub struct Cuboid;

impl Cuboid {
    /// The six face quads, ready to be added to a scene or instanced.
    pub fn new(a: Vec3, b: Vec3, mat_id: usize) -> (r: Vec<Primitive>)
        ensures
            r@.len() == 6,
            forall|i: int|
                0 <= i < 6 ==> (#[trigger] r@[i]) == Primitive::Quad(scuboid_faces(a, b, mat_id)[
                i]),
    {
        let min = a.min(&b);
        let max = a.max(&b);
        let dx = Vec3::new(crate::fx::fsub(max.x, min.x), 0, 0);
        let dy = Vec3::new(0, crate::fx::fsub(max.y, min.y), 0);
        let dz = Vec3::new(0, 0, crate::fx::fsub(max.z, min.z));
        let ndx = Vec3::new(crate::fx::fneg(dx.x), 0, 0);
        let ndz = Vec3::new(0, 0, crate::fx::fneg(dz.z));
        let mut sides: Vec<Primitive> = Vec::new();
        sides.push(Primitive::Quad(Quad::new(Vec3::new(min.x, min.y, max.z), dx, dy, mat_id)));
        sides.push(Primitive::Quad(Quad::new(Vec3::new(max.x, min.y, max.z), ndz, dy, mat_id)));
        sides.push(Primitive::Quad(Quad::new(Vec3::new(max.x, min.y, min.z), ndx, dy, mat_id)));
        sides.push(Primitive::Quad(Quad::new(Vec3::new(min.x, min.y, min.z), dz, dy, mat_id)));
        sides.push(Primitive::Quad(Quad::new(Vec3::new(min.x, max.y, max.z), dx, ndz, mat_id)));
        sides.push(Primitive::Quad(Quad::new(Vec3::new(min.x, min.y, min.z), dx, dz, mat_id)));
        sides
    }
}

} // verus!
