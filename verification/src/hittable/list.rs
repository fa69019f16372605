//! A flat aggregate of primitives with an optional acceleration hierarchy.

use vstd::prelude::*;

use crate::aabb::{aabb_empty, aabb_union, AABB};
use crate::bsdf::Material;
use crate::fx::{fadd, fdiv, sadd64, sdiv64};
use crate::hittable::bvh::{count_fx, sbvh_hit, sbvh_wf, scombine, sclosest, scount_fx, sflatten,
    sidentity, BVHNode, BVH};
use crate::hittable::hit_info::HitInfo;
use crate::hittable::{sprim_bbox, sprim_pdf, Primitive};
use crate::interval::Interval;
use crate::ray::Ray;
use crate::rng::Rng;
use crate::vec3::Vec3;

verus! {

pub struct HittableList {
    pub objects: Vec<Primitive>,
    pub bbox: AABB,
    pub bvh: Option<BVHNode>,
}

/// The hierarchy, when built, is structurally sound for the current
/// primitive list: every index it stores is in range and every box contains
/// its subtree's primitives. Primitives appended after a build are simply
/// not covered by it, as in any cached acceleration structure.
pub open spec fn slist_wf(l: HittableList) -> bool {
    match l.bvh {
        Some(n) => sbvh_wf(n, l.objects@),
        None => true,
    }
}

/// What an intersection query on the list returns: the hierarchy's answer
/// when one was built, otherwise the linear scan's.
pub open spec fn slist_hit(l: HittableList, mats: Seq<Material>, ray: Ray, ray_t: Interval)
    -> Option<HitInfo> {
    match l.bvh {
        Some(n) => sbvh_hit(n, l.objects@, mats, ray, ray_t),
        None => sclosest(sidentity(l.objects@.len()), l.objects@, mats, ray, ray_t.min,
            ray_t.max),
    }
}

/// The accumulated sum of the per-primitive densities, in scan order.
pub open spec fn ssum_pdf(
    prims: Seq<Primitive>,
    mats: Seq<Material>,
    origin: Vec3,
    direction: Vec3,
    time: i64,
    acc: i64,
) -> i64
    decreases prims.len(),
{
    if prims.len() == 0 {
        acc
    } else {
        ssum_pdf(
            prims.drop_first(),
            mats,
            origin,
            direction,
            time,
            sadd64(acc, sprim_pdf(prims[0], mats, origin, direction, time)),
        )
    }
}

/// The list's light-sampling density: the average of its members'.
pub open spec fn slist_pdf(l: HittableList, mats: Seq<Material>, origin: Vec3, direction: Vec3,
    time: i64) -> i64 {
    sdiv64(
        ssum_pdf(l.objects@, mats, origin, direction, time, 0),
        scount_fx(l.objects@.len() as int),
    )
}

/// A hierarchy stays well formed when the primitive list grows, since it
/// only ever references the indices it was built over.
proof fn lemma_bvh_wf_extend(n: BVHNode, prims1: Seq<Primitive>, prims2: Seq<Primitive>)
    requires
        sbvh_wf(n, prims1),
        prims1.len() <= prims2.len(),
        forall|i: int| 0 <= i < prims1.len() ==> prims2[i] == prims1[i],
    ensures
        sbvh_wf(n, prims2),
    decreases n,
{
    match n {
        BVHNode::Leaf { .. } => {},
        BVHNode::Internal { left, right, .. } => {
            lemma_bvh_wf_extend(*left, prims1, prims2);
            lemma_bvh_wf_extend(*right, prims1, prims2);
        },
    }
}

/// Linear scan over the whole primitive list.
#[verifier::rlimit(100)]
pub fn closest_hit_scan_all(
    prims: &Vec<Primitive>,
    mats: &Vec<Material>,
    ray: &Ray,
    lo: i64,
    hi: i64,
) -> (r: Option<HitInfo>)
    ensures
        r == sclosest(sidentity(prims@.len()), prims@, mats@, *ray, lo, hi),
{
    let ghost hi0 = hi;
    let ghost all = sidentity(prims@.len());
    let mut hit_info: Option<HitInfo> = None;
    let mut closest: i64 = hi;
    let mut i: usize = 0;
    proof {
        assert(all.skip(0) =~= all);
    }
    while i < prims.len()
        invariant
            i <= prims@.len(),
            all == sidentity(prims@.len()),
            closest == (match hit_info {
                None => hi0,
                Some(h) => h.dist,
            }),
            scombine(all.skip(i as int), hit_info, prims@, mats@, *ray, lo, hi0) == sclosest(
                all,
                prims@,
                mats@,
                *ray,
                lo,
                hi0,
            ),
        decreases prims@.len() - i,
    {
        let ghost rest = all.skip(i as int);
        proof {
            assert(rest[0] == all[i as int]);
            assert(all[i as int] == i as usize);
            assert(rest.drop_first() =~= all.skip(i as int + 1));
        }
        let cur = prims[i].intersects(mats, ray, Interval::new(lo, closest));
        match cur {
            Some(info) => {
                closest = info.dist;
                hit_info = Some(info);
            },
            None => {},
        }
        i = i + 1;
    }
    proof {
        assert(all.skip(prims@.len() as int) =~= Seq::<usize>::empty());
    }
    hit_info
}

impl HittableList {
    pub fn new() -> (r: HittableList)
        ensures
            r.objects@.len() == 0,
            r.bbox == aabb_empty(),
            r.bvh is None,
            slist_wf(r),
    {
        HittableList { objects: Vec::new(), bbox: AABB::empty_box(), bvh: None }
    }

    /// Append a primitive, growing the cached bound; an already-built
    /// hierarchy stays valid for the primitives it covers.
    pub fn add(&mut self, object: Primitive)
        requires
            slist_wf(*old(self)),
        ensures
            final(self).objects@ == old(self).objects@.push(object),
            final(self).bbox == aabb_union(old(self).bbox, sprim_bbox(object)),
            final(self).bvh == old(self).bvh,
            slist_wf(*final(self)),
    {
        let ghost before = self.objects@;
        self.bbox = self.bbox.union(object.bounding_box());
        self.objects.push(object);
        proof {
            match &self.bvh {
                Some(n) => {
                    lemma_bvh_wf_extend(*n, before, self.objects@);
                },
                None => {},
            }
        }
    }

    /// Build the hierarchy over the current primitives; an empty list gets
    /// none.
    pub fn build_bvh(&mut self)
        ensures
            final(self).objects == old(self).objects,
            final(self).bbox == old(self).bbox,
            slist_wf(*final(self)),
            old(self).objects@.len() > 0 ==> final(self).bvh is Some,
            match final(self).bvh {
                Some(n) => sflatten(n).to_multiset() == sidentity(
                    old(self).objects@.len(),
                ).to_multiset(),
                None => old(self).objects@.len() == 0,
            },
    {
        if self.objects.len() > 0 {
            self.bvh = Some(BVH::build(&self.objects));
        } else {
            self.bvh = None;
        }
    }

    pub fn len(&self) -> (r: usize)
        ensures
            r == self.objects@.len(),
    {
        self.objects.len()
    }

    pub fn is_empty(&self) -> (r: bool)
        ensures
            r == (self.objects@.len() == 0),
    {
        self.objects.len() == 0
    }

    pub fn bounding_box(&self) -> (r: AABB)
        ensures
            r == self.bbox,
    {
        self.bbox
    }

    /// The closest hit inside `ray_t`, through the hierarchy when built.
    pub fn intersects(&self, mats: &Vec<Material>, ray: &Ray, ray_t: Interval) -> (r: Option<
        HitInfo>)
        requires
            slist_wf(*self),
        ensures
            r == slist_hit(*self, mats@, *ray, ray_t),
    {
        match &self.bvh {
            Some(n) => n.intersects(&self.objects, mats, ray, ray_t),
            None => closest_hit_scan_all(&self.objects, mats, ray, ray_t.min, ray_t.max),
        }
    }

    /// A direction toward the surface of a uniformly chosen member.
    pub fn sample(&self, origin: &Vec3, time: i64, rng: &mut Rng) -> (r: Option<Vec3>)
        ensures
            self.objects@.len() > 0 ==> r is Some,
            self.objects@.len() == 0 ==> r is None,
    {
        if self.objects.len() == 0 {
            return None;
        }
        let i = rng.next_below(self.objects.len());
        self.objects[i].sample(origin, time, rng)
    }

    /// The average of the members' densities for the given direction.
    pub fn pdf(&self, mats: &Vec<Material>, origin: &Vec3, direction: &Vec3, time: i64) -> (r:
        i64)
        ensures
            r == slist_pdf(*self, mats@, *origin, *direction, time),
    {
        let mut sum: i64 = 0;
        let mut i: usize = 0;
        proof {
            assert(self.objects@.skip(0) =~= self.objects@);
        }
        while i < self.objects.len()
            invariant
                i <= self.objects@.len(),
                ssum_pdf(self.objects@.skip(i as int), mats@, *origin, *direction, time, sum)
                    == ssum_pdf(self.objects@, mats@, *origin, *direction, time, 0),
            decreases self.objects@.len() - i,
        {
            let ghost rest = self.objects@.skip(i as int);
            proof {
                assert(rest[0] == self.objects@[i as int]);
                assert(rest.drop_first() =~= self.objects@.skip(i as int + 1));
            }
            sum = fadd(sum, self.objects[i].pdf(mats, origin, direction, time));
            i = i + 1;
        }
        proof {
            assert(self.objects@.skip(self.objects@.len() as int) =~= Seq::<Primitive>::empty());
        }
        fdiv(sum, count_fx(self.objects.len()))
    }
}

} // verus!
