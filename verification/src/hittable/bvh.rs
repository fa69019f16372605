//! Bounding volume hierarchy: recursive build with a surface-area-heuristic
//! split, and traversal that prunes subtrees whose box is missed or lies
//! beyond the closest hit found so far (the interval shrinks as closer hits
//! are discovered, which is the main pruning lever).
//!
//! The tree stores indices into the primitive list it was built over, so the
//! list stays available for light sampling.

use vstd::prelude::*;

use vstd::seq_lib::lemma_multiset_commutative;

use crate::aabb::{aabb_contains_box, aabb_empty, aabb_hit, aabb_union, lemma_contains_trans,
    lemma_union_contains, AABB};
use crate::bsdf::Material;
use crate::fx::{clip, FX_HALF, FX_MAX, FX_ONE};
use crate::hittable::hit_info::HitInfo;
use crate::hittable::{sprim_bbox, sprim_hit, Primitive};
use crate::interval::Interval;
use crate::ray::Ray;
use crate::vec3::{vadd, vaxis, vscale};

verus! {

/// Leaves hold at most this many primitives.
pub const MAX_HITTABLES_PER_LEAF: usize = 4;

pub enum BVHNode {
    Leaf { bbox: AABB, idxs: Vec<usize> },
    Internal { bbox: AABB, left: Box<BVHNode>, right: Box<BVHNode> },
}

/// Builder namespace for the hierarchy.
pub struct BVH;

pub open spec fn sbvh_bbox(n: BVHNode) -> AABB {
    match n {
        BVHNode::Leaf { bbox, .. } => bbox,
        BVHNode::Internal { bbox, .. } => bbox,
    }
}

/// The primitive indices stored under a node, left to right.
pub open spec fn sflatten(n: BVHNode) -> Seq<usize>
    decreases n,
{
    match n {
        BVHNode::Leaf { idxs, .. } => idxs@,
        BVHNode::Internal { left, right, .. } => sflatten(*left) + sflatten(*right),
    }
}

/// Structural well-formedness: every leaf's box contains the boxes of all of
/// its primitives (whose indices are in range), and every internal node's
/// box is exactly the union of its children's boxes.
pub open spec fn sbvh_wf(n: BVHNode, prims: Seq<Primitive>) -> bool
    decreases n,
{
    match n {
        BVHNode::Leaf { bbox, idxs } => forall|k: int|
            0 <= k < idxs@.len() ==> (#[trigger] idxs@[k]) < prims.len() && aabb_contains_box(
                bbox,
                sprim_bbox(prims[idxs@[k] as int]),
            ),
        BVHNode::Internal { bbox, left, right } => bbox == aabb_union(
            sbvh_bbox(*left),
            sbvh_bbox(*right),
        ) && sbvh_wf(*left, prims) && sbvh_wf(*right, prims),
    }
}

/// The closest hit of a left-to-right scan over primitive indices: the valid
/// interval shrinks to each accepted hit's distance, so later primitives
/// must be strictly closer (up to each primitive's own boundary test).
pub open spec fn sclosest(
    idxs: Seq<usize>,
    prims: Seq<Primitive>,
    mats: Seq<Material>,
    ray: Ray,
    lo: i64,
    hi: i64,
) -> Option<HitInfo>
    decreases idxs.len(),
{
    if idxs.len() == 0 {
        None
    } else {
        match sprim_hit(prims[idxs[0] as int], mats, ray, Interval { min: lo, max: hi }) {
            None => sclosest(idxs.drop_first(), prims, mats, ray, lo, hi),
            Some(h) => match sclosest(idxs.drop_first(), prims, mats, ray, lo, h.dist) {
                Some(h2) => Some(h2),
                None => Some(h),
            },
        }
    }
}

/// The hit the traversal reports: prune on the node's box, scan leaves, and
/// for internal nodes narrow the right child's interval by the left child's
/// result before combining.
pub open spec fn sbvh_hit(
    n: BVHNode,
    prims: Seq<Primitive>,
    mats: Seq<Material>,
    ray: Ray,
    ray_t: Interval,
) -> Option<HitInfo>
    decreases n,
{
    if aabb_hit(sbvh_bbox(n), ray, ray_t) is None {
        None
    } else {
        match n {
            BVHNode::Leaf { idxs, .. } => sclosest(idxs@, prims, mats, ray, ray_t.min, ray_t.max),
            BVHNode::Internal { left, right, .. } => {
                let lh = if aabb_hit(sbvh_bbox(*left), ray, ray_t) is Some {
                    sbvh_hit(*left, prims, mats, ray, ray_t)
                } else {
                    None
                };
                let itv2 = match lh {
                    Some(h) => Interval { min: ray_t.min, max: h.dist },
                    None => ray_t,
                };
                let rh = if aabb_hit(sbvh_bbox(*right), ray, itv2) is Some {
                    sbvh_hit(*right, prims, mats, ray, itv2)
                } else {
                    None
                };
                match rh {
                    Some(h2) => Some(h2),
                    None => lh,
                }
            },
        }
    }
}

/// A missed box test is trusted to mean no primitive under the node hits:
/// with exact arithmetic this follows from the containment invariant, and
/// with fixed-point rounding it is the stated pruning assumption.
pub open spec fn sprune_safe(
    n: BVHNode,
    prims: Seq<Primitive>,
    mats: Seq<Material>,
    ray: Ray,
) -> bool
    decreases n,
{
    (forall|itv: Interval|
        aabb_hit(sbvh_bbox(n), ray, itv) is None ==> sclosest(
            sflatten(n),
            prims,
            mats,
            ray,
            itv.min,
            itv.max,
        ) is None) && match n {
        BVHNode::Leaf { .. } => true,
        BVHNode::Internal { left, right, .. } => sprune_safe(*left, prims, mats, ray)
            && sprune_safe(*right, prims, mats, ray),
    }
}

/// Scanning a concatenation is scanning the first part and then the second
/// with the interval narrowed by the first part's result.
pub proof fn lemma_sclosest_concat(
    a: Seq<usize>,
    b: Seq<usize>,
    prims: Seq<Primitive>,
    mats: Seq<Material>,
    ray: Ray,
    lo: i64,
    hi: i64,
)
    ensures
        sclosest(a + b, prims, mats, ray, lo, hi) == (match sclosest(a, prims, mats, ray, lo,
            hi) {
            None => sclosest(b, prims, mats, ray, lo, hi),
            Some(h) => match sclosest(b, prims, mats, ray, lo, h.dist) {
                Some(h2) => Some(h2),
                None => Some(h),
            },
        }),
    decreases a.len(),
{
    if a.len() == 0 {
        assert(a + b =~= b);
    } else {
        assert((a + b).drop_first() =~= a.drop_first() + b);
        assert((a + b)[0] == a[0]);
        match sprim_hit(prims[a[0] as int], mats, ray, Interval { min: lo, max: hi }) {
            None => {
                lemma_sclosest_concat(a.drop_first(), b, prims, mats, ray, lo, hi);
            },
            Some(h) => {
                lemma_sclosest_concat(a.drop_first(), b, prims, mats, ray, lo, h.dist);
            },
        }
    }
}

/// Traversal correctness: under the structural invariant and the pruning
/// assumption, the hierarchy returns exactly what a linear scan over its
/// primitives (in tree order) returns.
#[verifier::rlimit(100)]
pub proof fn theorem_bvh_matches_scan(
    n: BVHNode,
    prims: Seq<Primitive>,
    mats: Seq<Material>,
    ray: Ray,
    ray_t: Interval,
)
    requires
        sbvh_wf(n, prims),
        sprune_safe(n, prims, mats, ray),
    ensures
        sbvh_hit(n, prims, mats, ray, ray_t) == sclosest(
            sflatten(n),
            prims,
            mats,
            ray,
            ray_t.min,
            ray_t.max,
        ),
    decreases n,
{
    if aabb_hit(sbvh_bbox(n), ray, ray_t) is None {
        assert(sclosest(sflatten(n), prims, mats, ray, ray_t.min, ray_t.max) is None);
    } else {
        match n {
            BVHNode::Leaf { .. } => {},
            BVHNode::Internal { left, right, .. } => {
                let fl = sflatten(*left);
                let fr = sflatten(*right);
                assert(sprune_safe(*left, prims, mats, ray));
                assert(sprune_safe(*right, prims, mats, ray));
                let lh = if aabb_hit(sbvh_bbox(*left), ray, ray_t) is Some {
                    sbvh_hit(*left, prims, mats, ray, ray_t)
                } else {
                    None
                };
                if aabb_hit(sbvh_bbox(*left), ray, ray_t) is Some {
                    theorem_bvh_matches_scan(*left, prims, mats, ray, ray_t);
                } else {
                    assert(sclosest(fl, prims, mats, ray, ray_t.min, ray_t.max) is None);
                }
                assert(lh == sclosest(fl, prims, mats, ray, ray_t.min, ray_t.max));
                let itv2 = match lh {
                    Some(h) => Interval { min: ray_t.min, max: h.dist },
                    None => ray_t,
                };
                let rh = if aabb_hit(sbvh_bbox(*right), ray, itv2) is Some {
                    sbvh_hit(*right, prims, mats, ray, itv2)
                } else {
                    None
                };
                if aabb_hit(sbvh_bbox(*right), ray, itv2) is Some {
                    theorem_bvh_matches_scan(*right, prims, mats, ray, itv2);
                } else {
                    assert(sclosest(fr, prims, mats, ray, itv2.min, itv2.max) is None);
                }
                assert(rh == sclosest(fr, prims, mats, ray, itv2.min, itv2.max));
                lemma_sclosest_concat(fl, fr, prims, mats, ray, ray_t.min, ray_t.max);
                assert(sflatten(n) == fl + fr);
            },
        }
    }
}

/// Every primitive's cached box has ordered corners (as every constructor
/// in this crate guarantees).
pub open spec fn sprims_ordered(prims: Seq<Primitive>) -> bool {
    forall|i: int|
        0 <= i < prims.len() ==> crate::aabb::aabb_ordered(sprim_bbox(#[trigger] prims[i]))
}

/// Each primitive's box test is conservative for this ray: whenever the
/// primitive reports a hit in an interval, its own box reports one too.
/// With exact arithmetic this holds of every primitive; fixed-point
/// rounding at an extreme grazing configuration is the only way out.
pub open spec fn sprims_conservative(prims: Seq<Primitive>, mats: Seq<Material>, ray: Ray)
    -> bool {
    forall|i: int, itv: Interval|
        0 <= i < prims.len() && (#[trigger] sprim_hit(prims[i], mats, ray, itv)) is Some
            ==> aabb_hit(sprim_bbox(prims[i]), ray, itv) is Some
}

/// A scan over primitives that all miss reports no hit.
proof fn lemma_scan_all_miss(
    idxs: Seq<usize>,
    prims: Seq<Primitive>,
    mats: Seq<Material>,
    ray: Ray,
    lo: i64,
    hi: i64,
)
    requires
        forall|k: int|
            0 <= k < idxs.len() ==> sprim_hit(
                prims[#[trigger] idxs[k] as int],
                mats,
                ray,
                Interval { min: lo, max: hi },
            ) is None,
    ensures
        sclosest(idxs, prims, mats, ray, lo, hi) is None,
    decreases idxs.len(),
{
    if idxs.len() > 0 {
        lemma_scan_all_miss(idxs.drop_first(), prims, mats, ray, lo, hi);
    }
}

/// In a well-formed tree, a node's box contains the box of every primitive
/// below it.
proof fn lemma_wf_contains(n: BVHNode, prims: Seq<Primitive>)
    requires
        sbvh_wf(n, prims),
    ensures
        forall|k: int|
            0 <= k < sflatten(n).len() ==> (#[trigger] sflatten(n)[k]) < prims.len()
                && aabb_contains_box(sbvh_bbox(n), sprim_bbox(prims[sflatten(n)[k] as int])),
    decreases n,
{
    match n {
        BVHNode::Leaf { .. } => {},
        BVHNode::Internal { bbox, left, right } => {
            lemma_wf_contains(*left, prims);
            lemma_wf_contains(*right, prims);
            let fl = sflatten(*left);
            let fr = sflatten(*right);
            crate::aabb::lemma_union_contains(sbvh_bbox(*left), sbvh_bbox(*right));
            assert forall|k: int| 0 <= k < sflatten(n).len() implies (#[trigger] sflatten(n)[k])
                < prims.len() && aabb_contains_box(
                sbvh_bbox(n),
                sprim_bbox(prims[sflatten(n)[k] as int]),
            ) by {
                if k < fl.len() {
                    assert(sflatten(n)[k] == fl[k]);
                    crate::aabb::lemma_contains_trans(
                        sbvh_bbox(n),
                        sbvh_bbox(*left),
                        sprim_bbox(prims[fl[k] as int]),
                    );
                } else {
                    assert(sflatten(n)[k] == fr[k - fl.len()]);
                    crate::aabb::lemma_contains_trans(
                        sbvh_bbox(n),
                        sbvh_bbox(*right),
                        sprim_bbox(prims[fr[k - fl.len()] as int]),
                    );
                }
            }
        },
    }
}

/// The pruning assumption follows from per-primitive conservativeness: in a
/// well-formed tree with ordered primitive boxes, a node box that the slab
/// test misses cannot hide any primitive hit, because a hit primitive's own
/// box would pass the test and so would every containing box.
pub proof fn lemma_prune_safe_from_conservative(
    n: BVHNode,
    prims: Seq<Primitive>,
    mats: Seq<Material>,
    ray: Ray,
)
    requires
        sbvh_wf(n, prims),
        sprims_ordered(prims),
        sprims_conservative(prims, mats, ray),
    ensures
        sprune_safe(n, prims, mats, ray),
    decreases n,
{
    match n {
        BVHNode::Leaf { .. } => {},
        BVHNode::Internal { left, right, .. } => {
            lemma_prune_safe_from_conservative(*left, prims, mats, ray);
            lemma_prune_safe_from_conservative(*right, prims, mats, ray);
        },
    }
    lemma_wf_contains(n, prims);
    assert forall|itv: Interval| aabb_hit(sbvh_bbox(n), ray, itv) is None implies sclosest(
        sflatten(n),
        prims,
        mats,
        ray,
        itv.min,
        itv.max,
    ) is None by {
        let fl = sflatten(n);
        assert forall|k: int| 0 <= k < fl.len() implies sprim_hit(
            prims[#[trigger] fl[k] as int],
            mats,
            ray,
            Interval { min: itv.min, max: itv.max },
        ) is None by {
            let p = prims[fl[k] as int];
            if sprim_hit(p, mats, ray, Interval { min: itv.min, max: itv.max }) is Some {
                assert(aabb_hit(sprim_bbox(p), ray, Interval { min: itv.min, max: itv.max })
                    is Some);
                crate::aabb::lemma_slab_monotone_in_box(
                    sbvh_bbox(n),
                    sprim_bbox(p),
                    ray,
                    Interval { min: itv.min, max: itv.max },
                );
                assert(itv == (Interval { min: itv.min, max: itv.max }));
            }
        }
        lemma_scan_all_miss(fl, prims, mats, ray, itv.min, itv.max);
    }
}

/// The headline traversal theorem: in a well-formed hierarchy whose
/// primitives have ordered, conservative boxes for this ray, traversal
/// returns exactly the closest hit that a linear scan over its primitives
/// (in tree order) returns, for every query interval.
pub proof fn theorem_bvh_correct(
    n: BVHNode,
    prims: Seq<Primitive>,
    mats: Seq<Material>,
    ray: Ray,
    ray_t: Interval,
)
    requires
        sbvh_wf(n, prims),
        sprims_ordered(prims),
        sprims_conservative(prims, mats, ray),
    ensures
        sbvh_hit(n, prims, mats, ray, ray_t) == sclosest(
            sflatten(n),
            prims,
            mats,
            ray,
            ray_t.min,
            ray_t.max,
        ),
{
    lemma_prune_safe_from_conservative(n, prims, mats, ray);
    theorem_bvh_matches_scan(n, prims, mats, ray, ray_t);
}

/// Helper view of a hit scan in progress: the whole scan equals the best
/// found so far combined with the scan of the remainder.
pub open spec fn scombine(
    rest: Seq<usize>,
    acc: Option<HitInfo>,
    prims: Seq<Primitive>,
    mats: Seq<Material>,
    ray: Ray,
    lo: i64,
    hi0: i64,
) -> Option<HitInfo> {
    match acc {
        None => sclosest(rest, prims, mats, ray, lo, hi0),
        Some(h) => match sclosest(rest, prims, mats, ray, lo, h.dist) {
            Some(h2) => Some(h2),
            None => Some(h),
        },
    }
}

/// Linear scan over primitive indices, keeping the closest hit and narrowing
/// the interval after each accepted hit.
#[verifier::rlimit(100)]
pub fn closest_hit_scan(
    idxs: &Vec<usize>,
    prims: &Vec<Primitive>,
    mats: &Vec<Material>,
    ray: &Ray,
    lo: i64,
    hi: i64,
) -> (r: Option<HitInfo>)
    requires
        forall|k: int| 0 <= k < idxs@.len() ==> (#[trigger] idxs@[k]) < prims@.len(),
    ensures
        r == sclosest(idxs@, prims@, mats@, *ray, lo, hi),
{
    let ghost hi0 = hi;
    let mut hit_info: Option<HitInfo> = None;
    let mut closest: i64 = hi;
    let mut i: usize = 0;
    proof {
        assert(idxs@.skip(0) =~= idxs@);
    }
    while i < idxs.len()
        invariant
            i <= idxs@.len(),
            forall|k: int| 0 <= k < idxs@.len() ==> (#[trigger] idxs@[k]) < prims@.len(),
            closest == (match hit_info {
                None => hi0,
                Some(h) => h.dist,
            }),
            scombine(idxs@.skip(i as int), hit_info, prims@, mats@, *ray, lo, hi0) == sclosest(
                idxs@,
                prims@,
                mats@,
                *ray,
                lo,
                hi0,
            ),
        decreases idxs@.len() - i,
    {
        let ghost rest = idxs@.skip(i as int);
        proof {
            assert(rest[0] == idxs@[i as int]);
            assert(rest.drop_first() =~= idxs@.skip(i as int + 1));
        }
        let idx = idxs[i];
        let cur = prims[idx].intersects(mats, ray, Interval::new(lo, closest));
        match cur {
            Some(info) => {
                closest = info.dist;
                hit_info = Some(info);
            },
            None => {},
        }
        i = i + 1;
    }
    proof {
        assert(idxs@.skip(idxs@.len() as int) =~= Seq::<usize>::empty());
    }
    hit_info
}

impl BVHNode {
    pub fn bounding_box(&self) -> (r: AABB)
        ensures
            r == sbvh_bbox(*self),
    {
        match self {
            BVHNode::Leaf { bbox, .. } => *bbox,
            BVHNode::Internal { bbox, .. } => *bbox,
        }
    }

    /// Traverse the hierarchy for the closest hit inside `ray_t`.
    pub fn intersects(
        &self,
        prims: &Vec<Primitive>,
        mats: &Vec<Material>,
        ray: &Ray,
        ray_t: Interval,
    ) -> (r: Option<HitInfo>)
        requires
            sbvh_wf(*self, prims@),
        ensures
            r == sbvh_hit(*self, prims@, mats@, *ray, ray_t),
        decreases *self,
    {
        let bb = self.bounding_box();
        if bb.intersects(ray, ray_t).is_none() {
            return None;
        }
        match self {
            BVHNode::Leaf { idxs, .. } => closest_hit_scan(idxs, prims, mats, ray, ray_t.min,
                ray_t.max),
            BVHNode::Internal { left, right, .. } => {
                let lh = if left.bounding_box().intersects(ray, ray_t).is_some() {
                    left.intersects(prims, mats, ray, ray_t)
                } else {
                    None
                };
                let itv2 = match &lh {
                    Some(h) => Interval::new(ray_t.min, h.dist),
                    None => ray_t,
                };
                let rh = if right.bounding_box().intersects(ray, itv2).is_some() {
                    right.intersects(prims, mats, ray, itv2)
                } else {
                    None
                };
                match rh {
                    Some(h2) => Some(h2),
                    None => lh,
                }
            },
        }
    }
}

/// The sequence of all indices below `n`, in order.
pub open spec fn sidentity(n: nat) -> Seq<usize> {
    Seq::new(n, |i: int| i as usize)
}

/// The centroid component of a primitive's box along an axis.
pub open spec fn scentroid_ax(p: Primitive, axis: usize) -> i64 {
    vaxis(vscale(vadd(sprim_bbox(p).min, sprim_bbox(p).max), FX_HALF), axis)
}

/// One candidate split position: the centroid component of the `k`-th
/// primitive along the axis.
pub open spec fn scand(idxs: Seq<usize>, prims: Seq<Primitive>, axis: usize, k: int) -> i64 {
    scentroid_ax(prims[idxs[k] as int], axis)
}

/// The union of the primitives' boxes, folded left to right from `acc`.
pub open spec fn sbox_fold(idxs: Seq<usize>, prims: Seq<Primitive>, acc: AABB) -> AABB
    decreases idxs.len(),
{
    if idxs.len() == 0 {
        acc
    } else {
        sbox_fold(idxs.drop_first(), prims, aabb_union(acc, sprim_bbox(prims[idxs[0] as int])))
    }
}

/// The box over all the primitives a split is searched in.
pub open spec fn sparent_box(idxs: Seq<usize>, prims: Seq<Primitive>) -> AABB {
    sbox_fold(idxs, prims, aabb_empty())
}

/// Every SAH cost is at most the saturation bound: the cost branch returns a
/// clipped sum and every other branch returns the bound itself.
proof fn lemma_ssah_cost_bounded(
    idxs: Seq<usize>,
    prims: Seq<Primitive>,
    axis: usize,
    split: i64,
    parent: AABB,
)
    ensures
        ssah_cost(idxs, prims, axis, split, parent) <= FX_MAX,
{
}

/// The accumulator pass of the SAH cost evaluation: box and count of each
/// side of the candidate plane.
pub open spec fn ssah_acc(
    idxs: Seq<usize>,
    prims: Seq<Primitive>,
    axis: usize,
    split: i64,
    lb: AABB,
    lc: int,
    rb: AABB,
    rc: int,
) -> (AABB, int, AABB, int)
    decreases idxs.len(),
{
    if idxs.len() == 0 {
        (lb, lc, rb, rc)
    } else {
        let b = sprim_bbox(prims[idxs[0] as int]);
        let c = vaxis(vscale(vadd(b.min, b.max), FX_HALF), axis);
        if c < split {
            ssah_acc(idxs.drop_first(), prims, axis, split, aabb_union(lb, b), lc + 1, rb, rc)
        } else {
            ssah_acc(idxs.drop_first(), prims, axis, split, lb, lc, aabb_union(rb, b), rc + 1)
        }
    }
}

/// A primitive count as a fixed-point scalar.
pub open spec fn scount_fx(c: int) -> i64 {
    clip(c * (FX_ONE as int)) as i64
}

/// The SAH cost of splitting `idxs` at `split` on `axis`: the sum of each
/// side's (half) surface area weighted by its primitive count; degenerate or
/// non-improving splits cost the maximum.
pub open spec fn ssah_cost(
    idxs: Seq<usize>,
    prims: Seq<Primitive>,
    axis: usize,
    split: i64,
    parent: AABB,
) -> i64 {
    let (lb, lc, rb, rc) = ssah_acc(idxs, prims, axis, split, aabb_empty(), 0, aabb_empty(), 0);
    if lc == 0 || rc == 0 {
        FX_MAX
    } else {
        let cost = crate::fx::sadd64(
            crate::fx::smul64(crate::aabb::ssurface_area(lb), scount_fx(lc)),
            crate::fx::smul64(crate::aabb::ssurface_area(rb), scount_fx(rc)),
        );
        let parent_cost = crate::fx::smul64(
            crate::aabb::ssurface_area(parent),
            scount_fx(idxs.len() as int),
        );
        if cost > 0 && cost < parent_cost {
            cost
        } else {
            FX_MAX
        }
    }
}

pub fn count_fx(c: usize) -> (r: i64)
    ensures
        r == scount_fx(c as int),
{
    if c as u64 > 17592186044416u64 {
        FX_MAX
    } else {
        (c as i64) * FX_ONE
    }
}

impl BVH {
    /// Build a hierarchy over all primitives in the list. An empty scene is
    /// a caller bug and is ruled out up front rather than silently producing
    /// an empty tree. The result is structurally well formed, and holds each
    /// input index exactly once.
    pub fn build(prims: &Vec<Primitive>) -> (r: BVHNode)
        requires
            prims@.len() > 0,
        ensures
            sbvh_wf(r, prims@),
            sflatten(r).to_multiset() == sidentity(prims@.len()).to_multiset(),
    {
        let mut idxs: Vec<usize> = Vec::new();
        let mut i: usize = 0;
        while i < prims.len()
            invariant
                i <= prims@.len(),
                idxs@.len() == i,
                forall|k: int| 0 <= k < i ==> (#[trigger] idxs@[k]) == k,
            decreases prims@.len() - i,
        {
            idxs.push(i);
            i = i + 1;
        }
        proof {
            assert(idxs@ =~= sidentity(prims@.len()));
        }
        Self::build_recursive(prims, idxs)
    }

    fn build_recursive(prims: &Vec<Primitive>, idxs: Vec<usize>) -> (r: BVHNode)
        requires
            forall|k: int| 0 <= k < idxs@.len() ==> (#[trigger] idxs@[k]) < prims@.len(),
        ensures
            sbvh_wf(r, prims@),
            sflatten(r).to_multiset() == idxs@.to_multiset(),
        decreases idxs@.len(),
    {
        if idxs.len() <= MAX_HITTABLES_PER_LEAF {
            return Self::make_leaf(prims, idxs);
        }
        let (left_idxs, right_idxs) = Self::find_best_split(prims, &idxs);
        if left_idxs.len() == 0 || right_idxs.len() == 0 {
            return Self::make_leaf(prims, idxs);
        }
        let ghost li = left_idxs@;
        let ghost ri = right_idxs@;
        let left_node = Self::build_recursive(prims, left_idxs);
        let right_node = Self::build_recursive(prims, right_idxs);
        let ghost fl = sflatten(left_node);
        let ghost fr = sflatten(right_node);
        let bbox = left_node.bounding_box().union(right_node.bounding_box());
        let r = BVHNode::Internal { bbox, left: Box::new(left_node), right: Box::new(right_node) };
        proof {
            lemma_multiset_commutative(fl, fr);
            lemma_multiset_commutative(li, ri);
            assert(sflatten(r) == fl + fr);
            assert(sflatten(r).to_multiset() =~= idxs@.to_multiset());
        }
        r
    }

    /// A leaf over the given indices whose box is the union of the
    /// primitives' boxes.
    fn make_leaf(prims: &Vec<Primitive>, idxs: Vec<usize>) -> (r: BVHNode)
        requires
            forall|k: int| 0 <= k < idxs@.len() ==> (#[trigger] idxs@[k]) < prims@.len(),
        ensures
            sbvh_wf(r, prims@),
            sflatten(r) == idxs@,
    {
        let mut bbox = AABB::empty_box();
        let mut k: usize = 0;
        while k < idxs.len()
            invariant
                k <= idxs@.len(),
                forall|j: int| 0 <= j < idxs@.len() ==> (#[trigger] idxs@[j]) < prims@.len(),
                forall|j: int|
                    0 <= j < k ==> aabb_contains_box(
                        bbox,
                        sprim_bbox(#[trigger] prims@[idxs@[j] as int]),
                    ),
            decreases idxs@.len() - k,
        {
            let b = prims[idxs[k]].bounding_box();
            let old_bbox = bbox;
            bbox = bbox.union(b);
            proof {
                lemma_union_contains(old_bbox, b);
                assert forall|j: int|
                    0 <= j < k + 1 implies aabb_contains_box(
                    bbox,
                    sprim_bbox(#[trigger] prims@[idxs@[j] as int]),
                ) by {
                    if j < k {
                        lemma_contains_trans(bbox, old_bbox, sprim_bbox(prims@[idxs@[j] as int]));
                    }
                }
            }
            k = k + 1;
        }
        BVHNode::Leaf { bbox, idxs }
    }

    /// Search every centroid on every axis as a candidate split plane and
    /// partition by the cheapest one found. The two sides are a plane
    /// partition of the input: together they hold exactly the input indices.
    /// The two sides of the cheapest candidate plane: together a
    /// permutation of the input, split by centroid against a plane whose
    /// SAH cost no candidate (any axis, any member centroid) strictly
    /// beats.
    fn find_best_split(prims: &Vec<Primitive>, idxs: &Vec<usize>) -> (r: (Vec<usize>, Vec<usize>))
        requires
            forall|k: int| 0 <= k < idxs@.len() ==> (#[trigger] idxs@[k]) < prims@.len(),
        ensures
            r.0@.len() + r.1@.len() == idxs@.len(),
            (r.0@ + r.1@).to_multiset() == idxs@.to_multiset(),
            forall|k: int| 0 <= k < r.0@.len() ==> (#[trigger] r.0@[k]) < prims@.len(),
            forall|k: int| 0 <= k < r.1@.len() ==> (#[trigger] r.1@[k]) < prims@.len(),
            exists|ax: usize, sp: i64|
                #![trigger ssah_cost(idxs@, prims@, ax, sp, sparent_box(idxs@, prims@))]
                ax < 3 && (forall|j: int|
                    0 <= j < r.0@.len() ==> scentroid_ax(prims@[#[trigger] r.0@[j] as int], ax)
                        < sp) && (forall|j: int|
                    0 <= j < r.1@.len() ==> scentroid_ax(prims@[#[trigger] r.1@[j] as int], ax)
                        >= sp) && (forall|a2: usize, k: int|
                    a2 < 3 && 0 <= k < idxs@.len() ==> ssah_cost(
                        idxs@,
                        prims@,
                        ax,
                        sp,
                        sparent_box(idxs@, prims@),
                    ) <= ssah_cost(
                        idxs@,
                        prims@,
                        a2,
                        #[trigger] scand(idxs@, prims@, a2, k),
                        sparent_box(idxs@, prims@),
                    )),
    {
        let ghost parent = sparent_box(idxs@, prims@);
        let mut parent_bbox = AABB::empty_box();
        let mut k: usize = 0;
        proof {
            assert(idxs@.skip(0) =~= idxs@);
        }
        while k < idxs.len()
            invariant
                k <= idxs@.len(),
                forall|j: int| 0 <= j < idxs@.len() ==> (#[trigger] idxs@[j]) < prims@.len(),
                sbox_fold(idxs@.skip(k as int), prims@, parent_bbox) == sparent_box(
                    idxs@,
                    prims@,
                ),
            decreases idxs@.len() - k,
        {
            let ghost rest = idxs@.skip(k as int);
            proof {
                assert(rest[0] == idxs@[k as int]);
                assert(rest.drop_first() =~= idxs@.skip(k as int + 1));
            }
            parent_bbox = parent_bbox.union(prims[idxs[k]].bounding_box());
            k = k + 1;
        }
        proof {
            assert(idxs@.skip(idxs@.len() as int) =~= Seq::<usize>::empty());
            assert(parent_bbox == parent);
        }

        let mut best_cost: i64 = FX_MAX;
        let mut best_axis: usize = 0;
        let mut best_split: i64 = 0;
        let mut axis: usize = 0;
        proof {
            lemma_ssah_cost_bounded(idxs@, prims@, 0, 0, parent);
        }
        while axis < 3
            invariant
                forall|j: int| 0 <= j < idxs@.len() ==> (#[trigger] idxs@[j]) < prims@.len(),
                parent_bbox == parent,
                best_axis < 3,
                ssah_cost(idxs@, prims@, best_axis, best_split, parent) <= best_cost,
                forall|a2: usize, k: int|
                    a2 < axis && 0 <= k < idxs@.len() ==> best_cost <= ssah_cost(
                        idxs@,
                        prims@,
                        a2,
                        #[trigger] scand(idxs@, prims@, a2, k),
                        parent,
                    ),
            decreases 3 - axis,
        {
            let mut k2: usize = 0;
            while k2 < idxs.len()
                invariant
                    k2 <= idxs@.len(),
                    axis < 3,
                    forall|j: int| 0 <= j < idxs@.len() ==> (#[trigger] idxs@[j]) < prims@.len(),
                    parent_bbox == parent,
                    best_axis < 3,
                    ssah_cost(idxs@, prims@, best_axis, best_split, parent) <= best_cost,
                    forall|a2: usize, k: int|
                        (a2 < axis || (a2 == axis && 0 <= k < k2)) && a2 < 3 && 0 <= k
                            < idxs@.len() ==> best_cost <= ssah_cost(
                            idxs@,
                            prims@,
                            a2,
                            #[trigger] scand(idxs@, prims@, a2, k),
                            parent,
                        ),
                decreases idxs@.len() - k2,
            {
                let split_pos = prims[idxs[k2]].bounding_box().centroid().axis(axis);
                proof {
                    assert(split_pos == scand(idxs@, prims@, axis, k2 as int));
                }
                let cost = Self::evaluate_sah(prims, idxs, axis, split_pos, &parent_bbox);
                if cost < best_cost {
                    best_cost = cost;
                    best_axis = axis;
                    best_split = split_pos;
                }
                k2 = k2 + 1;
            }
            axis = axis + 1;
        }

        let mut left: Vec<usize> = Vec::new();
        let mut right: Vec<usize> = Vec::new();
        let mut k3: usize = 0;
        proof {
            assert(left@ + right@ =~= idxs@.subrange(0, 0));
        }
        while k3 < idxs.len()
            invariant
                k3 <= idxs@.len(),
                best_axis < 3,
                forall|j: int| 0 <= j < idxs@.len() ==> (#[trigger] idxs@[j]) < prims@.len(),
                forall|j: int| 0 <= j < left@.len() ==> (#[trigger] left@[j]) < prims@.len(),
                forall|j: int| 0 <= j < right@.len() ==> (#[trigger] right@[j]) < prims@.len(),
                left@.len() + right@.len() == k3,
                (left@ + right@).to_multiset() == idxs@.subrange(0, k3 as int).to_multiset(),
                forall|j: int|
                    0 <= j < left@.len() ==> scentroid_ax(
                        prims@[#[trigger] left@[j] as int],
                        best_axis,
                    ) < best_split,
                forall|j: int|
                    0 <= j < right@.len() ==> scentroid_ax(
                        prims@[#[trigger] right@[j] as int],
                        best_axis,
                    ) >= best_split,
            decreases idxs@.len() - k3,
        {
            let ghost prefix = idxs@.subrange(0, k3 as int);
            let idx = idxs[k3];
            let c = prims[idx].bounding_box().centroid().axis(best_axis);
            proof {
                assert(idxs@.subrange(0, k3 as int + 1) =~= prefix.push(idxs@[k3 as int]));
            }
            if c < best_split {
                let ghost old_left = left@;
                left.push(idx);
                proof {
                    broadcast use vstd::seq_lib::group_to_multiset_ensures;

                    lemma_multiset_commutative(old_left, right@);
                    lemma_multiset_commutative(left@, right@);
                    assert(left@ =~= old_left.push(idx));
                    assert((left@ + right@).to_multiset() =~= (old_left
                        + right@).to_multiset().insert(idx));
                }
            } else {
                let ghost old_right = right@;
                right.push(idx);
                proof {
                    broadcast use vstd::seq_lib::group_to_multiset_ensures;

                    lemma_multiset_commutative(left@, old_right);
                    lemma_multiset_commutative(left@, right@);
                    assert(right@ =~= old_right.push(idx));
                    assert((left@ + right@).to_multiset() =~= (left@
                        + old_right).to_multiset().insert(idx));
                }
            }
            k3 = k3 + 1;
        }
        proof {
            assert(idxs@.subrange(0, idxs@.len() as int) =~= idxs@);
            assert(ssah_cost(idxs@, prims@, best_axis, best_split, parent) <= best_cost);
            assert(forall|a2: usize, k: int|
                a2 < 3 && 0 <= k < idxs@.len() ==> ssah_cost(
                    idxs@,
                    prims@,
                    best_axis,
                    best_split,
                    parent,
                ) <= ssah_cost(idxs@, prims@, a2, #[trigger] scand(idxs@, prims@, a2, k),
                    parent));
        }
        (left, right)
    }

    /// Evaluate the SAH cost of one candidate split plane.
    fn evaluate_sah(
        prims: &Vec<Primitive>,
        idxs: &Vec<usize>,
        axis: usize,
        split_pos: i64,
        parent_bbox: &AABB,
    ) -> (r: i64)
        requires
            forall|k: int| 0 <= k < idxs@.len() ==> (#[trigger] idxs@[k]) < prims@.len(),
        ensures
            r == ssah_cost(idxs@, prims@, axis, split_pos, *parent_bbox),
    {
        let mut left_bbox = AABB::empty_box();
        let mut left_count: usize = 0;
        let mut right_bbox = AABB::empty_box();
        let mut right_count: usize = 0;
        let mut k: usize = 0;
        proof {
            assert(idxs@.skip(0) =~= idxs@);
        }
        while k < idxs.len()
            invariant
                k <= idxs@.len(),
                forall|j: int| 0 <= j < idxs@.len() ==> (#[trigger] idxs@[j]) < prims@.len(),
                left_count + right_count == k,
                ssah_acc(idxs@, prims@, axis, split_pos, aabb_empty(), 0, aabb_empty(), 0)
                    == ssah_acc(
                    idxs@.skip(k as int),
                    prims@,
                    axis,
                    split_pos,
                    left_bbox,
                    left_count as int,
                    right_bbox,
                    right_count as int,
                ),
            decreases idxs@.len() - k,
        {
            let ghost rest = idxs@.skip(k as int);
            proof {
                assert(rest[0] == idxs@[k as int]);
                assert(rest.drop_first() =~= idxs@.skip(k as int + 1));
            }
            let b = prims[idxs[k]].bounding_box();
            let c = b.centroid().axis(axis);
            if c < split_pos {
                left_bbox = left_bbox.union(b);
                left_count = left_count + 1;
            } else {
                right_bbox = right_bbox.union(b);
                right_count = right_count + 1;
            }
            k = k + 1;
        }
        proof {
            assert(idxs@.skip(idxs@.len() as int) =~= Seq::<usize>::empty());
        }
        if left_count == 0 || right_count == 0 {
            return FX_MAX;
        }
        let cost = crate::fx::fadd(
            crate::fx::fmul(left_bbox.surface_area(), count_fx(left_count)),
            crate::fx::fmul(right_bbox.surface_area(), count_fx(right_count)),
        );
        let parent_cost = crate::fx::fmul(parent_bbox.surface_area(), count_fx(idxs.len()));
        if cost > 0 && cost < parent_cost {
            cost
        } else {
            FX_MAX
        }
    }
}

} // verus!
