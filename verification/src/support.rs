//! Support queries on the vertices of a convex hull.

use crate::bigint::BigInt;
use crate::vec3::{BigVec3, Vec3, V3};
use vstd::prelude::*;

verus! {

/// Among the first `n` vertices, the position of the first one whose dot
/// product with `d` is greatest.
pub open spec fn spec_support_index(verts: Seq<V3>, d: V3, n: nat) -> int
    decreases n,
{
    if n <= 1 {
        0
    } else {
        let best = spec_support_index(verts, d, (n - 1) as nat);
        if verts[n - 1].dot(d) > verts[best].dot(d) {
            n - 1
        } else {
            best
        }
    }
}

/// The support index names a vertex, and no vertex reaches farther along `d`.
pub proof fn lemma_support_is_extreme(verts: Seq<V3>, d: V3, n: nat, j: int)
    requires
        0 <= j < n <= verts.len(),
    ensures
        0 <= spec_support_index(verts, d, n) < n,
        verts[j].dot(d) <= verts[spec_support_index(verts, d, n)].dot(d),
    decreases n,
{
    if n > 1 {
        if j < n - 1 {
            lemma_support_is_extreme(verts, d, (n - 1) as nat, j);
        } else {
            lemma_support_is_extreme(verts, d, (n - 1) as nat, 0);
        }
    }
}

/// The mathematical vectors that a list of unbounded vectors denotes.
pub open spec fn big_views(verts: Seq<BigVec3>) -> Seq<V3> {
    Seq::new(verts.len(), |i: int| verts[i]@)
}

/// The mathematical vectors that a list of fixed-point vectors denotes.
pub open spec fn unit_views(verts: Seq<Vec3>) -> Seq<V3> {
    Seq::new(verts.len(), |i: int| verts[i]@)
}

/// Finds the first vertex that reaches farthest along `d`.
pub fn support_index(verts: &Vec<BigVec3>, d: &BigVec3) -> (r: usize)
    requires
        verts@.len() > 0,
    ensures
        r == spec_support_index(big_views(verts@), d@, verts@.len()),
        r < verts@.len(),
{
    let n: usize = verts.len();
    let mut best: usize = 0;
    let mut best_dot: BigInt = verts[0].dot(d);
    let mut k: usize = 1;
    while k < n
        invariant
            1 <= k <= n,
            n == verts@.len(),
            best < k,
            best == spec_support_index(big_views(verts@), d@, k as nat),
            best_dot@ == big_views(verts@)[best as int].dot(d@),
        decreases n - k,
    {
        let cur: BigInt = verts[k].dot(d);
        if best_dot.lt(&cur) {
            best = k;
            best_dot = cur;
        }
        k = k + 1;
    }
    best
}

/// The unbounded vectors that denote the same points as `verts`.
pub fn widen(verts: &Vec<Vec3>) -> (r: Vec<BigVec3>)
    ensures
        r@.len() == verts@.len(),
        big_views(r@) == unit_views(verts@),
{
    let n: usize = verts.len();
    let mut r: Vec<BigVec3> = Vec::new();
    let mut k: usize = 0;
    while k < n
        invariant
            k <= n,
            n == verts@.len(),
            r@.len() == k,
            forall|i: int| 0 <= i < k ==> (#[trigger] r@[i])@ == verts@[i]@,
        decreases n - k,
    {
        r.push(BigVec3::from_vec3(&verts[k]));
        k = k + 1;
    }
    assert(big_views(r@) =~= unit_views(verts@));
    r
}

/// The vertex of a hull in fixed-point units that reaches farthest along `v`.
pub fn extreme_vertex(verts: &Vec<Vec3>, v: &Vec3) -> (r: Vec3)
    requires
        verts@.len() > 0,
    ensures
        r == verts@[spec_support_index(unit_views(verts@), v@, verts@.len())],
{
    let wide: Vec<BigVec3> = widen(verts);
    let d: BigVec3 = BigVec3::from_vec3(v);
    let i: usize = support_index(&wide, &d);
    verts[i]
}

} // verus!
