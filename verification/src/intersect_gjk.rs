//! The general test for two convex hulls, by support queries alone.
//!
//! Two hulls have a point in common exactly when the origin lies in their
//! Minkowski difference. The test walks a simplex of at most four points of
//! that difference toward the origin. It answers that the hulls intersect
//! only with weights in hand that place the origin in the simplex, and that
//! they do not only with a direction along which no point of the first hull
//! passes a point of the second by more than the tolerance. Where the
//! allowed number of rounds ends first, or a direction degenerates, the
//! answer is marked as unreliable.

use crate::bigint::{int_views, spec_div_floor_i64, BigInt};
use crate::bound_aabb::{AxisAlignedBBox, Extent};
use crate::support::{big_views, lemma_support_is_extreme, spec_support_index, support_index};
use crate::vec3::{BigVec3, Vec3, V3};
use vstd::prelude::*;

verus! {

/// The number of rounds after which the test gives up.
pub const MAX_ITERATIONS: u32 = 32;

/// A vertex of the first hull and a vertex of the second, by position.
#[derive(Clone, Copy, Debug, PartialEq, Eq, Structural)]
pub struct VertexPair {
    pub a: usize,
    pub b: usize,
}

/// The point of the Minkowski difference that a pair of vertices denotes.
pub open spec fn spec_difference(hull_a: Seq<V3>, hull_b: Seq<V3>, e: VertexPair) -> V3 {
    hull_a[e.a as int].minus(hull_b[e.b as int])
}

/// The points of the Minkowski difference that a simplex denotes.
pub open spec fn spec_simplex_points(
    hull_a: Seq<V3>,
    hull_b: Seq<V3>,
    simplex: Seq<VertexPair>,
) -> Seq<V3> {
    Seq::new(simplex.len(), |i: int| spec_difference(hull_a, hull_b, simplex[i]))
}

/// Every pair of the simplex names a vertex of each hull.
pub open spec fn spec_simplex_in_range(
    hull_a: Seq<V3>,
    hull_b: Seq<V3>,
    simplex: Seq<VertexPair>,
) -> bool {
    forall|i: int|
        0 <= i < simplex.len() ==> (#[trigger] simplex[i]).a < hull_a.len() && simplex[i].b
            < hull_b.len()
}

/// The pair of vertices whose difference reaches farthest along `d`.
pub open spec fn spec_support_pair(hull_a: Seq<V3>, hull_b: Seq<V3>, d: V3) -> VertexPair {
    VertexPair {
        a: spec_support_index(hull_a, d, hull_a.len()) as usize,
        b: spec_support_index(hull_b, d.negated(), hull_b.len()) as usize,
    }
}

/// The sum of the first `n` weights.
pub open spec fn spec_weight_total(w: Seq<int>, n: nat) -> int
    decreases n,
{
    if n == 0 {
        0
    } else {
        spec_weight_total(w, (n - 1) as nat) + w[n - 1]
    }
}

/// The sum of the first `n` points, each scaled by its weight.
pub open spec fn spec_weighted_sum(p: Seq<V3>, w: Seq<int>, n: nat) -> V3
    decreases n,
{
    if n == 0 {
        V3::zero()
    } else {
        spec_weighted_sum(p, w, (n - 1) as nat).plus(p[n - 1].scaled(w[n - 1]))
    }
}

/// The first `n` weights are not negative.
pub open spec fn spec_weights_nonnegative(w: Seq<int>, n: nat) -> bool
    decreases n,
{
    n == 0 || (spec_weights_nonnegative(w, (n - 1) as nat) && w[n - 1] >= 0)
}

/// The weights place the origin in the hull of the points: none is negative,
/// their sum is positive, and the points scaled by them add up to zero.
pub open spec fn spec_weights_place_origin(p: Seq<V3>, w: Seq<int>) -> bool {
    &&& w.len() == p.len()
    &&& spec_weights_nonnegative(w, w.len())
    &&& spec_weight_total(w, w.len()) > 0
    &&& spec_weighted_sum(p, w, p.len()).is_zero()
}

/// The weights that place the origin in a simplex, if any do: for a point
/// the weight one, for a segment, a triangle and a tetrahedron the
/// barycentric weights of the origin, scaled to integers.
pub open spec fn spec_candidate_weights(p: Seq<V3>) -> Seq<int> {
    if p.len() == 1 {
        seq![1int]
    } else if p.len() == 2 {
        let a = p[0];
        let b = p[1];
        seq![b.dot(b) - a.dot(b), a.dot(a) - a.dot(b)]
    } else if p.len() == 3 {
        let a = p[0];
        let b = p[1];
        let c = p[2];
        let n = b.minus(a).cross(c.minus(a));
        seq![n.dot(b.cross(c)), n.dot(c.cross(a)), n.dot(a.cross(b))]
    } else {
        let a = p[0];
        let b = p[1];
        let c = p[2];
        let d = p[3];
        let wa = b.dot(c.cross(d));
        let wb = -a.dot(c.cross(d));
        let wc = a.dot(b.cross(d));
        let wd = -a.dot(b.cross(c));
        if wa + wb + wc + wd >= 0 {
            seq![wa, wb, wc, wd]
        } else {
            seq![-wa, -wb, -wc, -wd]
        }
    }
}

/// What the walk does next: the positions of the simplex that it keeps, and
/// the direction of the next support query.
pub struct Step {
    pub keep: Seq<usize>,
    pub dir: V3,
}

/// From a segment whose newest end is `p[ia]`: toward the origin at a right
/// angle to the segment where the origin lies beside it, else away from the
/// newest end alone.
pub open spec fn spec_evolve_edge(p: Seq<V3>, ib: usize, ia: usize) -> Step {
    let a = p[ia as int];
    let b = p[ib as int];
    let ab = b.minus(a);
    let ao = a.negated();
    if ab.dot(ao) > 0 {
        Step { keep: seq![ib, ia], dir: ab.cross(ao).cross(ab) }
    } else {
        Step { keep: seq![ia], dir: ao }
    }
}

/// From a triangle whose newest corner is `p[ia]`: to the edge beside which
/// the origin lies, else along the normal of the triangle toward the origin.
pub open spec fn spec_evolve_triangle(p: Seq<V3>, ic: usize, ib: usize, ia: usize) -> Step {
    let a = p[ia as int];
    let b = p[ib as int];
    let c = p[ic as int];
    let ab = b.minus(a);
    let ac = c.minus(a);
    let ao = a.negated();
    let n = ab.cross(ac);
    if n.cross(ac).dot(ao) > 0 {
        if ac.dot(ao) > 0 {
            Step { keep: seq![ic, ia], dir: ac.cross(ao).cross(ac) }
        } else {
            spec_evolve_edge(p, ib, ia)
        }
    } else if ab.cross(n).dot(ao) > 0 {
        spec_evolve_edge(p, ib, ia)
    } else if n.dot(ao) > 0 {
        Step { keep: seq![ic, ib, ia], dir: n }
    } else {
        Step { keep: seq![ic, ib, ia], dir: n.negated() }
    }
}

/// The origin and the corner `o` lie strictly on different sides of the
/// plane through `x`, `y` and `z`.
pub open spec fn spec_origin_beyond_face(x: V3, y: V3, z: V3, o: V3) -> bool {
    let n = y.minus(x).cross(z.minus(x));
    let side_origin = n.dot(x.negated());
    let side_corner = n.dot(o.minus(x));
    (side_origin > 0 && side_corner < 0) || (side_origin < 0 && side_corner > 0)
}

/// From a tetrahedron whose newest corner is `p[3]`: to the first face
/// through that corner beyond which the origin lies.
pub open spec fn spec_evolve_tetrahedron(p: Seq<V3>) -> Step {
    let a = p[3];
    let b = p[2];
    let c = p[1];
    let d = p[0];
    if spec_origin_beyond_face(a, b, c, d) {
        spec_evolve_triangle(p, 1, 2, 3)
    } else if spec_origin_beyond_face(a, c, d, b) {
        spec_evolve_triangle(p, 0, 1, 3)
    } else if spec_origin_beyond_face(a, d, b, c) {
        spec_evolve_triangle(p, 2, 0, 3)
    } else {
        Step { keep: seq![3usize], dir: V3::zero() }
    }
}

/// The feature of the simplex nearest to the origin, and the direction from
/// it toward the origin. The newest point of the simplex is its last.
pub open spec fn spec_evolve(p: Seq<V3>) -> Step {
    if p.len() == 1 {
        Step { keep: seq![0usize], dir: p[0].negated() }
    } else if p.len() == 2 {
        spec_evolve_edge(p, 0, 1)
    } else if p.len() == 3 {
        spec_evolve_triangle(p, 0, 1, 2)
    } else {
        spec_evolve_tetrahedron(p)
    }
}

/// The pairs of the simplex at the positions kept.
pub open spec fn spec_select(simplex: Seq<VertexPair>, keep: Seq<usize>) -> Seq<VertexPair> {
    Seq::new(keep.len(), |i: int| simplex[keep[i] as int])
}

/// How a walk ended, with what shows it.
pub enum GjkTrace {
    /// The origin lies in the simplex, by the weights.
    Intersection { simplex: Seq<VertexPair>, weights: Seq<int> },
    /// No difference of two vertices reaches farther along `dir` than the
    /// tolerance.
    NoIntersection { dir: V3 },
    /// The rounds ran out, or a direction degenerated to zero.
    Unreliable,
}

/// The walk from a simplex, for at most `fuel` rounds.
pub open spec fn spec_gjk_from(
    hull_a: Seq<V3>,
    hull_b: Seq<V3>,
    epsilon: int,
    simplex: Seq<VertexPair>,
    fuel: nat,
) -> GjkTrace
    decreases fuel,
{
    if fuel == 0 {
        GjkTrace::Unreliable
    } else {
        let p = spec_simplex_points(hull_a, hull_b, simplex);
        let w = spec_candidate_weights(p);
        if spec_weights_place_origin(p, w) {
            GjkTrace::Intersection { simplex, weights: w }
        } else {
            let step = spec_evolve(p);
            if step.dir.is_zero() {
                GjkTrace::Unreliable
            } else {
                let e = spec_support_pair(hull_a, hull_b, step.dir);
                if spec_difference(hull_a, hull_b, e).dot(step.dir) <= epsilon {
                    GjkTrace::NoIntersection { dir: step.dir }
                } else {
                    spec_gjk_from(
                        hull_a,
                        hull_b,
                        epsilon,
                        spec_select(simplex, step.keep).push(e),
                        (fuel - 1) as nat,
                    )
                }
            }
        }
    }
}

/// The direction of the first support query.
pub open spec fn spec_first_direction() -> V3 {
    V3 { x: 1, y: 0, z: 0 }
}

/// The walk of the general test on two hulls.
pub open spec fn spec_gjk(hull_a: Seq<V3>, hull_b: Seq<V3>, epsilon: int) -> GjkTrace {
    spec_gjk_from(
        hull_a,
        hull_b,
        epsilon,
        seq![spec_support_pair(hull_a, hull_b, spec_first_direction())],
        MAX_ITERATIONS as nat,
    )
}

/// The steps of the walk keep at most three points, each a point of the
/// simplex they start from.
pub proof fn lemma_evolve_keeps_points(p: Seq<V3>)
    requires
        1 <= p.len() <= 4,
    ensures
        1 <= spec_evolve(p).keep.len() <= 3,
        forall|i: int|
            0 <= i < spec_evolve(p).keep.len() ==> (#[trigger] spec_evolve(p).keep[i]) < p.len(),
{
}

/// How the general test ended.
#[derive(Clone, Copy, Debug, PartialEq, Eq, Structural)]
pub enum GjkOutcome {
    /// The hulls have a point in common. The witness is that point, rounded
    /// down to units, where an `i64` holds its coordinates.
    Intersection(Option<Vec3>),
    /// A direction was found along which no point of the first hull passes
    /// a point of the second by more than the tolerance.
    NoIntersection,
    /// The test gave up, and the hulls are reported as apart.
    Unreliable,
}

/// The vertices of the second hull that a simplex names.
pub open spec fn spec_second_points(hull_b: Seq<V3>, simplex: Seq<VertexPair>) -> Seq<V3> {
    Seq::new(simplex.len(), |i: int| hull_b[simplex[i].b as int])
}

/// The point of the second hull that the weights single out, rounded down to
/// units, where an `i64` holds its coordinates.
pub open spec fn spec_witness(hull_b: Seq<V3>, simplex: Seq<VertexPair>, w: Seq<int>) -> Option<
    Vec3,
> {
    let total = spec_weight_total(w, w.len());
    let sum = spec_weighted_sum(spec_second_points(hull_b, simplex), w, w.len());
    match (
        spec_div_floor_i64(sum.x, total),
        spec_div_floor_i64(sum.y, total),
        spec_div_floor_i64(sum.z, total),
    ) {
        (Some(x), Some(y), Some(z)) => Some(Vec3 { x, y, z }),
        _ => None,
    }
}

/// What the general test reports of a walk.
pub open spec fn spec_outcome(trace: GjkTrace, hull_b: Seq<V3>) -> GjkOutcome {
    match trace {
        GjkTrace::Intersection { simplex, weights } => GjkOutcome::Intersection(
            spec_witness(hull_b, simplex, weights),
        ),
        GjkTrace::NoIntersection { dir } => GjkOutcome::NoIntersection,
        GjkTrace::Unreliable => GjkOutcome::Unreliable,
    }
}

fn difference(hull_a: &Vec<BigVec3>, hull_b: &Vec<BigVec3>, e: VertexPair) -> (r: BigVec3)
    requires
        e.a < hull_a@.len(),
        e.b < hull_b@.len(),
    ensures
        r@ == spec_difference(big_views(hull_a@), big_views(hull_b@), e),
{
    hull_a[e.a].minus(&hull_b[e.b])
}

fn simplex_points(hull_a: &Vec<BigVec3>, hull_b: &Vec<BigVec3>, simplex: &Vec<VertexPair>) -> (r:
    Vec<BigVec3>)
    requires
        spec_simplex_in_range(big_views(hull_a@), big_views(hull_b@), simplex@),
    ensures
        r@.len() == simplex@.len(),
        big_views(r@) == spec_simplex_points(big_views(hull_a@), big_views(hull_b@), simplex@),
{
    let n: usize = simplex.len();
    let mut r: Vec<BigVec3> = Vec::new();
    let mut k: usize = 0;
    while k < n
        invariant
            k <= n,
            n == simplex@.len(),
            r@.len() == k,
            spec_simplex_in_range(big_views(hull_a@), big_views(hull_b@), simplex@),
            forall|i: int|
                0 <= i < k ==> (#[trigger] r@[i])@ == spec_difference(
                    big_views(hull_a@),
                    big_views(hull_b@),
                    simplex@[i],
                ),
        decreases n - k,
    {
        let e: VertexPair = simplex[k];
        assert(simplex@[k as int].a < big_views(hull_a@).len());
        r.push(difference(hull_a, hull_b, e));
        k = k + 1;
    }
    assert(big_views(r@) =~= spec_simplex_points(
        big_views(hull_a@),
        big_views(hull_b@),
        simplex@,
    ));
    r
}

fn support_pair(hull_a: &Vec<BigVec3>, hull_b: &Vec<BigVec3>, d: &BigVec3) -> (r: VertexPair)
    requires
        hull_a@.len() > 0,
        hull_b@.len() > 0,
    ensures
        r == spec_support_pair(big_views(hull_a@), big_views(hull_b@), d@),
        r.a < hull_a@.len(),
        r.b < hull_b@.len(),
{
    let back: BigVec3 = d.negated();
    VertexPair { a: support_index(hull_a, d), b: support_index(hull_b, &back) }
}

fn candidate_weights(pts: &Vec<BigVec3>) -> (r: Vec<BigInt>)
    requires
        1 <= pts@.len() <= 4,
    ensures
        r@.len() == pts@.len(),
        int_views(r@) == spec_candidate_weights(big_views(pts@)),
{
    let n: usize = pts.len();
    let ghost p = big_views(pts@);
    if n == 1 {
        let r: Vec<BigInt> = vec![BigInt::from_i64(1)];
        assert(int_views(r@) =~= spec_candidate_weights(p));
        r
    } else if n == 2 {
        let a: &BigVec3 = &pts[0];
        let b: &BigVec3 = &pts[1];
        assert(a@ == p[0] && b@ == p[1]);
        let ab: BigInt = a.dot(b);
        let r: Vec<BigInt> = vec![b.dot(b).sub(&ab), a.dot(a).sub(&ab)];
        assert(int_views(r@) =~= spec_candidate_weights(p));
        r
    } else if n == 3 {
        let a: &BigVec3 = &pts[0];
        let b: &BigVec3 = &pts[1];
        let c: &BigVec3 = &pts[2];
        assert(a@ == p[0] && b@ == p[1] && c@ == p[2]);
        let nrm: BigVec3 = b.minus(a).cross(&c.minus(a));
        let r: Vec<BigInt> = vec![
            nrm.dot(&b.cross(c)),
            nrm.dot(&c.cross(a)),
            nrm.dot(&a.cross(b)),
        ];
        assert(int_views(r@) =~= spec_candidate_weights(p));
        r
    } else {
        let a: &BigVec3 = &pts[0];
        let b: &BigVec3 = &pts[1];
        let c: &BigVec3 = &pts[2];
        let d: &BigVec3 = &pts[3];
        assert(a@ == p[0] && b@ == p[1] && c@ == p[2] && d@ == p[3]);
        let wa: BigInt = b.dot(&c.cross(d));
        let wb: BigInt = a.dot(&c.cross(d)).neg();
        let wc: BigInt = a.dot(&b.cross(d));
        let wd: BigInt = a.dot(&b.cross(c)).neg();
        let total: BigInt = wa.add(&wb).add(&wc).add(&wd);
        if total.is_negative() {
            let r: Vec<BigInt> = vec![wa.neg(), wb.neg(), wc.neg(), wd.neg()];
            assert(int_views(r@) =~= spec_candidate_weights(p));
            r
        } else {
            let r: Vec<BigInt> = vec![wa, wb, wc, wd];
            assert(int_views(r@) =~= spec_candidate_weights(p));
            r
        }
    }
}

fn weights_place_origin(pts: &Vec<BigVec3>, w: &Vec<BigInt>) -> (r: bool)
    requires
        w@.len() == pts@.len(),
    ensures
        r == spec_weights_place_origin(big_views(pts@), int_views(w@)),
{
    let n: usize = pts.len();
    let mut total: BigInt = BigInt::zero();
    let mut sum: BigVec3 = BigVec3::from_units(0, 0, 0);
    let mut nonnegative: bool = true;
    let mut k: usize = 0;
    while k < n
        invariant
            k <= n,
            n == pts@.len(),
            n == w@.len(),
            total@ == spec_weight_total(int_views(w@), k as nat),
            sum@ == spec_weighted_sum(big_views(pts@), int_views(w@), k as nat),
            nonnegative == spec_weights_nonnegative(int_views(w@), k as nat),
        decreases n - k,
    {
        if w[k].is_negative() {
            nonnegative = false;
        }
        total = total.add(&w[k]);
        sum = sum.plus(&pts[k].scaled(&w[k]));
        k = k + 1;
    }
    nonnegative && total.is_positive() && sum.is_zero()
}

fn evolve_edge(pts: &Vec<BigVec3>, ib: usize, ia: usize) -> (r: (Vec<usize>, BigVec3))
    requires
        ib < pts@.len(),
        ia < pts@.len(),
    ensures
        r.0@ == spec_evolve_edge(big_views(pts@), ib, ia).keep,
        r.1@ == spec_evolve_edge(big_views(pts@), ib, ia).dir,
{
    let a: &BigVec3 = &pts[ia];
    let b: &BigVec3 = &pts[ib];
    let ab: BigVec3 = b.minus(a);
    let ao: BigVec3 = a.negated();
    if ab.dot(&ao).is_positive() {
        let keep: Vec<usize> = vec![ib, ia];
        assert(keep@ =~= seq![ib, ia]);
        (keep, ab.cross(&ao).cross(&ab))
    } else {
        let keep: Vec<usize> = vec![ia];
        assert(keep@ =~= seq![ia]);
        (keep, ao)
    }
}

fn evolve_triangle(pts: &Vec<BigVec3>, ic: usize, ib: usize, ia: usize) -> (r: (
    Vec<usize>,
    BigVec3,
))
    requires
        ic < pts@.len(),
        ib < pts@.len(),
        ia < pts@.len(),
    ensures
        r.0@ == spec_evolve_triangle(big_views(pts@), ic, ib, ia).keep,
        r.1@ == spec_evolve_triangle(big_views(pts@), ic, ib, ia).dir,
{
    let a: &BigVec3 = &pts[ia];
    let b: &BigVec3 = &pts[ib];
    let c: &BigVec3 = &pts[ic];
    let ab: BigVec3 = b.minus(a);
    let ac: BigVec3 = c.minus(a);
    let ao: BigVec3 = a.negated();
    let n: BigVec3 = ab.cross(&ac);
    if n.cross(&ac).dot(&ao).is_positive() {
        if ac.dot(&ao).is_positive() {
            let keep: Vec<usize> = vec![ic, ia];
            assert(keep@ =~= seq![ic, ia]);
            (keep, ac.cross(&ao).cross(&ac))
        } else {
            evolve_edge(pts, ib, ia)
        }
    } else if ab.cross(&n).dot(&ao).is_positive() {
        evolve_edge(pts, ib, ia)
    } else {
        let keep: Vec<usize> = vec![ic, ib, ia];
        assert(keep@ =~= seq![ic, ib, ia]);
        if n.dot(&ao).is_positive() {
            (keep, n)
        } else {
            (keep, n.negated())
        }
    }
}

fn origin_beyond_face(x: &BigVec3, y: &BigVec3, z: &BigVec3, o: &BigVec3) -> (r: bool)
    ensures
        r == spec_origin_beyond_face(x@, y@, z@, o@),
{
    let n: BigVec3 = y.minus(x).cross(&z.minus(x));
    let side_origin: BigInt = n.dot(&x.negated());
    let side_corner: BigInt = n.dot(&o.minus(x));
    (side_origin.is_positive() && side_corner.is_negative()) || (side_origin.is_negative()
        && side_corner.is_positive())
}

fn evolve(pts: &Vec<BigVec3>) -> (r: (Vec<usize>, BigVec3))
    requires
        1 <= pts@.len() <= 4,
    ensures
        r.0@ == spec_evolve(big_views(pts@)).keep,
        r.1@ == spec_evolve(big_views(pts@)).dir,
{
    let n: usize = pts.len();
    if n == 1 {
        let keep: Vec<usize> = vec![0];
        assert(keep@ =~= seq![0usize]);
        (keep, pts[0].negated())
    } else if n == 2 {
        evolve_edge(pts, 0, 1)
    } else if n == 3 {
        evolve_triangle(pts, 0, 1, 2)
    } else {
        let a: &BigVec3 = &pts[3];
        let b: &BigVec3 = &pts[2];
        let c: &BigVec3 = &pts[1];
        let d: &BigVec3 = &pts[0];
        if origin_beyond_face(a, b, c, d) {
            evolve_triangle(pts, 1, 2, 3)
        } else if origin_beyond_face(a, c, d, b) {
            evolve_triangle(pts, 0, 1, 3)
        } else if origin_beyond_face(a, d, b, c) {
            evolve_triangle(pts, 2, 0, 3)
        } else {
            let keep: Vec<usize> = vec![3];
            assert(keep@ =~= seq![3usize]);
            (keep, BigVec3::from_units(0, 0, 0))
        }
    }
}

fn select(simplex: &Vec<VertexPair>, keep: &Vec<usize>) -> (r: Vec<VertexPair>)
    requires
        forall|i: int| 0 <= i < keep@.len() ==> (#[trigger] keep@[i]) < simplex@.len(),
    ensures
        r@ == spec_select(simplex@, keep@),
{
    let n: usize = keep.len();
    let mut r: Vec<VertexPair> = Vec::new();
    let mut k: usize = 0;
    while k < n
        invariant
            k <= n,
            n == keep@.len(),
            r@.len() == k,
            forall|i: int| 0 <= i < keep@.len() ==> (#[trigger] keep@[i]) < simplex@.len(),
            forall|i: int| 0 <= i < k ==> #[trigger] r@[i] == simplex@[keep@[i] as int],
        decreases n - k,
    {
        r.push(simplex[keep[k]]);
        k = k + 1;
    }
    assert(r@ =~= spec_select(simplex@, keep@));
    r
}

fn witness(hull_b: &Vec<BigVec3>, simplex: &Vec<VertexPair>, w: &Vec<BigInt>) -> (r: Option<Vec3>)
    requires
        w@.len() == simplex@.len(),
        forall|i: int| 0 <= i < simplex@.len() ==> (#[trigger] simplex@[i]).b < hull_b@.len(),
        spec_weight_total(int_views(w@), w@.len()) > 0,
    ensures
        r == spec_witness(big_views(hull_b@), simplex@, int_views(w@)),
{
    let n: usize = simplex.len();
    let ghost second = spec_second_points(big_views(hull_b@), simplex@);
    let mut total: BigInt = BigInt::zero();
    let mut sum: BigVec3 = BigVec3::from_units(0, 0, 0);
    let mut k: usize = 0;
    while k < n
        invariant
            k <= n,
            n == simplex@.len(),
            n == w@.len(),
            second == spec_second_points(big_views(hull_b@), simplex@),
            forall|i: int| 0 <= i < simplex@.len() ==> (#[trigger] simplex@[i]).b < hull_b@.len(),
            total@ == spec_weight_total(int_views(w@), k as nat),
            sum@ == spec_weighted_sum(second, int_views(w@), k as nat),
        decreases n - k,
    {
        let e: VertexPair = simplex[k];
        assert(simplex@[k as int].b < hull_b@.len());
        total = total.add(&w[k]);
        sum = sum.plus(&hull_b[e.b].scaled(&w[k]));
        k = k + 1;
    }
    let x: Option<i64> = sum.x.div_floor_i64(&total);
    let y: Option<i64> = sum.y.div_floor_i64(&total);
    let z: Option<i64> = sum.z.div_floor_i64(&total);
    match (x, y, z) {
        (Some(x), Some(y), Some(z)) => Some(Vec3 { x, y, z }),
        _ => None,
    }
}

/// Decides whether two convex hulls, each given by its vertices, have a
/// point in common.
pub fn general_convex_intersect(hull_a: &Vec<BigVec3>, hull_b: &Vec<BigVec3>, epsilon: u64) -> (r:
    GjkOutcome)
    requires
        hull_a@.len() > 0,
        hull_b@.len() > 0,
    ensures
        r == spec_outcome(
            spec_gjk(big_views(hull_a@), big_views(hull_b@), epsilon as int),
            big_views(hull_b@),
        ),
{
    let ghost va = big_views(hull_a@);
    let ghost vb = big_views(hull_b@);
    let first: BigVec3 = BigVec3::from_units(1, 0, 0);
    let e0: VertexPair = support_pair(hull_a, hull_b, &first);
    let mut simplex: Vec<VertexPair> = vec![e0];
    assert(simplex@ =~= seq![e0]);
    let tolerance: BigInt = BigInt::from_u64(epsilon);
    let mut fuel: u32 = MAX_ITERATIONS;
    while fuel > 0
        invariant
            va == big_views(hull_a@),
            vb == big_views(hull_b@),
            hull_a@.len() > 0,
            hull_b@.len() > 0,
            tolerance@ == epsilon,
            1 <= simplex@.len() <= 4,
            spec_simplex_in_range(va, vb, simplex@),
            spec_gjk(va, vb, epsilon as int) == spec_gjk_from(
                va,
                vb,
                epsilon as int,
                simplex@,
                fuel as nat,
            ),
        decreases fuel,
    {
        let pts: Vec<BigVec3> = simplex_points(hull_a, hull_b, &simplex);
        let w: Vec<BigInt> = candidate_weights(&pts);
        if weights_place_origin(&pts, &w) {
            return GjkOutcome::Intersection(witness(hull_b, &simplex, &w));
        }
        let (keep, dir): (Vec<usize>, BigVec3) = evolve(&pts);
        if dir.is_zero() {
            return GjkOutcome::Unreliable;
        }
        let e: VertexPair = support_pair(hull_a, hull_b, &dir);
        let reach: BigInt = difference(hull_a, hull_b, e).dot(&dir);
        if reach.le(&tolerance) {
            return GjkOutcome::NoIntersection;
        }
        proof {
            lemma_evolve_keeps_points(big_views(pts@));
        }
        let mut next: Vec<VertexPair> = select(&simplex, &keep);
        next.push(e);
        simplex = next;
        fuel = fuel - 1;
    }
    GjkOutcome::Unreliable
}

/// What the general test answers for a pair of hulls: whether they have a
/// point in common, and the witness. An unreliable walk counts as apart.
pub open spec fn spec_convex_pair(hull_a: Seq<V3>, hull_b: Seq<V3>, epsilon: int) -> (
    bool,
    Option<Vec3>,
) {
    match spec_outcome(spec_gjk(hull_a, hull_b, epsilon), hull_b) {
        GjkOutcome::Intersection(witness) => (true, witness),
        _ => (false, None),
    }
}

/// Runs the general test on a pair of hulls and reports it as an
/// intersection result.
pub fn convex_pair(hull_a: &Vec<BigVec3>, hull_b: &Vec<BigVec3>, epsilon: u64) -> (r: (
    bool,
    Option<Vec3>,
))
    requires
        hull_a@.len() > 0,
        hull_b@.len() > 0,
    ensures
        r == spec_convex_pair(big_views(hull_a@), big_views(hull_b@), epsilon as int),
{
    match general_convex_intersect(hull_a, hull_b, epsilon) {
        GjkOutcome::Intersection(witness) => (true, witness),
        _ => (false, None),
    }
}

/// The vertices of the first hull that a simplex names.
pub open spec fn spec_first_points(hull_a: Seq<V3>, simplex: Seq<VertexPair>) -> Seq<V3> {
    Seq::new(simplex.len(), |i: int| hull_a[simplex[i].a as int])
}

/// What the end of a walk shows. Where it ends in an intersection, the
/// weights place the origin in a simplex of differences of vertices. Where
/// it ends in no intersection, the direction is not zero, and along it no
/// vertex of the first hull passes a vertex of the second by more than the
/// tolerance.
pub open spec fn spec_trace_justified(
    hull_a: Seq<V3>,
    hull_b: Seq<V3>,
    epsilon: int,
    trace: GjkTrace,
) -> bool {
    match trace {
        GjkTrace::Intersection { simplex, weights } => {
            &&& 1 <= simplex.len() <= 4
            &&& spec_simplex_in_range(hull_a, hull_b, simplex)
            &&& spec_weights_place_origin(spec_simplex_points(hull_a, hull_b, simplex), weights)
        },
        GjkTrace::NoIntersection { dir } => {
            &&& !dir.is_zero()
            &&& forall|i: int, j: int|
                0 <= i < hull_a.len() && 0 <= j < hull_b.len() ==> (#[trigger] hull_a[i]).minus(
                    #[trigger] hull_b[j],
                ).dot(dir) <= epsilon
        },
        GjkTrace::Unreliable => true,
    }
}

proof fn lemma_dot_of_difference(x: V3, y: V3, d: V3)
    ensures
        x.minus(y).dot(d) == x.dot(d) + y.dot(d.negated()),
{
    assert((x.x - y.x) * d.x == x.x * d.x + y.x * (-d.x)) by (nonlinear_arith);
    assert((x.y - y.y) * d.y == x.y * d.y + y.y * (-d.y)) by (nonlinear_arith);
    assert((x.z - y.z) * d.z == x.z * d.z + y.z * (-d.z)) by (nonlinear_arith);
}

/// No difference of two vertices reaches farther along `d` than the
/// difference of the support pair.
pub proof fn lemma_support_pair_is_extreme(hull_a: Seq<V3>, hull_b: Seq<V3>, d: V3, i: int, j: int)
    requires
        0 <= i < hull_a.len() <= usize::MAX,
        0 <= j < hull_b.len() <= usize::MAX,
    ensures
        spec_support_pair(hull_a, hull_b, d).a < hull_a.len(),
        spec_support_pair(hull_a, hull_b, d).b < hull_b.len(),
        hull_a[i].minus(hull_b[j]).dot(d) <= spec_difference(
            hull_a,
            hull_b,
            spec_support_pair(hull_a, hull_b, d),
        ).dot(d),
{
    let e = spec_support_pair(hull_a, hull_b, d);
    lemma_support_is_extreme(hull_a, d, hull_a.len(), i);
    lemma_support_is_extreme(hull_b, d.negated(), hull_b.len(), j);
    lemma_dot_of_difference(hull_a[i], hull_b[j], d);
    lemma_dot_of_difference(hull_a[e.a as int], hull_b[e.b as int], d);
}

/// Every walk that starts from a simplex of differences of vertices ends
/// with what shows its answer.
pub proof fn lemma_walk_justified(
    hull_a: Seq<V3>,
    hull_b: Seq<V3>,
    epsilon: int,
    simplex: Seq<VertexPair>,
    fuel: nat,
)
    requires
        0 < hull_a.len() <= usize::MAX,
        0 < hull_b.len() <= usize::MAX,
        1 <= simplex.len() <= 4,
        spec_simplex_in_range(hull_a, hull_b, simplex),
    ensures
        spec_trace_justified(
            hull_a,
            hull_b,
            epsilon,
            spec_gjk_from(hull_a, hull_b, epsilon, simplex, fuel),
        ),
    decreases fuel,
{
    if fuel > 0 {
        let p = spec_simplex_points(hull_a, hull_b, simplex);
        let w = spec_candidate_weights(p);
        if !spec_weights_place_origin(p, w) {
            let step = spec_evolve(p);
            if !step.dir.is_zero() {
                let e = spec_support_pair(hull_a, hull_b, step.dir);
                lemma_support_pair_is_extreme(hull_a, hull_b, step.dir, 0, 0);
                if spec_difference(hull_a, hull_b, e).dot(step.dir) <= epsilon {
                    assert forall|i: int, j: int|
                        0 <= i < hull_a.len() && 0 <= j < hull_b.len() implies (
                    #[trigger] hull_a[i]).minus(#[trigger] hull_b[j]).dot(step.dir) <= epsilon by {
                        lemma_support_pair_is_extreme(hull_a, hull_b, step.dir, i, j);
                    }
                } else {
                    lemma_evolve_keeps_points(p);
                    let next = spec_select(simplex, step.keep).push(e);
                    assert forall|i: int| 0 <= i < next.len() implies (#[trigger] next[i]).a
                        < hull_a.len() && next[i].b < hull_b.len() by {
                        if i < step.keep.len() {
                            assert(next[i] == simplex[step.keep[i] as int]);
                        }
                    }
                    lemma_walk_justified(hull_a, hull_b, epsilon, next, (fuel - 1) as nat);
                }
            }
        }
    }
}

/// The general test ends with what shows its answer.
pub proof fn lemma_gjk_justified(hull_a: Seq<V3>, hull_b: Seq<V3>, epsilon: int)
    requires
        0 < hull_a.len() <= usize::MAX,
        0 < hull_b.len() <= usize::MAX,
    ensures
        spec_trace_justified(hull_a, hull_b, epsilon, spec_gjk(hull_a, hull_b, epsilon)),
{
    let e = spec_support_pair(hull_a, hull_b, spec_first_direction());
    lemma_support_pair_is_extreme(hull_a, hull_b, spec_first_direction(), 0, 0);
    lemma_walk_justified(hull_a, hull_b, epsilon, seq![e], MAX_ITERATIONS as nat);
}

proof fn lemma_scaled_difference(x: V3, y: V3, k: int)
    ensures
        x.minus(y).scaled(k) == x.scaled(k).minus(y.scaled(k)),
{
    assert(k * (x.x - y.x) == k * x.x - k * y.x) by (nonlinear_arith);
    assert(k * (x.y - y.y) == k * x.y - k * y.y) by (nonlinear_arith);
    assert(k * (x.z - y.z) == k * x.z - k * y.z) by (nonlinear_arith);
}

/// The weighted sum of the differences is the difference of the weighted
/// sums of the vertices of the two hulls.
pub proof fn lemma_weighted_sum_splits(
    hull_a: Seq<V3>,
    hull_b: Seq<V3>,
    simplex: Seq<VertexPair>,
    w: Seq<int>,
    n: nat,
)
    requires
        n <= simplex.len(),
    ensures
        spec_weighted_sum(spec_simplex_points(hull_a, hull_b, simplex), w, n) == spec_weighted_sum(
            spec_first_points(hull_a, simplex),
            w,
            n,
        ).minus(spec_weighted_sum(spec_second_points(hull_b, simplex), w, n)),
    decreases n,
{
    if n > 0 {
        lemma_weighted_sum_splits(hull_a, hull_b, simplex, w, (n - 1) as nat);
        let e = simplex[n - 1];
        lemma_scaled_difference(hull_a[e.a as int], hull_b[e.b as int], w[n - 1]);
    }
}

/// Where the general test answers that two hulls intersect, they have a
/// point in common: weights that are not negative and whose sum is positive
/// give the same weighted sum of vertices of the first hull as of vertices
/// of the second. Divided by the sum of the weights, it is a point of both.
pub proof fn lemma_intersection_is_common_point(hull_a: Seq<V3>, hull_b: Seq<V3>, epsilon: int)
    requires
        0 < hull_a.len() <= usize::MAX,
        0 < hull_b.len() <= usize::MAX,
        spec_gjk(hull_a, hull_b, epsilon) is Intersection,
    ensures
        ({
            let simplex = spec_gjk(hull_a, hull_b, epsilon)->simplex;
            let w = spec_gjk(hull_a, hull_b, epsilon)->weights;
            &&& w.len() == simplex.len()
            &&& spec_simplex_in_range(hull_a, hull_b, simplex)
            &&& spec_weights_nonnegative(w, w.len())
            &&& spec_weight_total(w, w.len()) > 0
            &&& spec_weighted_sum(spec_first_points(hull_a, simplex), w, w.len())
                == spec_weighted_sum(spec_second_points(hull_b, simplex), w, w.len())
        }),
{
    lemma_gjk_justified(hull_a, hull_b, epsilon);
    let simplex = spec_gjk(hull_a, hull_b, epsilon)->simplex;
    let w = spec_gjk(hull_a, hull_b, epsilon)->weights;
    lemma_weighted_sum_splits(hull_a, hull_b, simplex, w, simplex.len());
}

/// Where the general test answers that two hulls do not intersect, a
/// direction other than zero exists along which no vertex of the first hull
/// passes a vertex of the second by more than the tolerance.
pub proof fn lemma_no_intersection_is_separation(hull_a: Seq<V3>, hull_b: Seq<V3>, epsilon: int)
    requires
        0 < hull_a.len() <= usize::MAX,
        0 < hull_b.len() <= usize::MAX,
        spec_gjk(hull_a, hull_b, epsilon) is NoIntersection,
    ensures
        ({
            let d = spec_gjk(hull_a, hull_b, epsilon)->dir;
            &&& !d.is_zero()
            &&& forall|i: int, j: int|
                0 <= i < hull_a.len() && 0 <= j < hull_b.len() ==> (#[trigger] hull_a[i]).dot(d) - (
                #[trigger] hull_b[j]).dot(d) <= epsilon
        }),
{
    lemma_gjk_justified(hull_a, hull_b, epsilon);
    let d = spec_gjk(hull_a, hull_b, epsilon)->dir;
    assert forall|i: int, j: int|
        0 <= i < hull_a.len() && 0 <= j < hull_b.len() implies (#[trigger] hull_a[i]).dot(d) - (
    #[trigger] hull_b[j]).dot(d) <= epsilon by {
        assert(hull_a[i].minus(hull_b[j]).dot(d) <= epsilon);
        lemma_dot_of_difference(hull_a[i], hull_b[j], d);
        assert(hull_b[j].dot(d.negated()) == -hull_b[j].dot(d)) by (nonlinear_arith);
    }
}

/// Two hulls of one vertex each intersect by the general test exactly where
/// the two vertices are the same point, which is then the witness.
pub proof fn lemma_single_vertices(a: Vec3, b: Vec3, epsilon: int)
    requires
        epsilon >= 0,
    ensures
        spec_convex_pair(seq![a@], seq![b@], epsilon) == (if a == b {
            (true, Some(b))
        } else {
            (false, None::<Vec3>)
        }),
{
    let hull_a = seq![a@];
    let hull_b = seq![b@];
    let e = spec_support_pair(hull_a, hull_b, spec_first_direction());
    assert(e == VertexPair { a: 0, b: 0 });
    let simplex = seq![e];
    let p = spec_simplex_points(hull_a, hull_b, simplex);
    let diff = a@.minus(b@);
    assert(p[0] == diff);
    let w = spec_candidate_weights(p);
    assert(w =~= seq![1int]);
    reveal_with_fuel(spec_weighted_sum, 2);
    reveal_with_fuel(spec_weight_total, 2);
    reveal_with_fuel(spec_weights_nonnegative, 2);
    assert(spec_weighted_sum(p, w, 1) == V3::zero().plus(diff.scaled(1)));
    assert(spec_weight_total(w, 1) == 1);
    let trace = spec_gjk(hull_a, hull_b, epsilon);
    assert(trace == spec_gjk_from(hull_a, hull_b, epsilon, simplex, MAX_ITERATIONS as nat));
    if a == b {
        assert(diff.is_zero());
        assert(spec_weights_place_origin(p, w));
        assert(trace == GjkTrace::Intersection { simplex, weights: w });
        let second = spec_second_points(hull_b, simplex);
        assert(second[0] == b@);
        assert(spec_weighted_sum(second, w, 1) == V3::zero().plus(b@.scaled(1)));
        assert(spec_witness(hull_b, simplex, w) == Some(b));
    } else {
        assert(!diff.is_zero());
        assert(!spec_weights_place_origin(p, w));
        let step = spec_evolve(p);
        assert(step.dir == diff.negated());
        assert(!step.dir.is_zero());
        let next = spec_support_pair(hull_a, hull_b, step.dir);
        assert(next == VertexPair { a: 0, b: 0 });
        assert(diff.dot(diff.negated()) <= 0) by (nonlinear_arith);
        assert(trace == GjkTrace::NoIntersection { dir: step.dir });
    }
}

/// The coordinate of a vector along an axis.
pub open spec fn spec_axis(v: V3, axis: int) -> int {
    if axis == 0 {
        v.x
    } else if axis == 1 {
        v.y
    } else {
        v.z
    }
}

/// A weighted sum of points whose coordinates along an axis lie between two
/// bounds lies between the bounds scaled by the sum of the weights.
pub proof fn lemma_weighted_sum_between(
    p: Seq<V3>,
    w: Seq<int>,
    n: nat,
    axis: int,
    lower: int,
    upper: int,
)
    requires
        n <= p.len(),
        n <= w.len(),
        spec_weights_nonnegative(w, n),
        forall|i: int| 0 <= i < n ==> lower <= spec_axis(#[trigger] p[i], axis) <= upper,
    ensures
        lower * spec_weight_total(w, n) <= spec_axis(spec_weighted_sum(p, w, n), axis) <= upper
            * spec_weight_total(w, n),
        spec_weight_total(w, n) >= 0,
    decreases n,
{
    if n > 0 {
        lemma_weighted_sum_between(p, w, (n - 1) as nat, axis, lower, upper);
        let k = w[n - 1];
        let c = spec_axis(p[n - 1], axis);
        let t = spec_weight_total(w, (n - 1) as nat);
        assert(lower * (t + k) == lower * t + lower * k && upper * (t + k) == upper * t + upper
            * k && lower * k <= k * c <= upper * k) by (nonlinear_arith)
            requires
                k >= 0,
                lower <= c <= upper,
        ;
    } else {
        assert(lower * 0 == 0 && upper * 0 == 0) by (nonlinear_arith);
    }
}

proof fn lemma_extents_with_common_multiple(a: Extent, b: Extent, total: int, s: int)
    by (nonlinear_arith)
    requires
        total > 0,
        a.unbounded || (a.lower * total <= s && s <= a.upper * total),
        b.unbounded || (b.lower * total <= s && s <= b.upper * total),
    ensures
        a.overlaps(b),
{
}

/// Bounding volumes never hide what the general test finds: where it
/// answers that two hulls intersect, any two volumes that hold the vertices
/// of the one and of the other overlap.
pub proof fn lemma_intersection_within_bounds(
    hull_a: Seq<V3>,
    hull_b: Seq<V3>,
    epsilon: int,
    bound_a: AxisAlignedBBox,
    bound_b: AxisAlignedBBox,
)
    requires
        0 < hull_a.len() <= usize::MAX,
        0 < hull_b.len() <= usize::MAX,
        bound_a.holds_hull(hull_a),
        bound_b.holds_hull(hull_b),
        spec_convex_pair(hull_a, hull_b, epsilon).0,
    ensures
        bound_a.overlaps(bound_b),
{
    lemma_intersection_is_common_point(hull_a, hull_b, epsilon);
    let simplex = spec_gjk(hull_a, hull_b, epsilon)->simplex;
    let w = spec_gjk(hull_a, hull_b, epsilon)->weights;
    let n = w.len();
    let first = spec_first_points(hull_a, simplex);
    let second = spec_second_points(hull_b, simplex);
    let total = spec_weight_total(w, n);
    let sum = spec_weighted_sum(first, w, n);
    assert forall|i: int| 0 <= i < n implies bound_a.holds(
        (#[trigger] first[i]).x,
        first[i].y,
        first[i].z,
    ) by {
        assert(first[i] == hull_a[simplex[i].a as int]);
    }
    assert forall|i: int| 0 <= i < n implies bound_b.holds(
        (#[trigger] second[i]).x,
        second[i].y,
        second[i].z,
    ) by {
        assert(second[i] == hull_b[simplex[i].b as int]);
    }
    if !bound_a.x.unbounded {
        lemma_weighted_sum_between(first, w, n, 0, bound_a.x.lower as int, bound_a.x.upper as int);
    }
    if !bound_b.x.unbounded {
        lemma_weighted_sum_between(second, w, n, 0, bound_b.x.lower as int, bound_b.x.upper as int);
    }
    lemma_extents_with_common_multiple(bound_a.x, bound_b.x, total, sum.x);
    if !bound_a.y.unbounded {
        lemma_weighted_sum_between(first, w, n, 1, bound_a.y.lower as int, bound_a.y.upper as int);
    }
    if !bound_b.y.unbounded {
        lemma_weighted_sum_between(second, w, n, 1, bound_b.y.lower as int, bound_b.y.upper as int);
    }
    lemma_extents_with_common_multiple(bound_a.y, bound_b.y, total, sum.y);
    if !bound_a.z.unbounded {
        lemma_weighted_sum_between(first, w, n, 2, bound_a.z.lower as int, bound_a.z.upper as int);
    }
    if !bound_b.z.unbounded {
        lemma_weighted_sum_between(second, w, n, 2, bound_b.z.lower as int, bound_b.z.upper as int);
    }
    lemma_extents_with_common_multiple(bound_a.z, bound_b.z, total, sum.z);
}

} // verus!
