//! The triangular prism: the convex hull of three or of six vertices.

use crate::bound_aabb::AxisAlignedBBox;
use crate::bigint::BigInt;
use crate::intersect_gjk::{convex_pair, spec_convex_pair};
use crate::sphere::Sphere;
use crate::shape::{precedes, spec_intersect, spec_supported, Shape, ShapeType};
use crate::support::{big_views, extreme_vertex, spec_support_index, unit_views, widen};
use crate::vec3::{point_along, spec_point_along, BigVec3, Vec3, V3};
use crate::vicinity::{magnitude, spec_abs, spec_within, within, DEFAULT_VICINITY};
use vstd::prelude::*;

verus! {

#[derive(Clone, Debug)]
pub struct TriPrism {
    pub _vertices: Vec<Vec3>,
    pub _bound: AxisAlignedBBox,
    pub _vicinity: u64,
}

/// The coordinate of `v` along the axis `k`.
pub open spec fn spec_coord(v: Vec3, k: int) -> i64 {
    if k == 0 {
        v.x
    } else if k == 1 {
        v.y
    } else {
        v.z
    }
}

/// The coordinates of the vertices, one vertex after the other.
pub open spec fn spec_flatten(verts: Seq<Vec3>) -> Seq<i64> {
    Seq::new(3 * verts.len(), |i: int| spec_coord(verts[i / 3], i % 3))
}

/// What of the segment from `a` to `b` and the triangle `a`, `b`, `d` lies
/// within `reach` of the point `c`: the vertex `a`, else the point of the
/// segment nearest to `c` where `c` lies beside the segment, else the point
/// of the triangle nearest to `c` where `c` lies above or below the
/// triangle. The point is rounded down to units.
pub open spec fn spec_feature(a: Vec3, b: Vec3, d: Vec3, c: Vec3, reach: int) -> Option<
    Option<Vec3>,
> {
    let w = c@.minus(a@);
    let e = b@.minus(a@);
    let t = w.dot(e);
    let ee = e.norm2();
    let n = e.cross(d@.minus(a@));
    let nn = n.norm2();
    let k = n.dot(w);
    let band = reach * reach;
    if w.norm2() <= band {
        Some(Some(a))
    } else if 0 < t < ee && w.norm2() * ee - t * t <= band * ee {
        Some(spec_point_along(a@, e, t, ee))
    } else if nn > 0 && n.dot(e.cross(w)) >= 0 && n.dot(d@.minus(b@).cross(c@.minus(b@))) >= 0
        && n.dot(a@.minus(d@).cross(c@.minus(d@))) >= 0 && k * k <= band * nn {
        Some(spec_point_along(c@, n, -k, nn))
    } else {
        None
    }
}

/// The first of the triples of vertices, from the triple at the positions
/// `i`, `j` and `k` on, of which something lies within `reach` of `c`.
pub open spec fn spec_scan(verts: Seq<Vec3>, c: Vec3, reach: int, i: nat, j: nat, k: nat) -> Option<
    Option<Vec3>,
>
    decreases verts.len() - i, verts.len() - j, verts.len() - k,
{
    let n = verts.len();
    if i >= n || j >= n || k >= n {
        None
    } else {
        match spec_feature(verts[i as int], verts[j as int], verts[k as int], c, reach) {
            Some(w) => Some(w),
            None => if k + 1 < n {
                spec_scan(verts, c, reach, i, j, k + 1)
            } else if j + 1 < n {
                spec_scan(verts, c, reach, i, j + 1, 0)
            } else {
                spec_scan(verts, c, reach, i + 1, 0, 0)
            },
        }
    }
}

/// Whether a prism and a sphere intersect: the center lies in the prism, or
/// a vertex, an edge or a triangle between vertices of the prism comes
/// within the radius and the tolerance of the prism of the center. The
/// witness is the center, or the point found nearest to it.
pub open spec fn spec_prism_sphere(t: TriPrism, s: Sphere) -> (bool, Option<Vec3>) {
    if spec_convex_pair(seq![s._ori@], t.spec_hull(), 0).0 {
        (true, Some(s._ori))
    } else {
        match spec_scan(t._vertices@, s._ori, s._radius as int + t._vicinity as int, 0, 0, 0) {
            Some(w) => (true, w),
            None => (false, None),
        }
    }
}

proof fn lemma_wider_band(e: int, f: int, n: int, k: int)
    by (nonlinear_arith)
    requires
        0 <= e <= f,
        0 <= n,
        k <= e * e * n,
    ensures
        k <= f * f * n,
        e * e <= f * f,
{
}

/// What lies within a reach of a point lies within every longer reach.
pub proof fn lemma_wider_feature(a: Vec3, b: Vec3, d: Vec3, c: Vec3, reach: int, longer: int)
    requires
        0 <= reach <= longer,
        spec_feature(a, b, d, c, reach) is Some,
    ensures
        spec_feature(a, b, d, c, longer) is Some,
{
    let w = c@.minus(a@);
    let e = b@.minus(a@);
    let t = w.dot(e);
    let ee = e.norm2();
    let n = e.cross(d@.minus(a@));
    let nn = n.norm2();
    let k = n.dot(w);
    lemma_wider_band(reach, longer, 1, 0);
    if w.norm2() <= reach * reach {
    } else if 0 < t < ee && w.norm2() * ee - t * t <= reach * reach * ee {
        lemma_wider_band(reach, longer, ee, w.norm2() * ee - t * t);
    } else {
        lemma_wider_band(reach, longer, nn, k * k);
    }
}

/// A scan that finds something within a reach finds something within every
/// longer reach.
pub proof fn lemma_wider_scan(
    verts: Seq<Vec3>,
    c: Vec3,
    reach: int,
    longer: int,
    i: nat,
    j: nat,
    k: nat,
)
    requires
        0 <= reach <= longer,
        spec_scan(verts, c, reach, i, j, k) is Some,
    ensures
        spec_scan(verts, c, longer, i, j, k) is Some,
    decreases verts.len() - i, verts.len() - j, verts.len() - k,
{
    let n = verts.len();
    if i < n && j < n && k < n {
        if spec_feature(verts[i as int], verts[j as int], verts[k as int], c, reach) is Some {
            lemma_wider_feature(verts[i as int], verts[j as int], verts[k as int], c, reach, longer);
        } else if spec_feature(verts[i as int], verts[j as int], verts[k as int], c, longer)
            is None {
            if k + 1 < n {
                lemma_wider_scan(verts, c, reach, longer, i, j, k + 1);
            } else if j + 1 < n {
                lemma_wider_scan(verts, c, reach, longer, i, j + 1, 0);
            } else {
                lemma_wider_scan(verts, c, reach, longer, i + 1, 0, 0);
            }
        }
    }
}

fn feature(a: &Vec3, b: &Vec3, d: &Vec3, c: &Vec3, reach: &BigInt, band: &BigInt) -> (r: Option<
    Option<Vec3>,
>)
    requires
        band@ == reach@ * reach@,
    ensures
        r == spec_feature(*a, *b, *d, *c, reach@),
{
    let big_a: BigVec3 = BigVec3::from_vec3(a);
    let big_b: BigVec3 = BigVec3::from_vec3(b);
    let big_d: BigVec3 = BigVec3::from_vec3(d);
    let big_c: BigVec3 = BigVec3::from_vec3(c);
    let w: BigVec3 = big_c.minus(&big_a);
    let e: BigVec3 = big_b.minus(&big_a);
    let t: BigInt = w.dot(&e);
    let ee: BigInt = e.norm2();
    let n: BigVec3 = e.cross(&big_d.minus(&big_a));
    let nn: BigInt = n.norm2();
    let k: BigInt = n.dot(&w);
    let ww: BigInt = w.norm2();
    if ww.le(band) {
        Some(Some(*a))
    } else if t.is_positive() && t.lt(&ee) && ww.mul(&ee).sub(&t.mul(&t)).le(&band.mul(&ee)) {
        Some(point_along(&big_a, &e, &t, &ee))
    } else if nn.is_positive() && !n.dot(&e.cross(&w)).is_negative() && !n.dot(
        &big_d.minus(&big_b).cross(&big_c.minus(&big_b)),
    ).is_negative() && !n.dot(&big_a.minus(&big_d).cross(&big_c.minus(&big_d))).is_negative()
        && k.mul(&k).le(&band.mul(&nn)) {
        Some(point_along(&big_c, &n, &k.neg(), &nn))
    } else {
        None
    }
}

impl TriPrism {
    /// Decides whether the prism and a sphere intersect, by the tolerance of
    /// the prism.
    pub fn intersect_sphere(&self, s: &Sphere) -> (r: (bool, Option<Vec3>))
        requires
            self.wf(),
        ensures
            r == spec_prism_sphere(*self, *s),
    {
        let center: Vec<BigVec3> = vec![BigVec3::from_vec3(&s._ori)];
        assert(big_views(center@) =~= seq![s._ori@]);
        if convex_pair(&center, &self.hull(), 0).0 {
            return (true, Some(s._ori));
        }
        let reach: BigInt = BigInt::from_i64(s._radius).add(&BigInt::from_u64(self._vicinity));
        let band: BigInt = reach.mul(&reach);
        let n: usize = self._vertices.len();
        let mut i: usize = 0;
        let mut j: usize = 0;
        let mut k: usize = 0;
        while i < n
            invariant
                n == self._vertices@.len(),
                n <= 6,
                i <= n,
                i < n ==> j < n && k < n,
                !spec_convex_pair(seq![s._ori@], self.spec_hull(), 0).0,
                band@ == reach@ * reach@,
                reach@ == s._radius as int + self._vicinity as int,
                spec_scan(self._vertices@, s._ori, reach@, 0, 0, 0) == spec_scan(
                    self._vertices@,
                    s._ori,
                    reach@,
                    i as nat,
                    j as nat,
                    k as nat,
                ),
            decreases n - i, n - j, n - k,
        {
            match feature(
                &self._vertices[i],
                &self._vertices[j],
                &self._vertices[k],
                &s._ori,
                &reach,
                &band,
            ) {
                Some(w) => {
                    return (true, w);
                },
                None => {},
            }
            if k + 1 < n {
                k = k + 1;
            } else if j + 1 < n {
                j = j + 1;
                k = 0;
            } else {
                i = i + 1;
                j = 0;
                k = 0;
            }
        }
        (false, None)
    }

    /// Decides whether the prism and another shape intersect, by the general
    /// test on the hulls of the two.
    pub fn get_intersect(&self, other: &Shape) -> (r: (bool, Option<Vec3>))
        requires
            self.wf(),
            other.wf(),
            spec_supported(ShapeType::TriPrism, other.spec_type()),
        ensures
            r == spec_intersect(Shape::TriPrism(*self), *other),
    {
        if !self._bound.intersect(other.get_bound()) {
            return (false, None);
        }
        match other {
            Shape::Point(p) => convex_pair(&p.hull(), &self.hull(), self._vicinity),
            Shape::Ray(s) => {
                if s._dir_given.x == 0 && s._dir_given.y == 0 && s._dir_given.z == 0 {
                    (false, None)
                } else {
                    convex_pair(&s.hull(), &self.hull(), self._vicinity)
                }
            },
            Shape::Sphere(s) => self.intersect_sphere(s),
            Shape::Plane(s) => s.intersect_hull(&self._vertices, self._vicinity),
            Shape::Box(s) => convex_pair(&s.hull(), &self.hull(), self._vicinity),
            Shape::TriPrism(s) => {
                if precedes(
                    &self.get_shape_data(),
                    self._vicinity,
                    &s.get_shape_data(),
                    s._vicinity,
                ) {
                    convex_pair(&self.hull(), &s.hull(), s._vicinity)
                } else {
                    convex_pair(&s.hull(), &self.hull(), self._vicinity)
                }
            },
        }
    }

    /// The values that define the prism: the coordinates of its vertices.
    pub open spec fn spec_shape_data(self) -> Seq<i64> {
        spec_flatten(self._vertices@)
    }

    /// There are three or six vertices, and the bounding volume is the one
    /// of the vertices.
    pub open spec fn wf(self) -> bool {
        &&& (self._vertices@.len() == 3 || self._vertices@.len() == 6)
        &&& self._bound == AxisAlignedBBox::spec_init(ShapeType::TriPrism, self.spec_shape_data())
    }

    /// The vertices of the prism.
    pub open spec fn spec_vertices(self) -> Seq<Vec3> {
        self._vertices@
    }

    /// The hull of the prism: its vertices.
    pub open spec fn spec_hull(self) -> Seq<V3> {
        unit_views(self._vertices@)
    }

    pub fn hull(&self) -> (r: Vec<BigVec3>)
        ensures
            r@.len() == self._vertices@.len(),
            big_views(r@) == self.spec_hull(),
    {
        widen(&self._vertices)
    }

    /// Builds a prism from the coordinates of its three or six vertices.
    pub fn init(vals: &[i64]) -> (r: TriPrism)
        requires
            vals@.len() == 9 || vals@.len() == 18,
        ensures
            r.spec_shape_data() == vals@,
            r._vicinity == DEFAULT_VICINITY,
            r.wf(),
    {
        let count: usize = vals.len() / 3;
        let mut verts: Vec<Vec3> = Vec::new();
        let mut k: usize = 0;
        while k < count
            invariant
                k <= count,
                count <= 6,
                count * 3 == vals@.len(),
                verts@.len() == k,
                forall|i: int|
                    0 <= i < k ==> #[trigger] verts@[i] == (Vec3 {
                        x: vals@[3 * i],
                        y: vals@[3 * i + 1],
                        z: vals@[3 * i + 2],
                    }),
            decreases count - k,
        {
            verts.push(Vec3 { x: vals[3 * k], y: vals[3 * k + 1], z: vals[3 * k + 2] });
            k = k + 1;
        }
        let r = TriPrism {
            _vertices: verts,
            _bound: AxisAlignedBBox::init(ShapeType::TriPrism, vals),
            _vicinity: DEFAULT_VICINITY,
        };
        assert(r.spec_shape_data() =~= vals@) by {
            assert forall|i: int| 0 <= i < vals@.len() implies r.spec_shape_data()[i] == vals@[i] by {
                let q = i / 3;
                assert(r._vertices@[q] == (Vec3 {
                    x: vals@[3 * q],
                    y: vals@[3 * q + 1],
                    z: vals@[3 * q + 2],
                }));
            }
        }
        r
    }

    pub fn get_shape_data(&self) -> (r: Vec<i64>)
        ensures
            r@ == self.spec_shape_data(),
    {
        let n: usize = self._vertices.len();
        let mut r: Vec<i64> = Vec::new();
        let mut k: usize = 0;
        while k < n
            invariant
                k <= n,
                n == self._vertices@.len(),
                r@.len() == 3 * k,
                forall|i: int|
                    0 <= i < 3 * k ==> #[trigger] r@[i] == spec_coord(self._vertices@[i / 3], i % 3),
            decreases n - k,
        {
            let v: Vec3 = self._vertices[k];
            r.push(v.x);
            r.push(v.y);
            r.push(v.z);
            k = k + 1;
        }
        assert(r@ =~= self.spec_shape_data());
        r
    }

    pub fn get_type(&self) -> (r: ShapeType)
        ensures
            r == ShapeType::TriPrism,
    {
        ShapeType::TriPrism
    }

    /// The point of the prism that reaches farthest along `v`: the first of
    /// the vertices that do.
    pub fn get_support(&self, v: &Vec3) -> (r: Option<Vec3>)
        requires
            self.wf(),
        ensures
            r == Some(
                self.spec_vertices()[spec_support_index(
                    unit_views(self.spec_vertices()),
                    v@,
                    self.spec_vertices().len(),
                )],
            ),
    {
        Some(extreme_vertex(&self._vertices, v))
    }

    /// Stores the magnitude of `epsilon` as the tolerance of the shape.
    pub fn set_vicinity(&mut self, epsilon: i64)
        ensures
            *final(self) == (TriPrism { _vicinity: spec_abs(epsilon as int) as u64, ..*old(self) }),
    {
        self._vicinity = magnitude(epsilon);
    }

    /// Whether two scalars are equal within the tolerance of the shape.
    pub fn within_vicinity(&self, a: i64, b: i64) -> (r: bool)
        ensures
            r == spec_within(self._vicinity as int, a as int, b as int),
    {
        within(self._vicinity, a, b)
    }

    pub fn get_bound(&self) -> (r: &AxisAlignedBBox)
        ensures
            *r == self._bound,
    {
        &self._bound
    }
}

} // verus!
