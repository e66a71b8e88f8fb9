//! The closed set of shape variants, and the test of a pair of shapes.
//!
//! A pair is tested in two steps. Where the bounding volumes of the two
//! shapes do not overlap, they do not intersect. Else the pair is arranged
//! by the variants of its shapes, so that either order of the operands leads
//! to the same test: a closed form where one exists, else the general test
//! for convex hulls.

use crate::bound_aabb::AxisAlignedBBox;
use crate::bound_aabb::lemma_axis_range;
use crate::intersect_gjk::{
    lemma_intersection_within_bounds, lemma_single_vertices, spec_convex_pair,
};
use crate::plane::{
    spec_plane_hull, spec_plane_point, spec_plane_ray, spec_plane_sphere, Plane,
};
use crate::point::{spec_point_point, Point3};
use crate::ray::{spec_ray_point, Ray3};
use crate::rbox::{spec_box_sphere, RecBox};
use crate::sphere::{
    spec_sphere_pair, spec_sphere_point, spec_sphere_ray, spec_sphere_sphere, Sphere,
};
use crate::support::unit_views;
use crate::triprism::{
    lemma_wider_scan, spec_coord, spec_flatten, spec_prism_sphere, TriPrism,
};
use crate::vec3::{Vec3, V3};
use crate::vicinity::spec_within;
use vstd::prelude::*;

verus! {

/// The tag of a shape variant.
#[derive(Clone, Copy, Debug, PartialEq, Eq, Structural)]
pub enum ShapeType {
    Point,
    Ray,
    Sphere,
    Plane,
    Box,
    TriPrism,
}

impl ShapeType {
    /// The position of the variant in the order by which a pair of shapes is
    /// arranged before it is tested.
    pub open spec fn spec_rank(self) -> int {
        match self {
            ShapeType::Point => 0,
            ShapeType::Ray => 1,
            ShapeType::Sphere => 2,
            ShapeType::Plane => 3,
            ShapeType::Box => 4,
            ShapeType::TriPrism => 5,
        }
    }

    pub fn rank(&self) -> (r: u8)
        ensures
            r == self.spec_rank(),
    {
        match self {
            ShapeType::Point => 0,
            ShapeType::Ray => 1,
            ShapeType::Sphere => 2,
            ShapeType::Plane => 3,
            ShapeType::Box => 4,
            ShapeType::TriPrism => 5,
        }
    }

    /// Whether a shape of this variant extends without end.
    pub open spec fn spec_is_unbounded(self) -> bool {
        self == ShapeType::Ray || self == ShapeType::Plane
    }

    pub fn is_unbounded(&self) -> (r: bool)
        ensures
            r == self.spec_is_unbounded(),
    {
        match self {
            ShapeType::Ray => true,
            ShapeType::Plane => true,
            _ => false,
        }
    }
}

/// Whether a test exists for a pair of variants: for every pair but that of
/// two planes.
pub open spec fn spec_supported(a: ShapeType, b: ShapeType) -> bool {
    !(a == ShapeType::Plane && b == ShapeType::Plane)
}

/// Decides whether a test exists for a pair of variants.
pub fn supported(a: ShapeType, b: ShapeType) -> (r: bool)
    ensures
        r == spec_supported(a, b),
{
    match (a, b) {
        (ShapeType::Plane, ShapeType::Plane) => false,
        _ => true,
    }
}

/// How the values of two shapes of one variant compare from position `i`
/// on: below zero where the first come first, above where the second do.
pub open spec fn spec_order_from(a: Seq<i64>, b: Seq<i64>, i: int) -> int
    decreases a.len() - i,
{
    if i < 0 || i >= a.len() || i >= b.len() {
        0
    } else if a[i] < b[i] {
        -1
    } else if a[i] > b[i] {
        1
    } else {
        spec_order_from(a, b, i + 1)
    }
}

/// The order by which two shapes of one variant are arranged: by the number
/// of their values, then by the values, then by the tolerance.
pub open spec fn spec_precedes(da: Seq<i64>, ea: u64, db: Seq<i64>, eb: u64) -> bool {
    da.len() < db.len() || (da.len() == db.len() && (spec_order_from(da, db, 0) < 0 || (
    spec_order_from(da, db, 0) == 0 && ea <= eb)))
}

pub proof fn lemma_order_antisymmetric(a: Seq<i64>, b: Seq<i64>, i: int)
    requires
        a.len() == b.len(),
    ensures
        spec_order_from(a, b, i) == -spec_order_from(b, a, i),
    decreases a.len() - i,
{
    if 0 <= i < a.len() && a[i] == b[i] {
        lemma_order_antisymmetric(a, b, i + 1);
    }
}

pub proof fn lemma_order_zero_is_equal(a: Seq<i64>, b: Seq<i64>, i: int)
    requires
        a.len() == b.len(),
        0 <= i,
        spec_order_from(a, b, i) == 0,
    ensures
        forall|j: int| i <= j < a.len() ==> a[j] == b[j],
    decreases a.len() - i,
{
    if i < a.len() {
        lemma_order_zero_is_equal(a, b, i + 1);
    }
}

/// Of two shapes of one variant at least one precedes the other, and where
/// each precedes the other they have the same values and tolerance.
pub proof fn lemma_precedes_total(da: Seq<i64>, ea: u64, db: Seq<i64>, eb: u64)
    ensures
        spec_precedes(da, ea, db, eb) || spec_precedes(db, eb, da, ea),
        spec_precedes(da, ea, db, eb) && spec_precedes(db, eb, da, ea) ==> da == db && ea == eb,
{
    if da.len() == db.len() {
        lemma_order_antisymmetric(da, db, 0);
        if spec_order_from(da, db, 0) == 0 {
            lemma_order_zero_is_equal(da, db, 0);
            assert(da =~= db);
        }
    }
}

/// Decides which of two shapes of one variant comes first.
pub fn precedes(da: &Vec<i64>, ea: u64, db: &Vec<i64>, eb: u64) -> (r: bool)
    ensures
        r == spec_precedes(da@, ea, db@, eb),
{
    if da.len() != db.len() {
        return da.len() < db.len();
    }
    let n: usize = da.len();
    let mut i: usize = 0;
    while i < n
        invariant
            i <= n,
            n == da@.len(),
            n == db@.len(),
            spec_order_from(da@, db@, 0) == spec_order_from(da@, db@, i as int),
        decreases n - i,
    {
        if da[i] < db[i] {
            return true;
        }
        if da[i] > db[i] {
            return false;
        }
        i = i + 1;
    }
    ea <= eb
}

/// A shape of any variant.
#[derive(Clone, Debug)]
pub enum Shape {
    Point(Point3),
    Ray(Ray3),
    Sphere(Sphere),
    Plane(Plane),
    Box(RecBox),
    TriPrism(TriPrism),
}

/// What the general test answers for a ray and a hull. A ray whose
/// direction is zero meets nothing.
pub open spec fn spec_ray_hull(ray: Ray3, hull: Seq<V3>, epsilon: int) -> (bool, Option<Vec3>) {
    if ray._dir_given@.is_zero() {
        (false, None)
    } else {
        spec_convex_pair(ray.spec_hull(), hull, epsilon)
    }
}

/// What the general test answers for two hulls of one variant, the one that
/// precedes the other first, by the tolerance of the second.
pub open spec fn spec_arranged_pair(
    hull_a: Seq<V3>,
    data_a: Seq<i64>,
    epsilon_a: u64,
    hull_b: Seq<V3>,
    data_b: Seq<i64>,
    epsilon_b: u64,
) -> (bool, Option<Vec3>) {
    if spec_precedes(data_a, epsilon_a, data_b, epsilon_b) {
        spec_convex_pair(hull_a, hull_b, epsilon_b as int)
    } else {
        spec_convex_pair(hull_b, hull_a, epsilon_a as int)
    }
}

/// The test of a pair of shapes whose bounding volumes overlap.
pub open spec fn spec_pair(a: Shape, b: Shape) -> (bool, Option<Vec3>) {
    match (a, b) {
        (Shape::Point(p), Shape::Point(q)) => spec_point_point(p, q),
        (Shape::Point(p), Shape::Ray(r)) => spec_ray_point(r, p),
        (Shape::Ray(r), Shape::Point(p)) => spec_ray_point(r, p),
        (Shape::Point(p), Shape::Sphere(s)) => spec_sphere_point(s, p),
        (Shape::Sphere(s), Shape::Point(p)) => spec_sphere_point(s, p),
        (Shape::Point(p), Shape::Plane(l)) => spec_plane_point(l, p),
        (Shape::Plane(l), Shape::Point(p)) => spec_plane_point(l, p),
        (Shape::Ray(r), Shape::Ray(q)) => {
            if r._dir_given@.is_zero() || q._dir_given@.is_zero() {
                (false, None)
            } else {
                spec_arranged_pair(
                    r.spec_hull(),
                    r.spec_given_data(),
                    r._vicinity,
                    q.spec_hull(),
                    q.spec_given_data(),
                    q._vicinity,
                )
            }
        },
        (Shape::Ray(r), Shape::Sphere(s)) => spec_sphere_ray(s, r),
        (Shape::Sphere(s), Shape::Ray(r)) => spec_sphere_ray(s, r),
        (Shape::Sphere(s), Shape::Sphere(t)) => spec_sphere_pair(s, t),
        (Shape::Sphere(s), Shape::TriPrism(t)) => spec_prism_sphere(t, s),
        (Shape::TriPrism(t), Shape::Sphere(s)) => spec_prism_sphere(t, s),
        (Shape::Sphere(s), Shape::Box(x)) => spec_box_sphere(x, s),
        (Shape::Box(x), Shape::Sphere(s)) => spec_box_sphere(x, s),
        (Shape::Plane(l), Shape::Box(x)) => spec_plane_hull(
            l,
            x.spec_vertices(),
            x._vicinity as int,
        ),
        (Shape::Box(x), Shape::Plane(l)) => spec_plane_hull(
            l,
            x.spec_vertices(),
            x._vicinity as int,
        ),
        (Shape::Plane(l), Shape::TriPrism(t)) => spec_plane_hull(
            l,
            t.spec_vertices(),
            t._vicinity as int,
        ),
        (Shape::TriPrism(t), Shape::Plane(l)) => spec_plane_hull(
            l,
            t.spec_vertices(),
            t._vicinity as int,
        ),
        (Shape::Ray(r), Shape::Plane(l)) => spec_plane_ray(l, r),
        (Shape::Plane(l), Shape::Ray(r)) => spec_plane_ray(l, r),
        (Shape::Sphere(s), Shape::Plane(l)) => spec_plane_sphere(l, s),
        (Shape::Plane(l), Shape::Sphere(s)) => spec_plane_sphere(l, s),
        (Shape::Point(p), Shape::Box(x)) => spec_convex_pair(
            p.spec_hull(),
            x.spec_hull(),
            x._vicinity as int,
        ),
        (Shape::Box(x), Shape::Point(p)) => spec_convex_pair(
            p.spec_hull(),
            x.spec_hull(),
            x._vicinity as int,
        ),
        (Shape::Point(p), Shape::TriPrism(t)) => spec_convex_pair(
            p.spec_hull(),
            t.spec_hull(),
            t._vicinity as int,
        ),
        (Shape::TriPrism(t), Shape::Point(p)) => spec_convex_pair(
            p.spec_hull(),
            t.spec_hull(),
            t._vicinity as int,
        ),
        (Shape::Ray(r), Shape::Box(x)) => spec_ray_hull(r, x.spec_hull(), x._vicinity as int),
        (Shape::Box(x), Shape::Ray(r)) => spec_ray_hull(r, x.spec_hull(), x._vicinity as int),
        (Shape::Ray(r), Shape::TriPrism(t)) => spec_ray_hull(
            r,
            t.spec_hull(),
            t._vicinity as int,
        ),
        (Shape::TriPrism(t), Shape::Ray(r)) => spec_ray_hull(
            r,
            t.spec_hull(),
            t._vicinity as int,
        ),
        (Shape::Box(x), Shape::TriPrism(t)) => spec_convex_pair(
            x.spec_hull(),
            t.spec_hull(),
            t._vicinity as int,
        ),
        (Shape::TriPrism(t), Shape::Box(x)) => spec_convex_pair(
            x.spec_hull(),
            t.spec_hull(),
            t._vicinity as int,
        ),
        (Shape::Box(x), Shape::Box(y)) => spec_arranged_pair(
            x.spec_hull(),
            x.spec_shape_data(),
            x._vicinity,
            y.spec_hull(),
            y.spec_shape_data(),
            y._vicinity,
        ),
        (Shape::TriPrism(t), Shape::TriPrism(u)) => spec_arranged_pair(
            t.spec_hull(),
            t.spec_shape_data(),
            t._vicinity,
            u.spec_hull(),
            u.spec_shape_data(),
            u._vicinity,
        ),
        _ => (false, None),
    }
}

/// The result of testing a pair of shapes: whether they intersect, and a
/// witness point where they do and one is at hand.
pub open spec fn spec_intersect(a: Shape, b: Shape) -> (bool, Option<Vec3>) {
    if !a.spec_bound().overlaps(b.spec_bound()) {
        (false, None)
    } else {
        spec_pair(a, b)
    }
}

impl Shape {
    pub open spec fn spec_type(self) -> ShapeType {
        match self {
            Shape::Point(_) => ShapeType::Point,
            Shape::Ray(_) => ShapeType::Ray,
            Shape::Sphere(_) => ShapeType::Sphere,
            Shape::Plane(_) => ShapeType::Plane,
            Shape::Box(_) => ShapeType::Box,
            Shape::TriPrism(_) => ShapeType::TriPrism,
        }
    }

    pub open spec fn spec_bound(self) -> AxisAlignedBBox {
        match self {
            Shape::Point(s) => s._bound,
            Shape::Ray(s) => s._bound,
            Shape::Sphere(s) => s._bound,
            Shape::Plane(s) => s._bound,
            Shape::Box(s) => s._bound,
            Shape::TriPrism(s) => s._bound,
        }
    }

    pub open spec fn spec_vicinity(self) -> u64 {
        match self {
            Shape::Point(s) => s._vicinity,
            Shape::Ray(s) => s._vicinity,
            Shape::Sphere(s) => s._vicinity,
            Shape::Plane(s) => s._vicinity,
            Shape::Box(s) => s._vicinity,
            Shape::TriPrism(s) => s._vicinity,
        }
    }

    pub open spec fn spec_shape_data(self) -> Seq<i64> {
        match self {
            Shape::Point(s) => s.spec_shape_data(),
            Shape::Ray(s) => s.spec_shape_data(),
            Shape::Sphere(s) => s.spec_shape_data(),
            Shape::Plane(s) => s.spec_shape_data(),
            Shape::Box(s) => s.spec_shape_data(),
            Shape::TriPrism(s) => s.spec_shape_data(),
        }
    }

    /// The shape is one that its constructor could have built.
    pub open spec fn wf(self) -> bool {
        match self {
            Shape::Point(s) => s.wf(),
            Shape::Ray(s) => s.wf(),
            Shape::Sphere(s) => s.wf(),
            Shape::Plane(s) => s.wf(),
            Shape::Box(s) => s.wf(),
            Shape::TriPrism(s) => s.wf(),
        }
    }

    /// Whether the shape is one that the general test takes: a point, a
    /// ray, a box or a prism.
    pub open spec fn spec_has_hull(self) -> bool {
        self is Point || self is Ray || self is Box || self is TriPrism
    }

    /// The vertices of the hull that stands for the shape in the general
    /// test.
    pub open spec fn spec_hull(self) -> Seq<V3> {
        match self {
            Shape::Point(s) => s.spec_hull(),
            Shape::Ray(s) => s.spec_hull(),
            Shape::Box(s) => s.spec_hull(),
            Shape::TriPrism(s) => s.spec_hull(),
            _ => Seq::empty(),
        }
    }

    /// The shape with another tolerance.
    pub open spec fn spec_with_vicinity(self, epsilon: u64) -> Shape {
        match self {
            Shape::Point(s) => Shape::Point(Point3 { _vicinity: epsilon, ..s }),
            Shape::Ray(s) => Shape::Ray(Ray3 { _vicinity: epsilon, ..s }),
            Shape::Sphere(s) => Shape::Sphere(Sphere { _vicinity: epsilon, ..s }),
            Shape::Plane(s) => Shape::Plane(Plane { _vicinity: epsilon, ..s }),
            Shape::Box(s) => Shape::Box(RecBox { _vicinity: epsilon, ..s }),
            Shape::TriPrism(s) => Shape::TriPrism(TriPrism { _vicinity: epsilon, ..s }),
        }
    }

    pub fn get_type(&self) -> (r: ShapeType)
        ensures
            r == self.spec_type(),
    {
        match self {
            Shape::Point(_) => ShapeType::Point,
            Shape::Ray(_) => ShapeType::Ray,
            Shape::Sphere(_) => ShapeType::Sphere,
            Shape::Plane(_) => ShapeType::Plane,
            Shape::Box(_) => ShapeType::Box,
            Shape::TriPrism(_) => ShapeType::TriPrism,
        }
    }

    pub fn get_bound(&self) -> (r: &AxisAlignedBBox)
        ensures
            *r == self.spec_bound(),
    {
        match self {
            Shape::Point(s) => s.get_bound(),
            Shape::Ray(s) => s.get_bound(),
            Shape::Sphere(s) => s.get_bound(),
            Shape::Plane(s) => s.get_bound(),
            Shape::Box(s) => s.get_bound(),
            Shape::TriPrism(s) => s.get_bound(),
        }
    }

    pub fn get_shape_data(&self) -> (r: Vec<i64>)
        ensures
            r@ == self.spec_shape_data(),
    {
        match self {
            Shape::Point(s) => s.get_shape_data(),
            Shape::Ray(s) => s.get_shape_data(),
            Shape::Sphere(s) => s.get_shape_data(),
            Shape::Plane(s) => s.get_shape_data(),
            Shape::Box(s) => s.get_shape_data(),
            Shape::TriPrism(s) => s.get_shape_data(),
        }
    }

    /// The point of the shape that reaches farthest along `v`, as the
    /// variant of the shape defines it. There is none where the shape has no
    /// farthest point along `v`.
    pub fn get_support(&self, v: &Vec3) -> (r: Option<Vec3>)
        requires
            self.wf(),
        ensures
            match *self {
                Shape::Point(s) => r == Some(s._ori),
                Shape::Ray(s) => r == (if s._dir_given@.dot(v@) <= 0 {
                    Some(s._ori)
                } else {
                    None
                }),
                Shape::Sphere(s) => crate::sphere::spec_is_support(s, *v, r),
                Shape::Plane(s) => r == None::<Vec3>,
                Shape::Box(s) => r == Some(
                    s.spec_vertices()[crate::support::spec_support_index(
                        unit_views(s.spec_vertices()),
                        v@,
                        8,
                    )],
                ),
                Shape::TriPrism(s) => r == Some(
                    s.spec_vertices()[crate::support::spec_support_index(
                        unit_views(s.spec_vertices()),
                        v@,
                        s.spec_vertices().len(),
                    )],
                ),
            },
    {
        match self {
            Shape::Point(s) => s.get_support(v),
            Shape::Ray(s) => s.get_support(v),
            Shape::Sphere(s) => s.get_support(v),
            Shape::Plane(s) => s.get_support(v),
            Shape::Box(s) => s.get_support(v),
            Shape::TriPrism(s) => s.get_support(v),
        }
    }

    /// Whether two scalars are equal within the tolerance of the shape.
    pub fn within_vicinity(&self, a: i64, b: i64) -> (r: bool)
        ensures
            r == spec_within(self.spec_vicinity() as int, a as int, b as int),
    {
        match self {
            Shape::Point(s) => s.within_vicinity(a, b),
            Shape::Ray(s) => s.within_vicinity(a, b),
            Shape::Sphere(s) => s.within_vicinity(a, b),
            Shape::Plane(s) => s.within_vicinity(a, b),
            Shape::Box(s) => s.within_vicinity(a, b),
            Shape::TriPrism(s) => s.within_vicinity(a, b),
        }
    }

    /// Decides whether the shape and another intersect, and gives a witness
    /// point where they do and one is at hand.
    pub fn get_intersect(&self, other: &Shape) -> (r: (bool, Option<Vec3>))
        requires
            self.wf(),
            other.wf(),
            spec_supported(self.spec_type(), other.spec_type()),
        ensures
            r == spec_intersect(*self, *other),
    {
        match self {
            Shape::Point(s) => s.get_intersect(other),
            Shape::Ray(s) => s.get_intersect(other),
            Shape::Sphere(s) => s.get_intersect(other),
            Shape::Plane(s) => s.get_intersect(other),
            Shape::Box(s) => s.get_intersect(other),
            Shape::TriPrism(s) => s.get_intersect(other),
        }
    }
}

/// Vertices with the same coordinates are the same vertices.
pub proof fn lemma_flatten_is_injective(v: Seq<Vec3>, w: Seq<Vec3>)
    requires
        spec_flatten(v) == spec_flatten(w),
    ensures
        v == w,
{
    assert(spec_flatten(v).len() == 3 * v.len());
    assert(spec_flatten(w).len() == 3 * w.len());
    assert(v.len() == w.len());
    assert forall|i: int| 0 <= i < v.len() implies v[i] == w[i] by {
        assert((3 * i) / 3 == i && (3 * i) % 3 == 0);
        assert((3 * i + 1) / 3 == i && (3 * i + 1) % 3 == 1);
        assert((3 * i + 2) / 3 == i && (3 * i + 2) % 3 == 2);
        assert(spec_flatten(v)[3 * i] == v[i].x);
        assert(spec_flatten(v)[3 * i + 1] == v[i].y);
        assert(spec_flatten(v)[3 * i + 2] == v[i].z);
        assert(spec_flatten(w)[3 * i] == w[i].x);
        assert(spec_flatten(w)[3 * i + 1] == w[i].y);
        assert(spec_flatten(w)[3 * i + 2] == w[i].z);
    }
    assert(v =~= w);
}

/// The order of the operands does not matter: a pair of shapes gives the
/// same answer and the same witness either way.
pub proof fn lemma_intersect_commutes(a: Shape, b: Shape)
    requires
        a.wf(),
        b.wf(),
    ensures
        spec_intersect(a, b) == spec_intersect(b, a),
{
    if a.spec_bound().overlaps(b.spec_bound()) {
        match (a, b) {
            (Shape::Point(p), Shape::Point(q)) => {
                assert(p.spec_shape_data()[0] == p._ori.x);
                assert(p.spec_shape_data()[1] == p._ori.y);
                assert(p.spec_shape_data()[2] == p._ori.z);
                assert(q.spec_shape_data()[0] == q._ori.x);
                assert(q.spec_shape_data()[1] == q._ori.y);
                assert(q.spec_shape_data()[2] == q._ori.z);
                assert(p._ori == q._ori);
            },
            (Shape::Box(x), Shape::Box(y)) => {
                lemma_precedes_total(
                    x.spec_shape_data(),
                    x._vicinity,
                    y.spec_shape_data(),
                    y._vicinity,
                );
                if x.spec_shape_data() == y.spec_shape_data() {
                    assert(x.spec_shape_data()[0] == y.spec_shape_data()[0]);
                    assert(x.spec_shape_data()[1] == y.spec_shape_data()[1]);
                    assert(x.spec_shape_data()[2] == y.spec_shape_data()[2]);
                    assert(x.spec_shape_data()[3] == y.spec_shape_data()[3]);
                    assert(x.spec_shape_data()[4] == y.spec_shape_data()[4]);
                    assert(x.spec_shape_data()[5] == y.spec_shape_data()[5]);
                    assert(x._ori == y._ori && x._size == y._size);
                }
            },
            (Shape::Sphere(x), Shape::Sphere(y)) => {
                lemma_precedes_total(
                    x.spec_shape_data(),
                    x._vicinity,
                    y.spec_shape_data(),
                    y._vicinity,
                );
                if x.spec_shape_data() == y.spec_shape_data() {
                    assert(x.spec_shape_data()[0] == y.spec_shape_data()[0]);
                    assert(x.spec_shape_data()[1] == y.spec_shape_data()[1]);
                    assert(x.spec_shape_data()[2] == y.spec_shape_data()[2]);
                    assert(x.spec_shape_data()[3] == y.spec_shape_data()[3]);
                    assert(x._ori == y._ori && x._radius == y._radius);
                }
            },
            (Shape::Ray(x), Shape::Ray(y)) => {
                lemma_precedes_total(
                    x.spec_given_data(),
                    x._vicinity,
                    y.spec_given_data(),
                    y._vicinity,
                );
                if x.spec_given_data() == y.spec_given_data() {
                    assert(x.spec_given_data()[0] == y.spec_given_data()[0]);
                    assert(x.spec_given_data()[1] == y.spec_given_data()[1]);
                    assert(x.spec_given_data()[2] == y.spec_given_data()[2]);
                    assert(x.spec_given_data()[3] == y.spec_given_data()[3]);
                    assert(x.spec_given_data()[4] == y.spec_given_data()[4]);
                    assert(x.spec_given_data()[5] == y.spec_given_data()[5]);
                    assert(x._ori == y._ori && x._dir_given == y._dir_given);
                }
            },
            (Shape::TriPrism(t), Shape::TriPrism(u)) => {
                lemma_precedes_total(
                    t.spec_shape_data(),
                    t._vicinity,
                    u.spec_shape_data(),
                    u._vicinity,
                );
                if t.spec_shape_data() == u.spec_shape_data() {
                    lemma_flatten_is_injective(t._vertices@, u._vertices@);
                }
            },
            _ => {},
        }
    }
}

/// Two shapes whose bounding volumes do not overlap do not intersect.
pub proof fn lemma_disjoint_bounds_do_not_intersect(a: Shape, b: Shape)
    requires
        !a.spec_bound().overlaps(b.spec_bound()),
    ensures
        spec_intersect(a, b) == (false, None::<Vec3>),
        spec_intersect(b, a) == (false, None::<Vec3>),
{
}

/// Whether a pair of variants is tested by a closed form rather than by the
/// general test.
pub open spec fn spec_closed_form(a: ShapeType, b: ShapeType) -> bool {
    match (a, b) {
        (ShapeType::Point, ShapeType::Point) => true,
        (ShapeType::Point, ShapeType::Ray) => true,
        (ShapeType::Ray, ShapeType::Point) => true,
        (ShapeType::Point, ShapeType::Sphere) => true,
        (ShapeType::Sphere, ShapeType::Point) => true,
        (ShapeType::Point, ShapeType::Plane) => true,
        (ShapeType::Plane, ShapeType::Point) => true,
        (ShapeType::Ray, ShapeType::Sphere) => true,
        (ShapeType::Sphere, ShapeType::Ray) => true,
        (ShapeType::Ray, ShapeType::Plane) => true,
        (ShapeType::Plane, ShapeType::Ray) => true,
        (ShapeType::Sphere, ShapeType::Sphere) => true,
        (ShapeType::Sphere, ShapeType::Plane) => true,
        (ShapeType::Plane, ShapeType::Sphere) => true,
        (ShapeType::Sphere, ShapeType::Box) => true,
        (ShapeType::Box, ShapeType::Sphere) => true,
        (ShapeType::Sphere, ShapeType::TriPrism) => true,
        (ShapeType::TriPrism, ShapeType::Sphere) => true,
        (ShapeType::Plane, ShapeType::Box) => true,
        (ShapeType::Box, ShapeType::Plane) => true,
        (ShapeType::Plane, ShapeType::TriPrism) => true,
        (ShapeType::TriPrism, ShapeType::Plane) => true,
        _ => false,
    }
}

proof fn lemma_wider_square(e: int, f: int, n: int, k: int)
    by (nonlinear_arith)
    requires
        0 <= e <= f,
        0 <= n,
        k <= e * e * n,
    ensures
        k <= f * f * n,
{
}

proof fn lemma_wider_reach(e: int, f: int, k: int)
    by (nonlinear_arith)
    requires
        0 <= e <= f,
        k <= e * e,
    ensures
        k <= f * f,
{
}

proof fn lemma_norm2_nonnegative(v: V3)
    ensures
        v.norm2() >= 0,
{
    assert(v.x * v.x >= 0) by (nonlinear_arith);
    assert(v.y * v.y >= 0) by (nonlinear_arith);
    assert(v.z * v.z >= 0) by (nonlinear_arith);
}

proof fn lemma_norm2_of_opposite(v: V3, w: V3)
    ensures
        v.minus(w).norm2() == w.minus(v).norm2(),
{
    assert((v.x - w.x) * (v.x - w.x) == (w.x - v.x) * (w.x - v.x)) by (nonlinear_arith);
    assert((v.y - w.y) * (v.y - w.y) == (w.y - v.y) * (w.y - v.y)) by (nonlinear_arith);
    assert((v.z - w.z) * (v.z - w.z) == (w.z - v.z) * (w.z - v.z)) by (nonlinear_arith);
}

proof fn lemma_wider_shell(r: int, e: int, f: int, m: int)
    by (nonlinear_arith)
    requires
        0 <= r,
        0 <= e <= f,
        m <= (r + e) * (r + e),
        r - e <= 0 || (r - e) * (r - e) <= m,
    ensures
        m <= (r + f) * (r + f),
        r - f <= 0 || (r - f) * (r - f) <= m,
{
}

proof fn lemma_wider_plane_hull(l: Plane, verts: Seq<Vec3>, e: int, f: int)
    requires
        0 <= e <= f,
        spec_plane_hull(l, verts, e).0,
    ensures
        spec_plane_hull(l, verts, f).0,
{
    let n = l._normal_given@;
    let hull = unit_views(verts);
    let low = verts[crate::support::spec_support_index(hull, n.negated(), hull.len())];
    let high = verts[crate::support::spec_support_index(hull, n, hull.len())];
    let s_low = n.dot(low@.minus(l._offset@));
    let s_high = n.dot(high@.minus(l._offset@));
    lemma_norm2_nonnegative(n);
    if s_low > 0 {
        lemma_wider_square(e, f, n.norm2(), s_low * s_low);
    } else if s_high < 0 {
        lemma_wider_square(e, f, n.norm2(), s_high * s_high);
    }
}

proof fn lemma_wider_sphere_sphere(x: Sphere, y: Sphere, e: int, f: int)
    requires
        x.wf(),
        y.wf(),
        0 <= e <= f,
        spec_sphere_sphere(x, y, e).0,
    ensures
        spec_sphere_sphere(x, y, f).0,
        spec_sphere_sphere(y, x, f).0,
{
    let radii = x._radius as int + y._radius as int;
    lemma_wider_reach(radii + e, radii + f, y._ori@.minus(x._ori@).norm2());
    lemma_norm2_of_opposite(y._ori@, x._ori@);
}

/// A wider tolerance never takes an intersection away: a pair that a closed
/// form finds to intersect still does after the tolerance of one of its
/// shapes has grown.
pub proof fn lemma_wider_tolerance_keeps_intersection(a: Shape, b: Shape, wider: u64)
    requires
        a.wf(),
        b.wf(),
        spec_closed_form(a.spec_type(), b.spec_type()),
        a.spec_vicinity() <= wider,
        spec_intersect(a, b).0,
    ensures
        spec_intersect(a.spec_with_vicinity(wider), b).0,
        spec_intersect(b, a.spec_with_vicinity(wider)).0,
{
    let e = a.spec_vicinity() as int;
    let f = wider as int;
    match (a, b) {
        (Shape::Ray(r), Shape::Point(p)) => {
            let d = r._dir_given@;
            let w = p._ori@.minus(r._ori@);
            let t = w.dot(d);
            lemma_norm2_nonnegative(d);
            lemma_wider_square(e, f, d.norm2(), w.norm2() * d.norm2() - t * t);
        },
        (Shape::Plane(l), Shape::Point(p)) => {
            let n = l._normal_given@;
            let k = n.dot(l._offset@.minus(p._ori@));
            lemma_norm2_nonnegative(n);
            lemma_wider_square(e, f, n.norm2(), k * k);
        },
        (Shape::Sphere(s), Shape::Point(p)) => {
            let m = p._ori@.minus(s._ori@).norm2();
            lemma_wider_shell(s._radius as int, e, f, m);
        },
        (Shape::Plane(l), Shape::Ray(r)) => {
            let n = l._normal_given@;
            let k = n.dot(l._offset@.minus(r._ori@));
            lemma_norm2_nonnegative(n);
            if k * k <= e * e * n.norm2() {
                lemma_wider_square(e, f, n.norm2(), k * k);
            }
        },
        (Shape::Plane(l), Shape::Sphere(s)) => {
            let n = l._normal_given@;
            let k = n.dot(s._ori@.minus(l._offset@));
            lemma_norm2_nonnegative(n);
            lemma_wider_square(s._radius as int + e, s._radius as int + f, n.norm2(), k * k);
        },
        (Shape::Sphere(s), Shape::Ray(r)) => {
            let d = r._dir_given@;
            let w = s._ori@.minus(r._ori@);
            let t = w.dot(d);
            lemma_norm2_nonnegative(d);
            if t <= 0 {
                lemma_wider_reach(s._radius as int + e, s._radius as int + f, w.norm2());
            } else {
                lemma_wider_square(
                    s._radius as int + e,
                    s._radius as int + f,
                    d.norm2(),
                    w.norm2() * d.norm2() - t * t,
                );
            }
        },
        (Shape::Sphere(x), Shape::Sphere(y)) => {
            let wide = Sphere { _vicinity: wider, ..x };
            if spec_precedes(x.spec_shape_data(), x._vicinity, y.spec_shape_data(), y._vicinity) {
                lemma_wider_sphere_sphere(x, y, y._vicinity as int, y._vicinity as int);
                if !spec_precedes(
                    wide.spec_shape_data(),
                    wider,
                    y.spec_shape_data(),
                    y._vicinity,
                ) {
                    lemma_wider_sphere_sphere(x, y, y._vicinity as int, f);
                }
            } else {
                lemma_wider_sphere_sphere(y, x, e, f);
            }
        },
        (Shape::Box(x), Shape::Sphere(s)) => {
            let near = crate::rbox::spec_box_sphere(x, s).1->Some_0;
            lemma_wider_reach(
                s._radius as int + e,
                s._radius as int + f,
                s._ori@.minus(near@).norm2(),
            );
        },
        (Shape::Box(x), Shape::Plane(l)) => {
            lemma_wider_plane_hull(l, x.spec_vertices(), e, f);
        },
        (Shape::TriPrism(t), Shape::Sphere(x)) => {
            if !spec_convex_pair(seq![x._ori@], t.spec_hull(), 0).0 {
                lemma_wider_scan(
                    t._vertices@,
                    x._ori,
                    x._radius as int + e,
                    x._radius as int + f,
                    0,
                    0,
                    0,
                );
            }
        },
        (Shape::TriPrism(t), Shape::Plane(l)) => {
            lemma_wider_plane_hull(l, t.spec_vertices(), e, f);
        },
        _ => {},
    }
    lemma_intersect_commutes(a.spec_with_vicinity(wider), b);
}

/// For two points the closed form and the general test agree, on the
/// answer and on the witness, whatever the tolerance of the general test.
pub proof fn lemma_points_agree_with_general_test(a: Point3, b: Point3, epsilon: u64)
    requires
        a.wf(),
        b.wf(),
    ensures
        spec_intersect(Shape::Point(a), Shape::Point(b)) == spec_convex_pair(
            a.spec_hull(),
            b.spec_hull(),
            epsilon as int,
        ),
{
    lemma_single_vertices(a._ori, b._ori, epsilon as int);
    assert(a.spec_shape_data()[0] == a._ori.x);
    assert(a.spec_shape_data()[1] == a._ori.y);
    assert(a.spec_shape_data()[2] == a._ori.z);
    assert(b.spec_shape_data()[0] == b._ori.x);
    assert(b.spec_shape_data()[1] == b._ori.y);
    assert(b.spec_shape_data()[2] == b._ori.z);
}

/// The bounding volume of a shape holds every vertex of its hull.
pub proof fn lemma_bound_holds_hull(a: Shape)
    requires
        a.wf(),
        a.spec_has_hull(),
    ensures
        a.spec_bound().holds_hull(a.spec_hull()),
{
    let bound = a.spec_bound();
    let hull = a.spec_hull();
    match a {
        Shape::Point(p) => {
            assert(p.spec_shape_data()[0] == p._ori.x);
            assert(p.spec_shape_data()[1] == p._ori.y);
            assert(p.spec_shape_data()[2] == p._ori.z);
        },
        Shape::Ray(r) => {
            let data = r.spec_given_data();
            assert(data[0] == r._ori.x && data[1] == r._ori.y && data[2] == r._ori.z);
            assert(data[3] == r._dir_given.x && data[4] == r._dir_given.y && data[5] == r._dir_given.z);
        },
        Shape::Box(x) => {
            let data = x.spec_shape_data();
            assert(data[0] == x._ori.x && data[1] == x._ori.y && data[2] == x._ori.z);
            assert(data[3] == x._size.x && data[4] == x._size.y && data[5] == x._size.z);
            let corners = x.spec_vertices();
            assert forall|i: int| 0 <= i < hull.len() implies bound.holds(
                (#[trigger] hull[i]).x,
                hull[i].y,
                hull[i].z,
            ) by {
                assert(hull[i] == corners[i]@);
            }
        },
        Shape::TriPrism(t) => {
            let verts = t._vertices@;
            let vals = spec_flatten(verts);
            let count = (vals.len() / 3) as nat;
            assert(count == verts.len());
            assert forall|i: int| 0 <= i < hull.len() implies bound.holds(
                (#[trigger] hull[i]).x,
                hull[i].y,
                hull[i].z,
            ) by {
                assert(hull[i] == verts[i]@);
                assert((3 * i) / 3 == i && (3 * i) % 3 == 0);
                assert((3 * i + 1) / 3 == i && (3 * i + 1) % 3 == 1);
                assert((3 * i + 2) / 3 == i && (3 * i + 2) % 3 == 2);
                assert(vals[3 * i] == spec_coord(verts[i], 0));
                assert(vals[3 * i + 1] == spec_coord(verts[i], 1));
                assert(vals[3 * i + 2] == spec_coord(verts[i], 2));
                lemma_axis_range(vals, 0, count, i);
                lemma_axis_range(vals, 1, count, i);
                lemma_axis_range(vals, 2, count, i);
            }
        },
        _ => {},
    }
}

/// Bounding volumes hide nothing from the general test: where it answers
/// that the hulls of two shapes intersect, the bounding volumes of the two
/// shapes overlap, so that leaving the pair at the bounding volumes never
/// loses an intersection.
pub proof fn lemma_bounds_hide_nothing(a: Shape, b: Shape, epsilon: int)
    requires
        a.wf(),
        b.wf(),
        a.spec_has_hull(),
        b.spec_has_hull(),
        spec_convex_pair(a.spec_hull(), b.spec_hull(), epsilon).0,
    ensures
        a.spec_bound().overlaps(b.spec_bound()),
{
    lemma_bound_holds_hull(a);
    lemma_bound_holds_hull(b);
    lemma_intersection_within_bounds(
        a.spec_hull(),
        b.spec_hull(),
        epsilon,
        a.spec_bound(),
        b.spec_bound(),
    );
}

} // verus!
