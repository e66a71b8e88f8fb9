//! The point: a position, and the degenerate hull of a single vertex.

use crate::bound_aabb::AxisAlignedBBox;
use crate::shape::{spec_intersect, spec_supported, Shape, ShapeType};
use crate::vec3::{BigVec3, Vec3, V3};
use crate::vicinity::{magnitude, spec_abs, spec_within, within, DEFAULT_VICINITY};
use vstd::prelude::*;

verus! {

#[derive(Clone, Copy, Debug)]
pub struct Point3 {
    pub _ori: Vec3,
    pub _bound: AxisAlignedBBox,
    pub _vicinity: u64,
}

/// Whether two points intersect: each coordinate of the first is within the
/// tolerance of the first point of that coordinate of the second. The
/// witness is the first point.
pub open spec fn spec_point_point(a: Point3, b: Point3) -> (bool, Option<Vec3>) {
    if spec_within(a._vicinity as int, a._ori.x as int, b._ori.x as int) && spec_within(
        a._vicinity as int,
        a._ori.y as int,
        b._ori.y as int,
    ) && spec_within(a._vicinity as int, a._ori.z as int, b._ori.z as int) {
        (true, Some(a._ori))
    } else {
        (false, None)
    }
}

impl Point3 {
    /// The hull of the point: its position alone.
    pub open spec fn spec_hull(self) -> Seq<V3> {
        seq![self._ori@]
    }

    pub fn hull(&self) -> (r: Vec<BigVec3>)
        ensures
            r@.len() == 1,
            crate::support::big_views(r@) == self.spec_hull(),
    {
        let r: Vec<BigVec3> = vec![BigVec3::from_vec3(&self._ori)];
        assert(crate::support::big_views(r@) =~= self.spec_hull());
        r
    }

    /// Decides whether the point and another intersect, by the tolerance of
    /// this point.
    pub fn intersect_point(&self, other: &Point3) -> (r: (bool, Option<Vec3>))
        ensures
            r == spec_point_point(*self, *other),
    {
        if !self.within_vicinity(self._ori.x, other._ori.x) || !self.within_vicinity(
            self._ori.y,
            other._ori.y,
        ) || !self.within_vicinity(self._ori.z, other._ori.z) {
            (false, None)
        } else {
            (true, Some(self._ori))
        }
    }

    /// Decides whether the point and another shape intersect. Two points are
    /// compared here; every other variant holds the test of a point with it.
    pub fn get_intersect(&self, other: &Shape) -> (r: (bool, Option<Vec3>))
        requires
            self.wf(),
            other.wf(),
            spec_supported(ShapeType::Point, other.spec_type()),
        ensures
            r == spec_intersect(Shape::Point(*self), *other),
    {
        if !self._bound.intersect(other.get_bound()) {
            return (false, None);
        }
        match other {
            Shape::Point(q) => self.intersect_point(q),
            Shape::Ray(s) => s.get_intersect(&Shape::Point(*self)),
            Shape::Sphere(s) => s.get_intersect(&Shape::Point(*self)),
            Shape::Plane(s) => s.get_intersect(&Shape::Point(*self)),
            Shape::Box(s) => s.get_intersect(&Shape::Point(*self)),
            Shape::TriPrism(s) => s.get_intersect(&Shape::Point(*self)),
        }
    }

    /// The values that define the point: its position.
    pub open spec fn spec_shape_data(self) -> Seq<i64> {
        seq![self._ori.x, self._ori.y, self._ori.z]
    }

    /// The bounding volume is the one of the position.
    pub open spec fn wf(self) -> bool {
        self._bound == AxisAlignedBBox::spec_init(ShapeType::Point, self.spec_shape_data())
    }

    /// Builds a point from its three coordinates.
    pub fn init(origin: &[i64]) -> (r: Point3)
        requires
            origin@.len() == 3,
        ensures
            r.spec_shape_data() == origin@,
            r._vicinity == DEFAULT_VICINITY,
            r.wf(),
    {
        let r = Point3 {
            _ori: Vec3 { x: origin[0], y: origin[1], z: origin[2] },
            _bound: AxisAlignedBBox::init(ShapeType::Point, origin),
            _vicinity: DEFAULT_VICINITY,
        };
        assert(r.spec_shape_data() =~= origin@);
        r
    }

    pub fn get_shape_data(&self) -> (r: Vec<i64>)
        ensures
            r@ == self.spec_shape_data(),
    {
        vec![self._ori.x, self._ori.y, self._ori.z]
    }

    pub fn get_type(&self) -> (r: ShapeType)
        ensures
            r == ShapeType::Point,
    {
        ShapeType::Point
    }

    pub fn get_bound(&self) -> (r: &AxisAlignedBBox)
        ensures
            *r == self._bound,
    {
        &self._bound
    }

    /// The point of the shape that reaches farthest along `v`: the point.
    pub fn get_support(&self, v: &Vec3) -> (r: Option<Vec3>)
        ensures
            r == Some(self._ori),
    {
        let _ = v;
        Some(self._ori)
    }

    /// Stores the magnitude of `epsilon` as the tolerance of the shape.
    pub fn set_vicinity(&mut self, epsilon: i64)
        ensures
            *final(self) == (Point3 { _vicinity: spec_abs(epsilon as int) as u64, ..*old(self) }),
    {
        self._vicinity = magnitude(epsilon);
    }

    /// Whether two scalars are equal within the tolerance of the shape.
    pub fn within_vicinity(&self, a: i64, b: i64) -> (r: bool)
        ensures
            r == spec_within(self._vicinity as int, a as int, b as int),
    {
        within(self._vicinity, a, b)
    }
}

} // verus!
