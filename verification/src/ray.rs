//! The ray: an origin and a direction, reaching to infinity.
//!
//! A ray holds its direction twice: scaled to the length one and rounded to
//! units, which is the direction that it reports, and as it was given. The
//! predicates on a ray are decided on the direction as given, and none of
//! them depends on its length, so that rounding the reported direction does
//! not bend the ray.

use crate::bound_aabb::AxisAlignedBBox;
use crate::intersect_gjk::convex_pair;
use crate::shape::{precedes, spec_intersect, spec_supported, Shape, ShapeType};
use crate::bigint::BigInt;
use crate::point::Point3;
use crate::support::big_views;
use crate::vec3::{normalized, spec_is_normalized, BigVec3, Vec3, V3};
use crate::vicinity::{magnitude, spec_abs, spec_within, within, DEFAULT_VICINITY};
use vstd::prelude::*;

verus! {

#[derive(Clone, Copy, Debug)]
pub struct Ray3 {
    pub _ori: Vec3,
    /// The direction, scaled to the length one.
    pub _dir: Vec3,
    /// The direction as it was given.
    pub _dir_given: Vec3,
    pub _bound: AxisAlignedBBox,
    pub _vicinity: u64,
}

/// The parameter up to which a ray is followed where it stands for a hull:
/// two to the power 64, past which no coordinate of the ray is one that an
/// `i64` holds.
pub open spec fn spec_ray_reach() -> int {
    0x1_0000_0000_0000_0000
}

/// Whether a ray and a point intersect: the point projects onto the ray at a
/// parameter that is not negative, and its distance from the line of the ray
/// is within the tolerance of the ray. With `w` the vector from the origin
/// to the point, `d` the direction and `t` their dot product, the squared
/// distance is `w . w - t * t / (d . d)`. A ray whose direction is zero
/// meets nothing. The witness is the point.
pub open spec fn spec_ray_point(ray: Ray3, p: Point3) -> (bool, Option<Vec3>) {
    let d = ray._dir_given@;
    let w = p._ori@.minus(ray._ori@);
    let t = w.dot(d);
    let e = ray._vicinity as int;
    if !d.is_zero() && t >= 0 && w.norm2() * d.norm2() - t * t <= e * e * d.norm2() {
        (true, Some(p._ori))
    } else {
        (false, None)
    }
}

impl Ray3 {
    /// The hull that stands for the ray: the segment from its origin to the
    /// point at the parameter `spec_ray_reach()`.
    pub open spec fn spec_hull(self) -> Seq<V3> {
        seq![self._ori@, self._ori@.plus(self._dir_given@.scaled(spec_ray_reach()))]
    }

    pub fn hull(&self) -> (r: Vec<BigVec3>)
        ensures
            r@.len() == 2,
            big_views(r@) == self.spec_hull(),
    {
        let half: BigInt = BigInt::from_u64(0x1_0000_0000);
        let reach: BigInt = half.mul(&half);
        assert(reach@ == spec_ray_reach()) by {
            assert(0x1_0000_0000int * 0x1_0000_0000int == 0x1_0000_0000_0000_0000int)
                by (nonlinear_arith);
        }
        let origin: BigVec3 = BigVec3::from_vec3(&self._ori);
        let far: BigVec3 = origin.plus(&BigVec3::from_vec3(&self._dir_given).scaled(&reach));
        let r: Vec<BigVec3> = vec![origin, far];
        assert(big_views(r@) =~= self.spec_hull());
        r
    }

    /// Decides whether the ray and a point intersect, by the tolerance of
    /// the ray.
    pub fn intersect_point(&self, p: &Point3) -> (r: (bool, Option<Vec3>))
        ensures
            r == spec_ray_point(*self, *p),
    {
        let d: BigVec3 = BigVec3::from_vec3(&self._dir_given);
        let w: BigVec3 = BigVec3::from_vec3(&p._ori).minus(&BigVec3::from_vec3(&self._ori));
        let t: BigInt = w.dot(&d);
        let e: BigInt = BigInt::from_u64(self._vicinity);
        let dd: BigInt = d.norm2();
        let residual: BigInt = w.norm2().mul(&dd).sub(&t.mul(&t));
        if d.is_zero() || t.is_negative() || !residual.le(&e.mul(&e).mul(&dd)) {
            return (false, None);
        }
        (true, Some(p._ori))
    }

    /// Decides whether the ray and another shape intersect. A point is
    /// tested here; a box and a prism hold the test of a ray with them.
    pub fn get_intersect(&self, other: &Shape) -> (r: (bool, Option<Vec3>))
        requires
            self.wf(),
            other.wf(),
            spec_supported(ShapeType::Ray, other.spec_type()),
        ensures
            r == spec_intersect(Shape::Ray(*self), *other),
    {
        if !self._bound.intersect(other.get_bound()) {
            return (false, None);
        }
        match other {
            Shape::Point(p) => self.intersect_point(p),
            Shape::Ray(s) => {
                if (self._dir_given.x == 0 && self._dir_given.y == 0 && self._dir_given.z == 0) || (s._dir_given.x == 0
                    && s._dir_given.y == 0 && s._dir_given.z == 0) {
                    (false, None)
                } else if precedes(
                    &self.given_data(),
                    self._vicinity,
                    &s.given_data(),
                    s._vicinity,
                ) {
                    convex_pair(&self.hull(), &s.hull(), s._vicinity)
                } else {
                    convex_pair(&s.hull(), &self.hull(), self._vicinity)
                }
            },
            Shape::Sphere(s) => s.get_intersect(&Shape::Ray(*self)),
            Shape::Plane(s) => s.get_intersect(&Shape::Ray(*self)),
            Shape::Box(s) => s.get_intersect(&Shape::Ray(*self)),
            Shape::TriPrism(s) => s.get_intersect(&Shape::Ray(*self)),
        }
    }

    /// The values that define the ray: its origin, then its direction
    /// scaled to the length one.
    pub open spec fn spec_shape_data(self) -> Seq<i64> {
        seq![self._ori.x, self._ori.y, self._ori.z, self._dir.x, self._dir.y, self._dir.z]
    }

    /// The values that the ray was built from: its origin, then its
    /// direction as given.
    pub open spec fn spec_given_data(self) -> Seq<i64> {
        seq![self._ori.x, self._ori.y, self._ori.z, self._dir_given.x, self._dir_given.y, self._dir_given.z]
    }

    /// The direction is the direction as given, scaled to the length one,
    /// and the bounding volume is the one of the origin and the direction
    /// as given.
    pub open spec fn wf(self) -> bool {
        &&& spec_is_normalized(self._dir, self._dir_given)
        &&& self._bound == AxisAlignedBBox::spec_init(ShapeType::Ray, self.spec_given_data())
    }

    /// Builds a ray from the three coordinates of its origin and of its
    /// direction. The ray reports the origin as given and the direction
    /// scaled to the length one; a zero direction stays zero. The bounding
    /// volume is the one of the values as given.
    pub fn init(origin: &[i64], dir: &[i64]) -> (r: Ray3)
        requires
            origin@.len() == 3,
            dir@.len() == 3,
        ensures
            r.spec_given_data() == origin@ + dir@,
            spec_is_normalized(r._dir, r._dir_given),
            r._vicinity == DEFAULT_VICINITY,
            r.wf(),
    {
        let vals: Vec<i64> = vec![origin[0], origin[1], origin[2], dir[0], dir[1], dir[2]];
        let r = Ray3 {
            _ori: Vec3 { x: origin[0], y: origin[1], z: origin[2] },
            _dir: normalized(&Vec3 { x: dir[0], y: dir[1], z: dir[2] }),
            _dir_given: Vec3 { x: dir[0], y: dir[1], z: dir[2] },
            _bound: AxisAlignedBBox::init(ShapeType::Ray, vals.as_slice()),
            _vicinity: DEFAULT_VICINITY,
        };
        assert(r.spec_given_data() =~= origin@ + dir@);
        assert(vals@ =~= r.spec_given_data());
        r
    }

    /// The values that define the ray: its origin, then its direction scaled
    /// to the length one.
    pub fn get_shape_data(&self) -> (r: Vec<i64>)
        ensures
            r@ == self.spec_shape_data(),
    {
        vec![self._ori.x, self._ori.y, self._ori.z, self._dir.x, self._dir.y, self._dir.z]
    }

    /// The values that the ray was built from.
    pub fn given_data(&self) -> (r: Vec<i64>)
        ensures
            r@ == self.spec_given_data(),
    {
        vec![self._ori.x, self._ori.y, self._ori.z, self._dir_given.x, self._dir_given.y, self._dir_given.z]
    }

    pub fn get_type(&self) -> (r: ShapeType)
        ensures
            r == ShapeType::Ray,
    {
        ShapeType::Ray
    }

    /// The point of the ray that reaches farthest along `v`: the origin where
    /// `v` does not point along the ray, and none where it does, since the
    /// ray then has no farthest point.
    pub fn get_support(&self, v: &Vec3) -> (r: Option<Vec3>)
        ensures
            r == (if self._dir_given@.dot(v@) <= 0 {
                Some(self._ori)
            } else {
                None
            }),
    {
        let d: BigVec3 = BigVec3::from_vec3(&self._dir_given);
        let w: BigVec3 = BigVec3::from_vec3(v);
        if d.dot(&w).is_positive() {
            None
        } else {
            Some(self._ori)
        }
    }

    /// Stores the magnitude of `epsilon` as the tolerance of the shape.
    pub fn set_vicinity(&mut self, epsilon: i64)
        ensures
            *final(self) == (Ray3 { _vicinity: spec_abs(epsilon as int) as u64, ..*old(self) }),
    {
        self._vicinity = magnitude(epsilon);
    }

    /// Whether two scalars are equal within the tolerance of the shape.
    pub fn within_vicinity(&self, a: i64, b: i64) -> (r: bool)
        ensures
            r == spec_within(self._vicinity as int, a as int, b as int),
    {
        within(self._vicinity, a, b)
    }

    pub fn get_bound(&self) -> (r: &AxisAlignedBBox)
        ensures
            *r == self._bound,
    {
        &self._bound
    }
}

} // verus!
