//! The plane: a point on it and a normal.
//!
//! A plane holds its normal twice: scaled to the length one and rounded to
//! units, which is the normal that it reports, and as it was given. The
//! predicates on a plane are decided on the normal as given, and none of
//! them depends on its length, so that rounding the reported normal does not
//! tilt the plane.

use crate::bound_aabb::AxisAlignedBBox;
use crate::shape::{spec_intersect, spec_supported, Shape, ShapeType};
use crate::bigint::BigInt;
use crate::point::Point3;
use crate::ray::Ray3;
use crate::sphere::Sphere;
use crate::support::{spec_support_index, support_index, unit_views, widen};
use crate::vec3::{
    normalized, point_along, spec_is_normalized, spec_point_along, BigVec3, Vec3,
};
use crate::vicinity::{magnitude, spec_abs, spec_within, within, DEFAULT_VICINITY};
use vstd::prelude::*;

verus! {

#[derive(Clone, Copy, Debug)]
pub struct Plane {
    pub _offset: Vec3,
    /// The normal, scaled to the length one.
    pub _normal: Vec3,
    /// The normal as it was given.
    pub _normal_given: Vec3,
    pub _bound: AxisAlignedBBox,
    pub _vicinity: u64,
}

/// Whether a plane and a point intersect: the distance of the point from the
/// plane is within the tolerance of the plane. With `n` the normal and `k`
/// its dot product with the vector from the point to the offset, the
/// distance is `|k| / |n|`, so that the test reads `k * k <= e * e * (n . n)`.
/// A plane whose normal is zero meets nothing. The witness is the point.
pub open spec fn spec_plane_point(plane: Plane, p: Point3) -> (bool, Option<Vec3>) {
    let n = plane._normal_given@;
    let k = n.dot(plane._offset@.minus(p._ori@));
    let e = plane._vicinity as int;
    if !n.is_zero() && k * k <= e * e * n.norm2() {
        (true, Some(p._ori))
    } else {
        (false, None)
    }
}

/// Whether a plane and a ray intersect: some point of the ray lies within
/// the tolerance of the plane from the plane. With `n` the normal, `a` its
/// dot product with the vector from the origin of the ray to the offset and
/// `b` its dot product with the direction, the ray crosses the plane at the
/// parameter `a / b` where that is not negative; else its origin is its
/// point nearest to the plane. A plane whose normal is zero and a ray whose
/// direction is zero meet nothing. The witness is the crossing point,
/// rounded down to units, or the origin.
pub open spec fn spec_plane_ray(plane: Plane, ray: Ray3) -> (bool, Option<Vec3>) {
    let n = plane._normal_given@;
    let d = ray._dir_given@;
    let a = n.dot(plane._offset@.minus(ray._ori@));
    let b = n.dot(d);
    let e = plane._vicinity as int;
    if n.is_zero() || d.is_zero() {
        (false, None)
    } else if b > 0 && a >= 0 {
        (true, spec_point_along(ray._ori@, d, a, b))
    } else if b < 0 && a <= 0 {
        (true, spec_point_along(ray._ori@, d, -a, -b))
    } else if a * a <= e * e * n.norm2() {
        (true, Some(ray._ori))
    } else {
        (false, None)
    }
}

/// Whether a plane and a sphere intersect: the distance of the center from
/// the plane is at most the radius and the tolerance of the plane. With `n`
/// the normal and `k` its dot product with the vector from the offset to the
/// center, `k * k <= (r + e) * (r + e) * (n . n)`. The witness is the point
/// of the plane nearest to the center, rounded down to units.
pub open spec fn spec_plane_sphere(plane: Plane, sphere: Sphere) -> (bool, Option<Vec3>) {
    let n = plane._normal_given@;
    let k = n.dot(sphere._ori@.minus(plane._offset@));
    let reach = sphere._radius as int + plane._vicinity as int;
    if !n.is_zero() && k * k <= reach * reach * n.norm2() {
        (true, spec_point_along(sphere._ori@, n, -k, n.norm2()))
    } else {
        (false, None)
    }
}

/// Whether a plane and the hull of some vertices intersect, by a tolerance:
/// the vertex that reaches least far along the normal does not lie above the
/// plane by more than the tolerance, and the one that reaches farthest not
/// below it by more. With `n` the normal and `s` its dot product with the
/// vector from the offset to a vertex, the vertex lies at the height
/// `s / |n|`. A plane whose normal is zero meets nothing. The witness is the
/// point on the segment between the two vertices that lies on the plane,
/// rounded down to units, or the vertex within the tolerance.
pub open spec fn spec_plane_hull(plane: Plane, verts: Seq<Vec3>, epsilon: int) -> (
    bool,
    Option<Vec3>,
) {
    let n = plane._normal_given@;
    let hull = unit_views(verts);
    let low = verts[spec_support_index(hull, n.negated(), hull.len())];
    let high = verts[spec_support_index(hull, n, hull.len())];
    let s_low = n.dot(low@.minus(plane._offset@));
    let s_high = n.dot(high@.minus(plane._offset@));
    let band = epsilon * epsilon * n.norm2();
    if n.is_zero() {
        (false, None)
    } else if s_low > 0 {
        if s_low * s_low <= band {
            (true, Some(low))
        } else {
            (false, None)
        }
    } else if s_high < 0 {
        if s_high * s_high <= band {
            (true, Some(high))
        } else {
            (false, None)
        }
    } else if s_high - s_low > 0 {
        (true, spec_point_along(low@, high@.minus(low@), -s_low, s_high - s_low))
    } else {
        (true, Some(low))
    }
}

impl Plane {
    /// Decides whether the plane and the hull of some vertices intersect, by
    /// a tolerance.
    pub fn intersect_hull(&self, verts: &Vec<Vec3>, epsilon: u64) -> (r: (bool, Option<Vec3>))
        requires
            verts@.len() > 0,
        ensures
            r == spec_plane_hull(*self, verts@, epsilon as int),
    {
        let n: BigVec3 = BigVec3::from_vec3(&self._normal_given);
        let offset: BigVec3 = BigVec3::from_vec3(&self._offset);
        let wide: Vec<BigVec3> = widen(verts);
        let i_low: usize = support_index(&wide, &n.negated());
        let i_high: usize = support_index(&wide, &n);
        let low: Vec3 = verts[i_low];
        let high: Vec3 = verts[i_high];
        let big_low: BigVec3 = BigVec3::from_vec3(&low);
        let big_high: BigVec3 = BigVec3::from_vec3(&high);
        let s_low: BigInt = n.dot(&big_low.minus(&offset));
        let s_high: BigInt = n.dot(&big_high.minus(&offset));
        let e: BigInt = BigInt::from_u64(epsilon);
        let band: BigInt = e.mul(&e).mul(&n.norm2());
        if n.is_zero() {
            (false, None)
        } else if s_low.is_positive() {
            if s_low.mul(&s_low).le(&band) {
                (true, Some(low))
            } else {
                (false, None)
            }
        } else if s_high.is_negative() {
            if s_high.mul(&s_high).le(&band) {
                (true, Some(high))
            } else {
                (false, None)
            }
        } else {
            let span: BigInt = s_high.sub(&s_low);
            if span.is_positive() {
                (true, point_along(&big_low, &big_high.minus(&big_low), &s_low.neg(), &span))
            } else {
                (true, Some(low))
            }
        }
    }

    /// Decides whether the plane and a ray intersect, by the tolerance of
    /// the plane.
    pub fn intersect_ray(&self, ray: &Ray3) -> (r: (bool, Option<Vec3>))
        ensures
            r == spec_plane_ray(*self, *ray),
    {
        let n: BigVec3 = BigVec3::from_vec3(&self._normal_given);
        let d: BigVec3 = BigVec3::from_vec3(&ray._dir_given);
        let origin: BigVec3 = BigVec3::from_vec3(&ray._ori);
        let a: BigInt = n.dot(&BigVec3::from_vec3(&self._offset).minus(&origin));
        let b: BigInt = n.dot(&d);
        let e: BigInt = BigInt::from_u64(self._vicinity);
        if n.is_zero() || d.is_zero() {
            (false, None)
        } else if b.is_positive() && !a.is_negative() {
            (true, point_along(&origin, &d, &a, &b))
        } else if b.is_negative() && !a.is_positive() {
            (true, point_along(&origin, &d, &a.neg(), &b.neg()))
        } else if a.mul(&a).le(&e.mul(&e).mul(&n.norm2())) {
            (true, Some(ray._ori))
        } else {
            (false, None)
        }
    }

    /// Decides whether the plane and a sphere intersect, by the tolerance of
    /// the plane.
    pub fn intersect_sphere(&self, sphere: &Sphere) -> (r: (bool, Option<Vec3>))
        ensures
            r == spec_plane_sphere(*self, *sphere),
    {
        let n: BigVec3 = BigVec3::from_vec3(&self._normal_given);
        let center: BigVec3 = BigVec3::from_vec3(&sphere._ori);
        let k: BigInt = n.dot(&center.minus(&BigVec3::from_vec3(&self._offset)));
        let reach: BigInt = BigInt::from_i64(sphere._radius).add(&BigInt::from_u64(self._vicinity));
        let nn: BigInt = n.norm2();
        if n.is_zero() || !k.mul(&k).le(&reach.mul(&reach).mul(&nn)) {
            return (false, None);
        }
        proof {
            assert(nn@ > 0) by (nonlinear_arith)
                requires
                    nn@ == n@.x * n@.x + n@.y * n@.y + n@.z * n@.z,
                    !(n@.x == 0 && n@.y == 0 && n@.z == 0),
            ;
        }
        (true, point_along(&center, &n, &k.neg(), &nn))
    }

    /// Decides whether the plane and a point intersect, by the tolerance of
    /// the plane.
    pub fn intersect_point(&self, p: &Point3) -> (r: (bool, Option<Vec3>))
        ensures
            r == spec_plane_point(*self, *p),
    {
        let n: BigVec3 = BigVec3::from_vec3(&self._normal_given);
        let offset: BigVec3 = BigVec3::from_vec3(&self._offset);
        let b_off: BigVec3 = BigVec3::from_vec3(&p._ori);
        let k: BigInt = n.dot(&offset.minus(&b_off));
        let e: BigInt = BigInt::from_u64(self._vicinity);
        if n.is_zero() || !k.mul(&k).le(&e.mul(&e).mul(&n.norm2())) {
            return (false, None);
        }
        (true, Some(p._ori))
    }

    /// Decides whether the plane and another shape intersect.
    pub fn get_intersect(&self, other: &Shape) -> (r: (bool, Option<Vec3>))
        requires
            self.wf(),
            other.wf(),
            spec_supported(ShapeType::Plane, other.spec_type()),
        ensures
            r == spec_intersect(Shape::Plane(*self), *other),
    {
        if !self._bound.intersect(other.get_bound()) {
            return (false, None);
        }
        match other {
            Shape::Point(p) => self.intersect_point(p),
            Shape::Ray(s) => self.intersect_ray(s),
            Shape::Sphere(s) => self.intersect_sphere(s),
            Shape::Box(s) => s.get_intersect(&Shape::Plane(*self)),
            Shape::TriPrism(s) => s.get_intersect(&Shape::Plane(*self)),
            Shape::Plane(_) => (false, None),
        }
    }

    /// The values that define the plane: a point on it, then its normal
    /// scaled to the length one.
    pub open spec fn spec_shape_data(self) -> Seq<i64> {
        seq![
            self._offset.x,
            self._offset.y,
            self._offset.z,
            self._normal.x,
            self._normal.y,
            self._normal.z,
        ]
    }

    /// The values that the plane was built from: a point on it, then its
    /// normal as given.
    pub open spec fn spec_given_data(self) -> Seq<i64> {
        seq![
            self._offset.x,
            self._offset.y,
            self._offset.z,
            self._normal_given.x,
            self._normal_given.y,
            self._normal_given.z,
        ]
    }

    /// The normal is the normal as given, scaled to the length one, and
    /// the bounding volume is the one of the offset and the normal as given.
    pub open spec fn wf(self) -> bool {
        &&& spec_is_normalized(self._normal, self._normal_given)
        &&& self._bound == AxisAlignedBBox::spec_init(ShapeType::Plane, self.spec_given_data())
    }

    /// Builds a plane from the three coordinates of a point on it and of its
    /// normal. The plane reports the point as given and the normal scaled to
    /// the length one; a zero normal stays zero. The bounding volume is the
    /// one of the values as given.
    pub fn init(offset: &[i64], normal: &[i64]) -> (r: Plane)
        requires
            offset@.len() == 3,
            normal@.len() == 3,
        ensures
            r.spec_given_data() == offset@ + normal@,
            spec_is_normalized(r._normal, r._normal_given),
            r._vicinity == DEFAULT_VICINITY,
            r.wf(),
    {
        let vals: Vec<i64> = vec![
            offset[0],
            offset[1],
            offset[2],
            normal[0],
            normal[1],
            normal[2],
        ];
        let r = Plane {
            _offset: Vec3 { x: offset[0], y: offset[1], z: offset[2] },
            _normal: normalized(&Vec3 { x: normal[0], y: normal[1], z: normal[2] }),
            _normal_given: Vec3 { x: normal[0], y: normal[1], z: normal[2] },
            _bound: AxisAlignedBBox::init(ShapeType::Plane, vals.as_slice()),
            _vicinity: DEFAULT_VICINITY,
        };
        assert(r.spec_given_data() =~= offset@ + normal@);
        assert(vals@ =~= r.spec_given_data());
        r
    }

    /// The values that define the plane: a point on it, then its normal
    /// scaled to the length one.
    pub fn get_shape_data(&self) -> (r: Vec<i64>)
        ensures
            r@ == self.spec_shape_data(),
    {
        vec![
            self._offset.x,
            self._offset.y,
            self._offset.z,
            self._normal.x,
            self._normal.y,
            self._normal.z,
        ]
    }

    /// The values that the plane was built from.
    pub fn given_data(&self) -> (r: Vec<i64>)
        ensures
            r@ == self.spec_given_data(),
    {
        vec![
            self._offset.x,
            self._offset.y,
            self._offset.z,
            self._normal_given.x,
            self._normal_given.y,
            self._normal_given.z,
        ]
    }

    pub fn get_type(&self) -> (r: ShapeType)
        ensures
            r == ShapeType::Plane,
    {
        ShapeType::Plane
    }

    /// A plane has no farthest point along any direction.
    pub fn get_support(&self, v: &Vec3) -> (r: Option<Vec3>)
        ensures
            r == None::<Vec3>,
    {
        let _ = v;
        None
    }

    /// Stores the magnitude of `epsilon` as the tolerance of the shape.
    pub fn set_vicinity(&mut self, epsilon: i64)
        ensures
            *final(self) == (Plane { _vicinity: spec_abs(epsilon as int) as u64, ..*old(self) }),
    {
        self._vicinity = magnitude(epsilon);
    }

    /// Whether two scalars are equal within the tolerance of the shape.
    pub fn within_vicinity(&self, a: i64, b: i64) -> (r: bool)
        ensures
            r == spec_within(self._vicinity as int, a as int, b as int),
    {
        within(self._vicinity, a, b)
    }

    pub fn get_bound(&self) -> (r: &AxisAlignedBBox)
        ensures
            *r == self._bound,
    {
        &self._bound
    }
}

} // verus!
