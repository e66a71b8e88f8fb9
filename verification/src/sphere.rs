//! The sphere: a center and a radius.

use crate::bound_aabb::{spec_clamp, AxisAlignedBBox};
use crate::shape::{precedes, spec_intersect, spec_supported, Shape, ShapeType};
use crate::bigint::BigInt;
use crate::point::Point3;
use crate::ray::Ray3;
use crate::vec3::{point_along, scaled, spec_is_scaled, spec_point_along, BigVec3, Vec3};
use crate::vicinity::{magnitude, spec_abs, spec_within, within, DEFAULT_VICINITY};
use vstd::prelude::*;

verus! {

#[derive(Clone, Copy, Debug)]
pub struct Sphere {
    pub _ori: Vec3,
    pub _radius: i64,
    pub _bound: AxisAlignedBBox,
    pub _vicinity: u64,
}

/// Whether a sphere and a point intersect: the distance of the point from
/// the center is within the tolerance of the sphere of the radius, so that
/// the point lies on the surface. With `m` the squared distance, `r` the
/// radius and `e` the tolerance, `m <= (r + e) * (r + e)`, and
/// `(r - e) * (r - e) <= m` where `r - e` is positive. The witness is the
/// point.
pub open spec fn spec_sphere_point(sphere: Sphere, p: Point3) -> (bool, Option<Vec3>) {
    let m = p._ori@.minus(sphere._ori@).norm2();
    let r = sphere._radius as int;
    let e = sphere._vicinity as int;
    if m <= (r + e) * (r + e) && (r - e <= 0 || (r - e) * (r - e) <= m) {
        (true, Some(p._ori))
    } else {
        (false, None)
    }
}

/// Whether a sphere and a ray intersect: the point of the ray nearest to the
/// center lies no farther from it than the radius and the tolerance of the
/// sphere. With `w` the vector from the origin of the ray to the center,
/// `d` the direction and `t` their dot product, the nearest point is the
/// origin where `t` is not positive, else the point at the parameter
/// `t / (d . d)`. A ray whose direction is zero meets nothing. The witness
/// is the nearest point, rounded down to units.
pub open spec fn spec_sphere_ray(sphere: Sphere, ray: Ray3) -> (bool, Option<Vec3>) {
    let d = ray._dir_given@;
    let w = sphere._ori@.minus(ray._ori@);
    let t = w.dot(d);
    let reach = sphere._radius as int + sphere._vicinity as int;
    if d.is_zero() {
        (false, None)
    } else if t <= 0 {
        if w.norm2() <= reach * reach {
            (true, Some(ray._ori))
        } else {
            (false, None)
        }
    } else if w.norm2() * d.norm2() - t * t <= reach * reach * d.norm2() {
        (true, spec_point_along(ray._ori@, d, t, d.norm2()))
    } else {
        (false, None)
    }
}

/// Whether two spheres intersect, by a tolerance: the distance of the
/// centers is at most the sum of the radii and the tolerance. The witness is
/// the point between the centers that divides their distance as the radii
/// do, rounded down to units.
pub open spec fn spec_sphere_sphere(a: Sphere, b: Sphere, epsilon: int) -> (bool, Option<Vec3>) {
    let w = b._ori@.minus(a._ori@);
    let radii = a._radius as int + b._radius as int;
    let reach = radii + epsilon;
    if w.norm2() <= reach * reach {
        if radii > 0 {
            (true, spec_point_along(a._ori@, w, a._radius as int, radii))
        } else {
            (true, Some(a._ori))
        }
    } else {
        (false, None)
    }
}

/// The test of two spheres, the one that precedes the other first, by the
/// tolerance of the second.
pub open spec fn spec_sphere_pair(a: Sphere, b: Sphere) -> (bool, Option<Vec3>) {
    if crate::shape::spec_precedes(
        a.spec_shape_data(),
        a._vicinity,
        b.spec_shape_data(),
        b._vicinity,
    ) {
        spec_sphere_sphere(a, b, b._vicinity as int)
    } else {
        spec_sphere_sphere(b, a, a._vicinity as int)
    }
}

/// `s` is the coordinate of the point of a sphere that reaches farthest along
/// `v`: the coordinate of the center, moved along the sign of `c` by the
/// length `r * |c| / |v|` rounded down, and kept within what an `i64` holds.
pub open spec fn spec_support_coordinate(s: i64, center: i64, r: int, c: int, vv: int) -> bool {
    exists|m: int| #[trigger]
        spec_is_scaled(m, r, c, vv) && s == spec_clamp(
            center + if c < 0 {
                -m
            } else {
                m
            },
        )
}

/// `r` is what a support query along `v` gives on a sphere: nothing where
/// `v` is zero, else the point whose coordinates are those of the center
/// moved by the radius along `v`, rounded toward the center.
pub open spec fn spec_is_support(sphere: Sphere, v: Vec3, r: Option<Vec3>) -> bool {
    match r {
        Some(s) => {
            &&& !v@.is_zero()
            &&& spec_support_coordinate(
                s.x,
                sphere._ori.x,
                sphere._radius as int,
                v.x as int,
                v@.norm2(),
            )
            &&& spec_support_coordinate(
                s.y,
                sphere._ori.y,
                sphere._radius as int,
                v.y as int,
                v@.norm2(),
            )
            &&& spec_support_coordinate(
                s.z,
                sphere._ori.z,
                sphere._radius as int,
                v.z as int,
                v@.norm2(),
            )
        },
        None => v@.is_zero(),
    }
}

fn shifted(center: i64, c: i64, m: i64) -> (s: i64)
    requires
        m >= 0,
    ensures
        s == spec_clamp(
            center + if c < 0 {
                -(m as int)
            } else {
                m as int
            },
        ),
{
    let moved: i128 = if c < 0 {
        center as i128 - m as i128
    } else {
        center as i128 + m as i128
    };
    if moved < i64::MIN as i128 {
        i64::MIN
    } else if moved > i64::MAX as i128 {
        i64::MAX
    } else {
        moved as i64
    }
}

impl Sphere {
    /// The point of the sphere that reaches farthest along `v`: the center
    /// moved by the radius along `v`, each coordinate rounded toward the
    /// center. There is none where `v` is zero.
    pub fn get_support(&self, v: &Vec3) -> (r: Option<Vec3>)
        requires
            self.wf(),
        ensures
            spec_is_support(*self, *v, r),
    {
        if v.x == 0 && v.y == 0 && v.z == 0 {
            return None;
        }
        let vv: BigInt = BigVec3::from_vec3(v).norm2();
        proof {
            let x: int = v.x as int;
            let y: int = v.y as int;
            let z: int = v.z as int;
            assert(x * x >= 0 && y * y >= 0 && z * z >= 0 && (x != 0 ==> x * x > 0) && (y != 0
                ==> y * y > 0) && (z != 0 ==> z * z > 0)) by (nonlinear_arith);
        }
        let mx: i64 = scaled(self._radius, v.x, &vv);
        let my: i64 = scaled(self._radius, v.y, &vv);
        let mz: i64 = scaled(self._radius, v.z, &vv);
        Some(
            Vec3 {
                x: shifted(self._ori.x, v.x, mx),
                y: shifted(self._ori.y, v.y, my),
                z: shifted(self._ori.z, v.z, mz),
            },
        )
    }

    /// Decides whether the sphere and a ray intersect, by the tolerance of
    /// the sphere.
    pub fn intersect_ray(&self, ray: &Ray3) -> (r: (bool, Option<Vec3>))
        ensures
            r == spec_sphere_ray(*self, *ray),
    {
        let d: BigVec3 = BigVec3::from_vec3(&ray._dir_given);
        let origin: BigVec3 = BigVec3::from_vec3(&ray._ori);
        let w: BigVec3 = BigVec3::from_vec3(&self._ori).minus(&origin);
        let t: BigInt = w.dot(&d);
        let reach: BigInt = BigInt::from_i64(self._radius).add(&BigInt::from_u64(self._vicinity));
        let reach2: BigInt = reach.mul(&reach);
        let dd: BigInt = d.norm2();
        if d.is_zero() {
            (false, None)
        } else if !t.is_positive() {
            if w.norm2().le(&reach2) {
                (true, Some(ray._ori))
            } else {
                (false, None)
            }
        } else if w.norm2().mul(&dd).sub(&t.mul(&t)).le(&reach2.mul(&dd)) {
            proof {
                assert(dd@ > 0) by (nonlinear_arith)
                    requires
                        dd@ == d@.x * d@.x + d@.y * d@.y + d@.z * d@.z,
                        !(d@.x == 0 && d@.y == 0 && d@.z == 0),
                ;
            }
            (true, point_along(&origin, &d, &t, &dd))
        } else {
            (false, None)
        }
    }

    /// Decides whether the sphere and another intersect, by a tolerance.
    pub fn intersect_sphere(&self, other: &Sphere, epsilon: u64) -> (r: (bool, Option<Vec3>))
        ensures
            r == spec_sphere_sphere(*self, *other, epsilon as int),
    {
        let center: BigVec3 = BigVec3::from_vec3(&self._ori);
        let w: BigVec3 = BigVec3::from_vec3(&other._ori).minus(&center);
        let own: BigInt = BigInt::from_i64(self._radius);
        let radii: BigInt = own.add(&BigInt::from_i64(other._radius));
        let reach: BigInt = radii.add(&BigInt::from_u64(epsilon));
        if !w.norm2().le(&reach.mul(&reach)) {
            (false, None)
        } else if radii.is_positive() {
            (true, point_along(&center, &w, &own, &radii))
        } else {
            (true, Some(self._ori))
        }
    }

    /// Decides whether the sphere and a point intersect, by the tolerance of
    /// the sphere.
    pub fn intersect_point(&self, p: &Point3) -> (r: (bool, Option<Vec3>))
        ensures
            r == spec_sphere_point(*self, *p),
    {
        let w: BigVec3 = BigVec3::from_vec3(&p._ori).minus(&BigVec3::from_vec3(&self._ori));
        let m: BigInt = w.norm2();
        let r: BigInt = BigInt::from_i64(self._radius);
        let e: BigInt = BigInt::from_u64(self._vicinity);
        let outer: BigInt = r.add(&e);
        let inner: BigInt = r.sub(&e);
        if !m.le(&outer.mul(&outer)) {
            return (false, None);
        }
        if inner.is_positive() && !inner.mul(&inner).le(&m) {
            return (false, None);
        }
        (true, Some(p._ori))
    }

    /// Decides whether the sphere and another shape intersect.
    pub fn get_intersect(&self, other: &Shape) -> (r: (bool, Option<Vec3>))
        requires
            self.wf(),
            other.wf(),
            spec_supported(ShapeType::Sphere, other.spec_type()),
        ensures
            r == spec_intersect(Shape::Sphere(*self), *other),
    {
        if !self._bound.intersect(other.get_bound()) {
            return (false, None);
        }
        match other {
            Shape::Point(p) => self.intersect_point(p),
            Shape::Ray(s) => self.intersect_ray(s),
            Shape::Sphere(s) => {
                if precedes(
                    &self.get_shape_data(),
                    self._vicinity,
                    &s.get_shape_data(),
                    s._vicinity,
                ) {
                    self.intersect_sphere(s, s._vicinity)
                } else {
                    s.intersect_sphere(self, self._vicinity)
                }
            },
            Shape::Plane(s) => s.get_intersect(&Shape::Sphere(*self)),
            Shape::Box(s) => s.get_intersect(&Shape::Sphere(*self)),
            Shape::TriPrism(s) => s.get_intersect(&Shape::Sphere(*self)),
        }
    }

    /// The values that define the sphere: its center, then its radius.
    pub open spec fn spec_shape_data(self) -> Seq<i64> {
        seq![self._ori.x, self._ori.y, self._ori.z, self._radius]
    }

    /// The radius is not negative, and the bounding volume is the one of the
    /// center and the radius.
    pub open spec fn wf(self) -> bool {
        &&& self._radius >= 0
        &&& self._bound == AxisAlignedBBox::spec_init(ShapeType::Sphere, self.spec_shape_data())
    }

    /// Builds a sphere from the three coordinates of its center and from its
    /// radius.
    pub fn init(origin: &[i64], radius: i64) -> (r: Sphere)
        requires
            origin@.len() == 3,
            radius >= 0,
        ensures
            r.spec_shape_data() == origin@.push(radius),
            r._vicinity == DEFAULT_VICINITY,
            r.wf(),
    {
        let vals: Vec<i64> = vec![origin[0], origin[1], origin[2], radius];
        let r = Sphere {
            _ori: Vec3 { x: origin[0], y: origin[1], z: origin[2] },
            _radius: radius,
            _bound: AxisAlignedBBox::init(ShapeType::Sphere, vals.as_slice()),
            _vicinity: DEFAULT_VICINITY,
        };
        assert(r.spec_shape_data() =~= origin@.push(radius));
        assert(vals@ =~= r.spec_shape_data());
        r
    }

    pub fn get_shape_data(&self) -> (r: Vec<i64>)
        ensures
            r@ == self.spec_shape_data(),
    {
        vec![self._ori.x, self._ori.y, self._ori.z, self._radius]
    }

    pub fn get_type(&self) -> (r: ShapeType)
        ensures
            r == ShapeType::Sphere,
    {
        ShapeType::Sphere
    }

    /// Stores the magnitude of `epsilon` as the tolerance of the shape.
    pub fn set_vicinity(&mut self, epsilon: i64)
        ensures
            *final(self) == (Sphere { _vicinity: spec_abs(epsilon as int) as u64, ..*old(self) }),
    {
        self._vicinity = magnitude(epsilon);
    }

    /// Whether two scalars are equal within the tolerance of the shape.
    pub fn within_vicinity(&self, a: i64, b: i64) -> (r: bool)
        ensures
            r == spec_within(self._vicinity as int, a as int, b as int),
    {
        within(self._vicinity, a, b)
    }

    pub fn get_bound(&self) -> (r: &AxisAlignedBBox)
        ensures
            *r == self._bound,
    {
        &self._bound
    }
}

} // verus!
