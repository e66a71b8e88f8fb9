//! The box: a center and a half-extent along each axis.

use crate::bound_aabb::AxisAlignedBBox;
use crate::intersect_gjk::convex_pair;
use crate::shape::{precedes, spec_intersect, spec_supported, Shape, ShapeType};
use crate::support::{big_views, extreme_vertex, spec_support_index, unit_views, widen};
use crate::bigint::BigInt;
use crate::sphere::Sphere;
use crate::vec3::{BigVec3, Vec3, V3};
use crate::vicinity::{magnitude, spec_abs, spec_within, within, DEFAULT_VICINITY};
use vstd::prelude::*;

verus! {

#[derive(Clone, Copy, Debug)]
pub struct RecBox {
    pub _ori: Vec3,
    pub _size: Vec3,
    pub _bound: AxisAlignedBBox,
    pub _vicinity: u64,
}

/// A center and a half-extent whose two faces lie at coordinates that an
/// `i64` holds.
pub open spec fn spec_axis_fits(center: i64, half: i64) -> bool {
    half >= 0 && i64::MIN <= center - half && center + half <= i64::MAX
}

/// The coordinate between `lower` and `upper` that is nearest to `c`.
pub open spec fn spec_nearest(c: i64, lower: i64, upper: i64) -> i64 {
    if c < lower {
        lower
    } else if c > upper {
        upper
    } else {
        c
    }
}

/// Whether a box and a sphere intersect: the point of the box nearest to the
/// center lies no farther from it than the radius and the tolerance of the
/// box. The witness is that point.
pub open spec fn spec_box_sphere(b: RecBox, sphere: Sphere) -> (bool, Option<Vec3>) {
    let near = Vec3 {
        x: spec_nearest(
            sphere._ori.x,
            (b._ori.x - b._size.x) as i64,
            (b._ori.x + b._size.x) as i64,
        ),
        y: spec_nearest(
            sphere._ori.y,
            (b._ori.y - b._size.y) as i64,
            (b._ori.y + b._size.y) as i64,
        ),
        z: spec_nearest(
            sphere._ori.z,
            (b._ori.z - b._size.z) as i64,
            (b._ori.z + b._size.z) as i64,
        ),
    };
    let reach = sphere._radius as int + b._vicinity as int;
    if sphere._ori@.minus(near@).norm2() <= reach * reach {
        (true, Some(near))
    } else {
        (false, None)
    }
}

fn nearest(c: i64, lower: i64, upper: i64) -> (r: i64)
    ensures
        r == spec_nearest(c, lower, upper),
{
    if c < lower {
        lower
    } else if c > upper {
        upper
    } else {
        c
    }
}

impl RecBox {
    /// Decides whether the box and a sphere intersect, by the tolerance of
    /// the box.
    pub fn intersect_sphere(&self, sphere: &Sphere) -> (r: (bool, Option<Vec3>))
        requires
            self.wf(),
        ensures
            r == spec_box_sphere(*self, *sphere),
    {
        let near: Vec3 = Vec3 {
            x: nearest(sphere._ori.x, self._ori.x - self._size.x, self._ori.x + self._size.x),
            y: nearest(sphere._ori.y, self._ori.y - self._size.y, self._ori.y + self._size.y),
            z: nearest(sphere._ori.z, self._ori.z - self._size.z, self._ori.z + self._size.z),
        };
        let gap: BigVec3 = BigVec3::from_vec3(&sphere._ori).minus(&BigVec3::from_vec3(&near));
        let reach: BigInt = BigInt::from_i64(sphere._radius).add(&BigInt::from_u64(self._vicinity));
        if gap.norm2().le(&reach.mul(&reach)) {
            (true, Some(near))
        } else {
            (false, None)
        }
    }

    /// Decides whether the box and another shape intersect, by the general
    /// test on the hulls of the two.
    pub fn get_intersect(&self, other: &Shape) -> (r: (bool, Option<Vec3>))
        requires
            self.wf(),
            other.wf(),
            spec_supported(ShapeType::Box, other.spec_type()),
        ensures
            r == spec_intersect(Shape::Box(*self), *other),
    {
        if !self._bound.intersect(other.get_bound()) {
            return (false, None);
        }
        match other {
            Shape::Point(p) => convex_pair(&p.hull(), &self.hull(), self._vicinity),
            Shape::Ray(s) => {
                if s._dir_given.x == 0 && s._dir_given.y == 0 && s._dir_given.z == 0 {
                    (false, None)
                } else {
                    convex_pair(&s.hull(), &self.hull(), self._vicinity)
                }
            },
            Shape::Box(s) => {
                if precedes(
                    &self.get_shape_data(),
                    self._vicinity,
                    &s.get_shape_data(),
                    s._vicinity,
                ) {
                    convex_pair(&self.hull(), &s.hull(), s._vicinity)
                } else {
                    convex_pair(&s.hull(), &self.hull(), self._vicinity)
                }
            },
            Shape::Sphere(s) => self.intersect_sphere(s),
            Shape::Plane(s) => s.intersect_hull(&self.vertices(), self._vicinity),
            Shape::TriPrism(s) => s.get_intersect(&Shape::Box(*self)),
        }
    }

    /// The values that define the box: its center, then its half-extents.
    pub open spec fn spec_shape_data(self) -> Seq<i64> {
        seq![self._ori.x, self._ori.y, self._ori.z, self._size.x, self._size.y, self._size.z]
    }

    /// The half-extents are not negative, the corners have coordinates that
    /// an `i64` holds, and the bounding volume is the box itself.
    pub open spec fn wf(self) -> bool {
        &&& spec_axis_fits(self._ori.x, self._size.x)
        &&& spec_axis_fits(self._ori.y, self._size.y)
        &&& spec_axis_fits(self._ori.z, self._size.z)
        &&& self._bound == AxisAlignedBBox::spec_init(ShapeType::Box, self.spec_shape_data())
    }

    /// The eight corners, the lower face first.
    pub open spec fn spec_vertices(self) -> Seq<Vec3> {
        let lx = (self._ori.x - self._size.x) as i64;
        let ly = (self._ori.y - self._size.y) as i64;
        let lz = (self._ori.z - self._size.z) as i64;
        let ux = (self._ori.x + self._size.x) as i64;
        let uy = (self._ori.y + self._size.y) as i64;
        let uz = (self._ori.z + self._size.z) as i64;
        seq![
            Vec3 { x: lx, y: ly, z: lz },
            Vec3 { x: ux, y: ly, z: lz },
            Vec3 { x: lx, y: uy, z: lz },
            Vec3 { x: ux, y: uy, z: lz },
            Vec3 { x: lx, y: ly, z: uz },
            Vec3 { x: ux, y: ly, z: uz },
            Vec3 { x: lx, y: uy, z: uz },
            Vec3 { x: ux, y: uy, z: uz },
        ]
    }

    /// Builds a box from the three coordinates of its center and its three
    /// half-extents.
    pub fn init(origin: &[i64], size: &[i64]) -> (r: RecBox)
        requires
            origin@.len() == 3,
            size@.len() == 3,
            spec_axis_fits(origin@[0], size@[0]),
            spec_axis_fits(origin@[1], size@[1]),
            spec_axis_fits(origin@[2], size@[2]),
        ensures
            r.spec_shape_data() == origin@ + size@,
            r._vicinity == DEFAULT_VICINITY,
            r.wf(),
    {
        let vals: Vec<i64> = vec![origin[0], origin[1], origin[2], size[0], size[1], size[2]];
        let r = RecBox {
            _ori: Vec3 { x: origin[0], y: origin[1], z: origin[2] },
            _size: Vec3 { x: size[0], y: size[1], z: size[2] },
            _bound: AxisAlignedBBox::init(ShapeType::Box, vals.as_slice()),
            _vicinity: DEFAULT_VICINITY,
        };
        assert(r.spec_shape_data() =~= origin@ + size@);
        assert(vals@ =~= r.spec_shape_data());
        r
    }

    pub fn get_shape_data(&self) -> (r: Vec<i64>)
        ensures
            r@ == self.spec_shape_data(),
    {
        vec![self._ori.x, self._ori.y, self._ori.z, self._size.x, self._size.y, self._size.z]
    }

    pub fn get_type(&self) -> (r: ShapeType)
        ensures
            r == ShapeType::Box,
    {
        ShapeType::Box
    }

    /// The hull of the box: its corners.
    pub open spec fn spec_hull(self) -> Seq<V3> {
        unit_views(self.spec_vertices())
    }

    pub fn hull(&self) -> (r: Vec<BigVec3>)
        requires
            self.wf(),
        ensures
            r@.len() == 8,
            big_views(r@) == self.spec_hull(),
    {
        let verts: Vec<Vec3> = self.vertices();
        widen(&verts)
    }

    /// The eight corners of the box.
    pub fn vertices(&self) -> (r: Vec<Vec3>)
        requires
            self.wf(),
        ensures
            r@ == self.spec_vertices(),
    {
        let lx: i64 = self._ori.x - self._size.x;
        let ly: i64 = self._ori.y - self._size.y;
        let lz: i64 = self._ori.z - self._size.z;
        let ux: i64 = self._ori.x + self._size.x;
        let uy: i64 = self._ori.y + self._size.y;
        let uz: i64 = self._ori.z + self._size.z;
        let r: Vec<Vec3> = vec![
            Vec3 { x: lx, y: ly, z: lz },
            Vec3 { x: ux, y: ly, z: lz },
            Vec3 { x: lx, y: uy, z: lz },
            Vec3 { x: ux, y: uy, z: lz },
            Vec3 { x: lx, y: ly, z: uz },
            Vec3 { x: ux, y: ly, z: uz },
            Vec3 { x: lx, y: uy, z: uz },
            Vec3 { x: ux, y: uy, z: uz },
        ];
        assert(r@ =~= self.spec_vertices());
        r
    }

    /// The point of the box that reaches farthest along `v`: the first of
    /// the corners that do.
    pub fn get_support(&self, v: &Vec3) -> (r: Option<Vec3>)
        requires
            self.wf(),
        ensures
            r == Some(
                self.spec_vertices()[spec_support_index(
                    unit_views(self.spec_vertices()),
                    v@,
                    8,
                )],
            ),
    {
        let verts: Vec<Vec3> = self.vertices();
        Some(extreme_vertex(&verts, v))
    }

    /// Stores the magnitude of `epsilon` as the tolerance of the shape.
    pub fn set_vicinity(&mut self, epsilon: i64)
        ensures
            *final(self) == (RecBox { _vicinity: spec_abs(epsilon as int) as u64, ..*old(self) }),
    {
        self._vicinity = magnitude(epsilon);
    }

    /// Whether two scalars are equal within the tolerance of the shape.
    pub fn within_vicinity(&self, a: i64, b: i64) -> (r: bool)
        ensures
            r == spec_within(self._vicinity as int, a as int, b as int),
    {
        within(self._vicinity, a, b)
    }

    pub fn get_bound(&self) -> (r: &AxisAlignedBBox)
        ensures
            *r == self._bound,
    {
        &self._bound
    }
}

} // verus!
