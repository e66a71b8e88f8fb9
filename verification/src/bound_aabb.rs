//! Axis-aligned bounding volumes.
//!
//! A bounding volume holds one extent per axis. An extent is either an
//! interval of units or marked as unbounded; shapes that reach to infinity
//! along an axis are marked, never clamped to a large number.

use crate::shape::ShapeType;
use crate::vec3::V3;
use vstd::prelude::*;

verus! {

/// The extent of a bounding volume along one axis.
#[derive(Clone, Copy, Debug, PartialEq, Eq, Structural)]
pub struct Extent {
    pub lower: i64,
    pub upper: i64,
    pub unbounded: bool,
}

impl Extent {
    pub open spec fn wf(self) -> bool {
        self.lower <= self.upper
    }

    /// The two extents have a coordinate in common.
    pub open spec fn overlaps(self, o: Extent) -> bool {
        self.unbounded || o.unbounded || (self.lower <= o.upper && o.lower <= self.upper)
    }

    /// The extent holds the coordinate `c`.
    pub open spec fn holds(self, c: int) -> bool {
        self.unbounded || self.lower <= c <= self.upper
    }

    pub fn intersect(&self, o: &Extent) -> (r: bool)
        ensures
            r == self.overlaps(*o),
    {
        self.unbounded || o.unbounded || (self.lower <= o.upper && o.lower <= self.upper)
    }
}

/// The nearest value to `v` that an `i64` holds.
pub open spec fn spec_clamp(v: int) -> int {
    if v < i64::MIN {
        i64::MIN as int
    } else if v > i64::MAX {
        i64::MAX as int
    } else {
        v
    }
}

fn clamp(v: i128) -> (r: i64)
    ensures
        r == spec_clamp(v as int),
{
    if v < i64::MIN as i128 {
        i64::MIN
    } else if v > i64::MAX as i128 {
        i64::MAX
    } else {
        v as i64
    }
}

/// The least of the coordinates `vals[axis]`, `vals[axis + 3]`, ... of the
/// first `count` vertices.
pub open spec fn spec_axis_min(vals: Seq<i64>, axis: int, count: nat) -> int
    decreases count,
{
    if count <= 1 {
        vals[axis] as int
    } else {
        let rest = spec_axis_min(vals, axis, (count - 1) as nat);
        let last = vals[3 * (count - 1) + axis] as int;
        if last < rest {
            last
        } else {
            rest
        }
    }
}

/// The greatest of the coordinates `vals[axis]`, `vals[axis + 3]`, ... of the
/// first `count` vertices.
pub open spec fn spec_axis_max(vals: Seq<i64>, axis: int, count: nat) -> int
    decreases count,
{
    if count <= 1 {
        vals[axis] as int
    } else {
        let rest = spec_axis_max(vals, axis, (count - 1) as nat);
        let last = vals[3 * (count - 1) + axis] as int;
        if last > rest {
            last
        } else {
            rest
        }
    }
}

/// Every vertex lies between the least and the greatest coordinate.
pub proof fn lemma_axis_range(vals: Seq<i64>, axis: int, count: nat, j: int)
    requires
        0 <= j < count,
    ensures
        spec_axis_min(vals, axis, count) <= vals[3 * j + axis] <= spec_axis_max(vals, axis, count),
        i64::MIN <= spec_axis_min(vals, axis, count),
        spec_axis_max(vals, axis, count) <= i64::MAX,
    decreases count,
{
    if count > 1 {
        if j < count - 1 {
            lemma_axis_range(vals, axis, (count - 1) as nat, j);
        } else {
            lemma_axis_range(vals, axis, (count - 1) as nat, 0);
        }
    }
}

/// The extent of a shape along one axis.
pub open spec fn spec_extent(shape_type: ShapeType, vals: Seq<i64>, axis: int) -> Extent {
    match shape_type {
        ShapeType::Point => Extent { lower: vals[axis], upper: vals[axis], unbounded: false },
        ShapeType::Ray => Extent {
            lower: vals[axis],
            upper: vals[axis],
            unbounded: vals[3 + axis] != 0,
        },
        ShapeType::Plane => Extent { lower: vals[axis], upper: vals[axis], unbounded: true },
        ShapeType::Sphere => Extent {
            lower: spec_clamp(vals[axis] - vals[3]) as i64,
            upper: spec_clamp(vals[axis] + vals[3]) as i64,
            unbounded: false,
        },
        ShapeType::Box => Extent {
            lower: spec_clamp(vals[axis] - vals[3 + axis]) as i64,
            upper: spec_clamp(vals[axis] + vals[3 + axis]) as i64,
            unbounded: false,
        },
        ShapeType::TriPrism => Extent {
            lower: spec_axis_min(vals, axis, (vals.len() / 3) as nat) as i64,
            upper: spec_axis_max(vals, axis, (vals.len() / 3) as nat) as i64,
            unbounded: false,
        },
    }
}

/// The values that define a shape of the given variant: their number, and
/// that a radius or a half-extent is not negative.
pub open spec fn spec_valid_data(shape_type: ShapeType, vals: Seq<i64>) -> bool {
    match shape_type {
        ShapeType::Point => vals.len() == 3,
        ShapeType::Ray => vals.len() == 6,
        ShapeType::Plane => vals.len() == 6,
        ShapeType::Sphere => vals.len() == 4 && vals[3] >= 0,
        ShapeType::Box => vals.len() == 6 && vals[3] >= 0 && vals[4] >= 0 && vals[5] >= 0,
        ShapeType::TriPrism => vals.len() == 9 || vals.len() == 18,
    }
}

/// An axis-aligned bounding volume.
#[derive(Clone, Copy, Debug, PartialEq, Eq, Structural)]
pub struct AxisAlignedBBox {
    pub x: Extent,
    pub y: Extent,
    pub z: Extent,
}

fn axis_extent(shape_type: ShapeType, vals: &[i64], axis: usize) -> (r: Extent)
    requires
        spec_valid_data(shape_type, vals@),
        axis < 3,
    ensures
        r == spec_extent(shape_type, vals@, axis as int),
        r.wf(),
{
    match shape_type {
        ShapeType::Point => Extent { lower: vals[axis], upper: vals[axis], unbounded: false },
        ShapeType::Ray => Extent {
            lower: vals[axis],
            upper: vals[axis],
            unbounded: vals[3 + axis] != 0,
        },
        ShapeType::Plane => Extent { lower: vals[axis], upper: vals[axis], unbounded: true },
        ShapeType::Sphere => {
            let c: i128 = vals[axis] as i128;
            let r: i128 = vals[3] as i128;
            Extent { lower: clamp(c - r), upper: clamp(c + r), unbounded: false }
        },
        ShapeType::Box => {
            let c: i128 = vals[axis] as i128;
            let h: i128 = vals[3 + axis] as i128;
            Extent { lower: clamp(c - h), upper: clamp(c + h), unbounded: false }
        },
        ShapeType::TriPrism => {
            let count: usize = vals.len() / 3;
            let mut lo: i64 = vals[axis];
            let mut hi: i64 = vals[axis];
            let mut k: usize = 1;
            while k < count
                invariant
                    1 <= k <= count,
                    count == vals@.len() / 3,
                    vals@.len() == 9 || vals@.len() == 18,
                    axis < 3,
                    lo == spec_axis_min(vals@, axis as int, k as nat),
                    hi == spec_axis_max(vals@, axis as int, k as nat),
                    lo <= hi,
                decreases count - k,
            {
                let v: i64 = vals[3 * k + axis];
                if v < lo {
                    lo = v;
                }
                if v > hi {
                    hi = v;
                }
                k = k + 1;
            }
            Extent { lower: lo, upper: hi, unbounded: false }
        },
    }
}

impl AxisAlignedBBox {
    pub open spec fn wf(self) -> bool {
        self.x.wf() && self.y.wf() && self.z.wf()
    }

    /// The two volumes overlap: their extents overlap on every axis.
    pub open spec fn overlaps(self, o: AxisAlignedBBox) -> bool {
        self.x.overlaps(o.x) && self.y.overlaps(o.y) && self.z.overlaps(o.z)
    }

    /// Whether an axis of the volume is unbounded.
    pub open spec fn spec_is_unbounded(self) -> bool {
        self.x.unbounded || self.y.unbounded || self.z.unbounded
    }

    /// The volume holds the point `(x, y, z)`.
    pub open spec fn holds(self, x: int, y: int, z: int) -> bool {
        self.x.holds(x) && self.y.holds(y) && self.z.holds(z)
    }

    /// The volume holds every vertex of a hull.
    pub open spec fn holds_hull(self, hull: Seq<V3>) -> bool {
        forall|i: int| 0 <= i < hull.len() ==> self.holds(
            (#[trigger] hull[i]).x,
            hull[i].y,
            hull[i].z,
        )
    }

    /// The bounding volume of the shape that `vals` defines.
    pub open spec fn spec_init(shape_type: ShapeType, vals: Seq<i64>) -> AxisAlignedBBox {
        AxisAlignedBBox {
            x: spec_extent(shape_type, vals, 0),
            y: spec_extent(shape_type, vals, 1),
            z: spec_extent(shape_type, vals, 2),
        }
    }

    /// Builds the bounding volume of a shape from the values that define it.
    pub fn init(shape_type: ShapeType, vals: &[i64]) -> (r: AxisAlignedBBox)
        requires
            spec_valid_data(shape_type, vals@),
        ensures
            r == Self::spec_init(shape_type, vals@),
            r.wf(),
    {
        AxisAlignedBBox {
            x: axis_extent(shape_type, vals, 0),
            y: axis_extent(shape_type, vals, 1),
            z: axis_extent(shape_type, vals, 2),
        }
    }

    /// Decides whether two bounding volumes overlap, by exact comparison of
    /// their extents.
    pub fn intersect(&self, other: &AxisAlignedBBox) -> (r: bool)
        ensures
            r == self.overlaps(*other),
    {
        self.x.intersect(&other.x) && self.y.intersect(&other.y) && self.z.intersect(&other.z)
    }

    pub fn is_unbounded(&self) -> (r: bool)
        ensures
            r == self.spec_is_unbounded(),
    {
        self.x.unbounded || self.y.unbounded || self.z.unbounded
    }
}

/// Overlap does not depend on the order of the two volumes.
pub proof fn lemma_overlaps_symmetric(a: AxisAlignedBBox, b: AxisAlignedBBox)
    ensures
        a.overlaps(b) == b.overlaps(a),
{
}

/// Two volumes that hold a common point overlap.
pub proof fn lemma_common_point_overlaps(a: AxisAlignedBBox, b: AxisAlignedBBox, x: int, y: int, z: int)
    requires
        a.holds(x, y, z),
        b.holds(x, y, z),
    ensures
        a.overlaps(b),
{
}

} // verus!
