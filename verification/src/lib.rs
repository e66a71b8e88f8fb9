//! Exact intersection tests between simple convex shapes in three dimensions.
//!
//! Coordinates are integers that count fixed-point units, a thousand million
//! to the length one. Every predicate is the sign of a polynomial in the
//! coordinates and is evaluated on integers of unbounded size, so that the
//! stated contracts hold without rounding and without a limit on the
//! coordinates.
//!
//! A pair of shapes is tested by `Shape::get_intersect`: first by the
//! bounding volumes of the two, then by a closed form where one exists, else
//! by the general test on convex hulls.

pub mod bigint;
pub mod bound_aabb;
pub mod intersect_gjk;
pub mod plane;
pub mod point;
pub mod ray;
pub mod rbox;
pub mod shape;
pub mod sphere;
pub mod support;
pub mod triprism;
pub mod vec3;
pub mod vicinity;
