use intersect3d::bound_aabb::{AxisAlignedBBox, Extent};
use intersect3d::plane::Plane;
use intersect3d::point::Point3;
use intersect3d::ray::Ray3;
use intersect3d::rbox::RecBox;
use intersect3d::shape::{Shape, ShapeType};
use intersect3d::sphere::Sphere;
use intersect3d::triprism::TriPrism;

fn bounded(lower: i64, upper: i64) -> Extent {
    Extent { lower, upper, unbounded: false }
}

#[test]
fn bound_of_a_point_is_the_point() {
    let b = AxisAlignedBBox::init(ShapeType::Point, &[1, -2, 3]);
    assert_eq!(b, AxisAlignedBBox { x: bounded(1, 1), y: bounded(-2, -2), z: bounded(3, 3) });
    assert!(!b.is_unbounded());
    assert_eq!(*Point3::init(&[1, -2, 3]).get_bound(), b);
}

#[test]
fn bound_of_a_ray_is_open_along_its_direction() {
    let b = AxisAlignedBBox::init(ShapeType::Ray, &[1, 2, 3, 0, -4, 0]);
    assert_eq!(b.x, bounded(1, 1));
    assert!(b.y.unbounded);
    assert_eq!(b.z, bounded(3, 3));
    assert!(b.is_unbounded());
    assert_eq!(*Ray3::init(&[1, 2, 3], &[0, -4, 0]).get_bound(), b);
}

#[test]
fn bound_of_a_plane_is_open_on_every_axis() {
    let b = AxisAlignedBBox::init(ShapeType::Plane, &[1, 1, 1, 0, 1, 0]);
    assert!(b.x.unbounded && b.y.unbounded && b.z.unbounded);
    assert_eq!(*Plane::init(&[1, 1, 1], &[0, 1, 0]).get_bound(), b);
    let far = AxisAlignedBBox::init(ShapeType::Point, &[i64::MAX, i64::MIN, 0]);
    assert!(b.intersect(&far) && far.intersect(&b));
}

#[test]
fn bound_of_a_sphere_and_of_a_box() {
    let s = AxisAlignedBBox::init(ShapeType::Sphere, &[10, 20, 30, 5]);
    assert_eq!(s, AxisAlignedBBox { x: bounded(5, 15), y: bounded(15, 25), z: bounded(25, 35) });
    assert_eq!(*Sphere::init(&[10, 20, 30], 5).get_bound(), s);
    let b = AxisAlignedBBox::init(ShapeType::Box, &[10, 20, 30, 1, 2, 3]);
    assert_eq!(b, AxisAlignedBBox { x: bounded(9, 11), y: bounded(18, 22), z: bounded(27, 33) });
    assert_eq!(*RecBox::init(&[10, 20, 30], &[1, 2, 3]).get_bound(), b);
}

#[test]
fn bound_of_a_sphere_stops_at_the_range_of_coordinates() {
    let s = AxisAlignedBBox::init(ShapeType::Sphere, &[i64::MAX - 1, i64::MIN + 1, 0, 10]);
    assert_eq!(s.x, bounded(i64::MAX - 11, i64::MAX));
    assert_eq!(s.y, bounded(i64::MIN, i64::MIN + 11));
    assert_eq!(s.z, bounded(-10, 10));
}

#[test]
fn bound_of_a_prism_spans_its_vertices() {
    let vals = [0, 0, 0, 10, 0, 0, 0, 10, 0, 0, 0, 7, 10, 0, 7, -3, 10, 9];
    let b = AxisAlignedBBox::init(ShapeType::TriPrism, &vals);
    assert_eq!(b, AxisAlignedBBox { x: bounded(-3, 10), y: bounded(0, 10), z: bounded(0, 9) });
    assert_eq!(*TriPrism::init(&vals).get_bound(), b);
    let flat = AxisAlignedBBox::init(ShapeType::TriPrism, &[5, 1, 2, 4, 1, 3, 6, 1, 1]);
    assert_eq!(flat, AxisAlignedBBox { x: bounded(4, 6), y: bounded(1, 1), z: bounded(1, 3) });
}

#[test]
fn bounds_overlap_by_exact_comparison() {
    let a = AxisAlignedBBox::init(ShapeType::Box, &[0, 0, 0, 10, 10, 10]);
    let touching = AxisAlignedBBox::init(ShapeType::Box, &[20, 0, 0, 10, 10, 10]);
    let apart = AxisAlignedBBox::init(ShapeType::Box, &[21, 0, 0, 10, 10, 10]);
    let off_axis = AxisAlignedBBox::init(ShapeType::Box, &[0, 0, 25, 10, 10, 10]);
    assert!(a.intersect(&touching) && touching.intersect(&a));
    assert!(!a.intersect(&apart) && !apart.intersect(&a));
    assert!(!a.intersect(&off_axis));
    assert!(a.intersect(&a));
}

#[test]
fn shapes_whose_bounds_are_apart_do_not_intersect() {
    let shapes = vec![
        Shape::Point(Point3::init(&[0, 0, 0])),
        Shape::Sphere(Sphere::init(&[0, 0, 0], 3)),
        Shape::Box(RecBox::init(&[0, 0, 0], &[3, 3, 3])),
        Shape::TriPrism(TriPrism::init(&[0, 0, 0, 3, 0, 0, 0, 3, 0])),
        Shape::Ray(Ray3::init(&[0, 0, 0], &[0, 0, 1])),
    ];
    let others = vec![
        Shape::Point(Point3::init(&[100, 0, 0])),
        Shape::Box(RecBox::init(&[100, 0, 0], &[3, 3, 3])),
        Shape::Ray(Ray3::init(&[100, 0, 0], &[0, 1, 0])),
    ];
    for a in &shapes {
        for b in &others {
            assert!(!a.get_bound().intersect(b.get_bound()));
            assert_eq!(a.get_intersect(b), (false, None), "{:?} {:?}", a, b);
            assert_eq!(b.get_intersect(a), (false, None), "{:?} {:?}", b, a);
        }
    }
}
