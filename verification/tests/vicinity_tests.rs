use intersect3d::plane::Plane;
use intersect3d::point::Point3;
use intersect3d::ray::Ray3;
use intersect3d::rbox::RecBox;
use intersect3d::shape::{Shape, ShapeType};
use intersect3d::sphere::Sphere;
use intersect3d::triprism::TriPrism;
use intersect3d::vec3::{normalized, Vec3};
use intersect3d::vicinity::{magnitude, within, DEFAULT_VICINITY, UNITS_PER_ONE};

#[test]
fn default_tolerance_is_a_millionth() {
    assert_eq!(UNITS_PER_ONE, 1_000_000_000);
    assert_eq!(DEFAULT_VICINITY as f64 / UNITS_PER_ONE as f64, 0.000001f64);
    assert_eq!(Point3::init(&[0, 0, 0])._vicinity, DEFAULT_VICINITY);
    assert_eq!(Ray3::init(&[0, 0, 0], &[1, 0, 0])._vicinity, DEFAULT_VICINITY);
    assert_eq!(Plane::init(&[0, 0, 0], &[1, 0, 0])._vicinity, DEFAULT_VICINITY);
    assert_eq!(Sphere::init(&[0, 0, 0], 1)._vicinity, DEFAULT_VICINITY);
    assert_eq!(RecBox::init(&[0, 0, 0], &[1, 1, 1])._vicinity, DEFAULT_VICINITY);
    assert_eq!(TriPrism::init(&[0, 0, 0, 1, 0, 0, 0, 1, 0])._vicinity, DEFAULT_VICINITY);
}

#[test]
fn within_is_a_bound_on_the_distance() {
    assert!(within(0, 5, 5));
    assert!(!within(0, 5, 6));
    assert!(within(2, 5, 7) && within(2, 7, 5));
    assert!(!within(2, 5, 8) && !within(2, 8, 5));
    assert!(within(u64::MAX, i64::MIN, i64::MAX));
    assert!(!within(u64::MAX - 1, i64::MIN, i64::MAX));
    assert!(!within(10, i64::MIN, i64::MAX));
    assert!(within(1, i64::MAX, i64::MAX - 1));
}

#[test]
fn set_vicinity_stores_the_magnitude() {
    assert_eq!(magnitude(0), 0);
    assert_eq!(magnitude(-7), 7);
    assert_eq!(magnitude(i64::MIN), 9_223_372_036_854_775_808u64);
    assert_eq!(magnitude(i64::MAX), i64::MAX as u64);
    let mut p = Point3::init(&[1, 2, 3]);
    let before = p;
    p.set_vicinity(-25);
    assert_eq!(p._vicinity, 25);
    assert_eq!((p._ori, p._bound), (before._ori, before._bound));
    assert!(p.within_vicinity(100, 125) && !p.within_vicinity(100, 126));
    let mut l = Plane::init(&[0, 0, 0], &[0, 0, 1]);
    l.set_vicinity(3);
    assert!(l.within_vicinity(-1, 2) && !l.within_vicinity(-2, 2));
    let mut t = TriPrism::init(&[0, 0, 0, 1, 0, 0, 0, 1, 0]);
    t.set_vicinity(i64::MIN);
    assert_eq!(t._vicinity, 1u64 << 63);
    assert_eq!(t._vertices.len(), 3);
}

#[test]
fn shapes_give_their_type_and_data() {
    let p = Point3::init(&[1, 2, 3]);
    let r = Ray3::init(&[1, 2, 3], &[4, 5, 6]);
    let l = Plane::init(&[1, 2, 3], &[0, 0, 9]);
    let s = Sphere::init(&[1, 2, 3], 4);
    let b = RecBox::init(&[1, 2, 3], &[4, 5, 6]);
    let t = TriPrism::init(&[1, 2, 3, 4, 5, 6, 7, 8, 10]);
    assert_eq!((p.get_type(), p.get_shape_data()), (ShapeType::Point, vec![1, 2, 3]));
    assert_eq!((r.get_type(), r.get_shape_data()), (
        ShapeType::Ray,
        vec![1, 2, 3, 455_842_306, 569_802_882, 683_763_459],
    ));
    assert_eq!((l.get_type(), l.get_shape_data()), (ShapeType::Plane, vec![1, 2, 3, 0, 0, 1_000_000_000]));
    assert_eq!((s.get_type(), s.get_shape_data()), (ShapeType::Sphere, vec![1, 2, 3, 4]));
    assert_eq!((b.get_type(), b.get_shape_data()), (ShapeType::Box, vec![1, 2, 3, 4, 5, 6]));
    assert_eq!(
        (t.get_type(), t.get_shape_data()),
        (ShapeType::TriPrism, vec![1, 2, 3, 4, 5, 6, 7, 8, 10])
    );
    let six = TriPrism::init(&[0, 0, 0, 1, 0, 0, 0, 1, 0, 0, 0, 1, 1, 0, 1, 0, 1, 1]);
    assert_eq!(six._vertices.len(), 6);
    assert_eq!(six.get_shape_data().len(), 18);
    let shapes = [
        Shape::Point(p),
        Shape::Ray(r),
        Shape::Sphere(s),
        Shape::Plane(l),
        Shape::Box(b),
        Shape::TriPrism(t),
    ];
    let ranks: Vec<u8> = shapes.iter().map(|x| x.get_type().rank()).collect();
    assert_eq!(ranks, vec![0, 1, 2, 3, 4, 5]);
    let open: Vec<bool> = shapes.iter().map(|x| x.get_type().is_unbounded()).collect();
    assert_eq!(open, vec![false, true, false, true, false, false]);
    assert_eq!(
        shapes[1].get_shape_data(),
        vec![1, 2, 3, 455_842_306, 569_802_882, 683_763_459]
    );
    assert_eq!(shapes[3].get_shape_data(), vec![1, 2, 3, 0, 0, 1_000_000_000]);
    assert_eq!(r.given_data(), vec![1, 2, 3, 4, 5, 6]);
    assert_eq!(l.given_data(), vec![1, 2, 3, 0, 0, 9]);
    assert!(shapes[4].within_vicinity(5, 1005) && !shapes[4].within_vicinity(5, 1006));
}

#[test]
fn plane_reports_the_normal_of_length_one() {
    let one = UNITS_PER_ONE;
    let l = Plane::init(&[one, one, one], &[0, 2 * one, 0]);
    assert_eq!(l.get_shape_data(), vec![one, one, one, 0, one, 0]);
    assert_eq!(l.given_data(), vec![one, one, one, 0, 2 * one, 0]);
    assert_eq!(Shape::Plane(l).get_shape_data(), vec![one, one, one, 0, one, 0]);
    let tilted = Plane::init(&[0, 0, 7], &[-3, 4, 0]);
    assert_eq!(tilted.get_shape_data(), vec![0, 0, 7, -600_000_000, 800_000_000, 0]);
    let thirds = Plane::init(&[0, 0, 0], &[1, -2, 2]);
    assert_eq!(thirds.get_shape_data(), vec![0, 0, 0, 333_333_333, -666_666_667, 666_666_667]);
    let flat = Plane::init(&[4, 5, 6], &[0, 0, 0]);
    assert_eq!(flat.get_shape_data(), vec![4, 5, 6, 0, 0, 0]);
}

#[test]
fn ray_reports_the_direction_of_length_one() {
    let one = UNITS_PER_ONE;
    let r = Ray3::init(&[one, 0, -one], &[0, 0, -5]);
    assert_eq!(r.get_shape_data(), vec![one, 0, -one, 0, 0, -one]);
    assert_eq!(r.given_data(), vec![one, 0, -one, 0, 0, -5]);
    let diagonal = Ray3::init(&[0, 0, 0], &[one, one, one]);
    assert_eq!(diagonal.get_shape_data(), vec![0, 0, 0, 577_350_269, 577_350_269, 577_350_269]);
    let still = Ray3::init(&[1, 2, 3], &[0, 0, 0]);
    assert_eq!(still.get_shape_data(), vec![1, 2, 3, 0, 0, 0]);
    // The bound follows the direction as given, not the rounded one.
    let shallow = Ray3::init(&[0, 0, 0], &[i64::MAX, 0, 1]);
    assert_eq!(shallow.get_shape_data(), vec![0, 0, 0, one, 0, 0]);
    assert!(shallow._bound.z.unbounded);
    assert!(!shallow._bound.y.unbounded);
}

#[test]
fn normalized_rounds_to_the_nearest_unit() {
    assert_eq!(normalized(&Vec3::new(0, 0, 0)), Vec3::new(0, 0, 0));
    assert_eq!(normalized(&Vec3::new(7, 0, 0)), Vec3::new(1_000_000_000, 0, 0));
    assert_eq!(normalized(&Vec3::new(3, 4, 12)), Vec3::new(230_769_231, 307_692_308, 923_076_923));
    assert_eq!(
        normalized(&Vec3::new(i64::MAX, i64::MIN, 1)),
        Vec3::new(707_106_781, -707_106_781, 0)
    );
    assert_eq!(
        normalized(&Vec3::new(-4, -5, -6)),
        Vec3::new(-455_842_306, -569_802_882, -683_763_459)
    );
}

#[test]
fn rounding_of_a_length_stays_below_the_default_tolerance() {
    // A point that is half a unit off a plane, as rounding may leave it, is on the plane.
    let one = UNITS_PER_ONE;
    let l = Shape::Plane(Plane::init(&[0, 0, one], &[0, 0, one]));
    let on = Shape::Point(Point3::init(&[3 * one, -one, one + 1]));
    let near = Shape::Point(Point3::init(&[3 * one, -one, one + 1000]));
    let off = Shape::Point(Point3::init(&[3 * one, -one, one + 1001]));
    assert!(l.get_intersect(&on).0 && on.get_intersect(&l).0);
    assert!(l.get_intersect(&near).0);
    assert!(!l.get_intersect(&off).0);
}
