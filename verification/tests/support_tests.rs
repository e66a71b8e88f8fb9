use intersect3d::plane::Plane;
use intersect3d::point::Point3;
use intersect3d::ray::Ray3;
use intersect3d::rbox::RecBox;
use intersect3d::shape::Shape;
use intersect3d::sphere::Sphere;
use intersect3d::triprism::TriPrism;
use intersect3d::vec3::Vec3;

#[test]
fn support_of_a_point_is_the_point() {
    let p = Point3::init(&[4, 5, 6]);
    assert_eq!(p.get_support(&Vec3::new(1, 0, 0)), Some(Vec3::new(4, 5, 6)));
    assert_eq!(p.get_support(&Vec3::new(0, 0, 0)), Some(Vec3::new(4, 5, 6)));
}

#[test]
fn support_of_a_ray_is_its_origin_or_nothing() {
    let r = Ray3::init(&[1, 2, 3], &[1, 1, 0]);
    assert_eq!(r.get_support(&Vec3::new(-1, 0, 0)), Some(Vec3::new(1, 2, 3)));
    assert_eq!(r.get_support(&Vec3::new(1, -1, 5)), Some(Vec3::new(1, 2, 3)));
    assert_eq!(r.get_support(&Vec3::new(1, 0, 0)), None);
}

#[test]
fn support_of_a_plane_is_nothing() {
    let l = Plane::init(&[1, 2, 3], &[0, 0, 1]);
    assert_eq!(l.get_support(&Vec3::new(0, 0, 1)), None);
    assert_eq!(l.get_support(&Vec3::new(1, 0, 0)), None);
}

#[test]
fn support_of_a_box_is_its_extreme_corner() {
    let b = RecBox::init(&[10, 20, 30], &[1, 2, 3]);
    assert_eq!(b.get_support(&Vec3::new(1, 1, 1)), Some(Vec3::new(11, 22, 33)));
    assert_eq!(b.get_support(&Vec3::new(-1, 5, -2)), Some(Vec3::new(9, 22, 27)));
    // Among corners that reach equally far the first one is taken.
    assert_eq!(b.get_support(&Vec3::new(1, 0, 0)), Some(Vec3::new(11, 18, 27)));
    assert_eq!(b.get_support(&Vec3::new(0, 0, 0)), Some(Vec3::new(9, 18, 27)));
    assert_eq!(b.vertices().len(), 8);
}

#[test]
fn support_of_a_prism_is_its_extreme_vertex() {
    let t = TriPrism::init(&[0, 0, 0, 10, 0, 0, 0, 10, 0, 0, 0, 5, 10, 0, 5, 0, 10, 5]);
    assert_eq!(t.get_support(&Vec3::new(1, 0, 1)), Some(Vec3::new(10, 0, 5)));
    assert_eq!(t.get_support(&Vec3::new(-1, -1, -1)), Some(Vec3::new(0, 0, 0)));
    assert_eq!(t.get_support(&Vec3::new(1, 2, 0)), Some(Vec3::new(0, 10, 0)));
    let big = i64::MAX;
    assert_eq!(t.get_support(&Vec3::new(big, big, big)), Some(Vec3::new(10, 0, 5)));
}

#[test]
fn support_of_a_sphere_is_rounded_toward_its_center() {
    let s = Sphere::init(&[100, 200, 300], 5);
    assert_eq!(s.get_support(&Vec3::new(3, 4, 0)), Some(Vec3::new(103, 204, 300)));
    assert_eq!(s.get_support(&Vec3::new(-6, 0, 8)), Some(Vec3::new(97, 200, 304)));
    assert_eq!(s.get_support(&Vec3::new(0, -9, 0)), Some(Vec3::new(100, 195, 300)));
    // 5 / sqrt(3) is 2.88, 5 / sqrt(2) is 3.53.
    assert_eq!(s.get_support(&Vec3::new(1, 1, 1)), Some(Vec3::new(102, 202, 302)));
    assert_eq!(s.get_support(&Vec3::new(-7, 7, 0)), Some(Vec3::new(97, 203, 300)));
    assert_eq!(s.get_support(&Vec3::new(0, 0, 0)), None);
    let huge = Sphere::init(&[i64::MAX - 2, 0, 0], i64::MAX);
    assert_eq!(
        huge.get_support(&Vec3::new(i64::MAX, 0, 0)),
        Some(Vec3::new(i64::MAX, 0, 0))
    );
    assert_eq!(
        huge.get_support(&Vec3::new(0, i64::MIN, 0)),
        Some(Vec3::new(i64::MAX - 2, -i64::MAX, 0))
    );
}

#[test]
fn support_through_the_shape() {
    let v = Vec3::new(1, 1, 1);
    assert_eq!(Shape::Point(Point3::init(&[4, 5, 6])).get_support(&v), Some(Vec3::new(4, 5, 6)));
    assert_eq!(Shape::Ray(Ray3::init(&[0, 0, 0], &[1, 0, 0])).get_support(&v), None);
    assert_eq!(Shape::Plane(Plane::init(&[0, 0, 0], &[1, 0, 0])).get_support(&v), None);
    assert_eq!(
        Shape::Sphere(Sphere::init(&[0, 0, 0], 5)).get_support(&v),
        Some(Vec3::new(2, 2, 2))
    );
    assert_eq!(
        Shape::Box(RecBox::init(&[0, 0, 0], &[1, 2, 3])).get_support(&v),
        Some(Vec3::new(1, 2, 3))
    );
    assert_eq!(
        Shape::TriPrism(TriPrism::init(&[0, 0, 0, 9, 0, 0, 0, 8, 0])).get_support(&v),
        Some(Vec3::new(9, 0, 0))
    );
}
