use intersect3d::intersect_gjk::{general_convex_intersect, GjkOutcome};
use intersect3d::point::Point3;
use intersect3d::ray::Ray3;
use intersect3d::rbox::RecBox;
use intersect3d::shape::Shape;
use intersect3d::triprism::TriPrism;
use intersect3d::vec3::{BigVec3, Vec3};

fn hull(points: &[[i64; 3]]) -> Vec<BigVec3> {
    points.iter().map(|p| BigVec3::from_units(p[0], p[1], p[2])).collect()
}

#[test]
fn boxes_that_overlap_intersect() {
    let mut a = RecBox::init(&[0, 0, 0], &[10, 10, 10]);
    let mut b = RecBox::init(&[15, 15, 15], &[10, 10, 10]);
    a.set_vicinity(1);
    b.set_vicinity(1);
    let (hit, witness) = a.get_intersect(&Shape::Box(b));
    assert!(hit);
    let w = witness.expect("a witness");
    assert!(5 <= w.x && w.x <= 10, "{:?}", w);
    assert!(5 <= w.y && w.y <= 10, "{:?}", w);
    assert!(5 <= w.z && w.z <= 10, "{:?}", w);
}

#[test]
fn boxes_apart_do_not_intersect() {
    let a = RecBox::init(&[0, 0, 0], &[10, 10, 10]);
    let b = RecBox::init(&[25, 0, 0], &[10, 10, 10]);
    assert_eq!(a.get_intersect(&Shape::Box(b)), (false, None));
    assert_eq!(b.get_intersect(&Shape::Box(a)), (false, None));
}

#[test]
fn point_inside_box_is_its_own_witness() {
    let mut p = Point3::init(&[3, -4, 5]);
    let mut b = RecBox::init(&[0, 0, 0], &[10, 10, 10]);
    p.set_vicinity(1);
    b.set_vicinity(1);
    assert_eq!(p.get_intersect(&Shape::Box(b)), (true, Some(Vec3::new(3, -4, 5))));
    assert_eq!(b.get_intersect(&Shape::Point(p)), (true, Some(Vec3::new(3, -4, 5))));
}

#[test]
fn point_outside_box_inside_its_bound_gap() {
    let p = Point3::init(&[30, 0, 0]);
    let b = RecBox::init(&[0, 0, 0], &[10, 10, 10]);
    assert_eq!(p.get_intersect(&Shape::Box(b)), (false, None));
}

#[test]
fn prism_and_box_overlapping_bounds_but_apart() {
    // The prism lies beyond the corner of the box: the bounds overlap, the hulls do not.
    let t = TriPrism::init(&[
        1000, 0, 0, 0, 1000, 0, 1000, 1000, 0, 1000, 0, 1000, 0, 1000, 1000, 1000, 1000, 1000,
    ]);
    let b = RecBox::init(&[200, 200, 500], &[200, 200, 500]);
    assert!(t._bound.intersect(&b._bound));
    assert_eq!(t.get_intersect(&Shape::Box(b)), (false, None));
    assert_eq!(b.get_intersect(&Shape::TriPrism(t.clone())), (false, None));
}

#[test]
fn prism_and_box_that_overlap() {
    let t = TriPrism::init(&[
        1000, 0, 0, 0, 1000, 0, 1000, 1000, 0, 1000, 0, 1000, 0, 1000, 1000, 1000, 1000, 1000,
    ]);
    let b = RecBox::init(&[400, 400, 500], &[200, 200, 500]);
    let (hit, witness) = t.get_intersect(&Shape::Box(b));
    assert!(hit);
    let w = witness.expect("a witness");
    assert!(w.x + w.y >= 999, "{:?}", w);
    assert!(w.x <= 600 && w.y <= 600 && 0 <= w.z && w.z <= 1000, "{:?}", w);
    assert_eq!(b.get_intersect(&Shape::TriPrism(t.clone())), (hit, witness));
}

#[test]
fn ray_through_box() {
    let r = Ray3::init(&[-100, 0, 0], &[1, 0, 0]);
    let b = RecBox::init(&[0, 0, 0], &[10, 10, 10]);
    let (hit, witness) = r.get_intersect(&Shape::Box(b));
    assert!(hit);
    let w = witness.expect("a witness");
    assert!(-10 <= w.x && w.x <= 10 && w.y == 0 && w.z == 0, "{:?}", w);
}

#[test]
fn ray_pointing_away_from_box() {
    let r = Ray3::init(&[-100, 0, 0], &[-1, 0, 0]);
    let b = RecBox::init(&[0, 0, 0], &[10, 10, 10]);
    assert_eq!(r.get_intersect(&Shape::Box(b)), (false, None));
    let skew = Ray3::init(&[-100, 0, 0], &[1, 1, 0]);
    assert_eq!(skew.get_intersect(&Shape::Box(b)), (false, None));
    let grazing = Ray3::init(&[-100, -100, 5], &[1, 1, 0]);
    assert!(grazing.get_intersect(&Shape::Box(b)).0);
}

#[test]
fn general_test_on_raw_hulls() {
    let a = hull(&[[0, 0, 0], [4, 0, 0], [0, 4, 0], [0, 0, 4]]);
    let b = hull(&[[1, 1, 1], [5, 1, 1], [1, 5, 1], [1, 1, 5]]);
    match general_convex_intersect(&a, &b, 0) {
        GjkOutcome::Intersection(Some(w)) => {
            assert!(w.x >= 1 && w.y >= 1 && w.z >= 1 && w.x + w.y + w.z <= 4, "{:?}", w)
        }
        other => panic!("{:?}", other),
    }
    let c = hull(&[[10, 10, 10], [14, 10, 10], [10, 14, 10], [10, 10, 14]]);
    assert_eq!(general_convex_intersect(&a, &c, 0), GjkOutcome::NoIntersection);
}
