use intersect3d::intersect_gjk::{convex_pair, general_convex_intersect, GjkOutcome};
use intersect3d::plane::Plane;
use intersect3d::point::Point3;
use intersect3d::ray::Ray3;
use intersect3d::rbox::RecBox;
use intersect3d::shape::{precedes, supported, Shape};
use intersect3d::sphere::Sphere;
use intersect3d::triprism::TriPrism;
use intersect3d::vec3::Vec3;

/// The cases below are written in units, with a tolerance of one unit.
fn one_unit(mut s: Shape) -> Shape {
    match &mut s {
        Shape::Point(x) => x.set_vicinity(1),
        Shape::Ray(x) => x.set_vicinity(1),
        Shape::Sphere(x) => x.set_vicinity(1),
        Shape::Plane(x) => x.set_vicinity(1),
        Shape::Box(x) => x.set_vicinity(1),
        Shape::TriPrism(x) => x.set_vicinity(1),
    }
    s
}

struct Draw(u64);

impl Draw {
    fn next(&mut self, span: i64) -> i64 {
        self.0 = self.0.wrapping_mul(6364136223846793005).wrapping_add(1442695040888963407);
        ((self.0 >> 33) % (2 * span as u64 + 1)) as i64 - span
    }

    fn triple(&mut self, span: i64) -> [i64; 3] {
        [self.next(span), self.next(span), self.next(span)]
    }
}

fn zoo(draw: &mut Draw) -> Vec<Shape> {
    let mut shapes = Vec::new();
    for _ in 0..3 {
        shapes.push(one_unit(Shape::Point(Point3::init(&draw.triple(6)))));
        shapes.push(one_unit(Shape::Ray(Ray3::init(&draw.triple(6), &draw.triple(2)))));
        shapes.push(one_unit(Shape::Sphere(Sphere::init(&draw.triple(6), draw.next(3).abs() + 1))));
        shapes.push(one_unit(Shape::Plane(Plane::init(&draw.triple(6), &draw.triple(2)))));
        let half = draw.triple(3);
        shapes.push(one_unit(Shape::Box(RecBox::init(
            &draw.triple(6),
            &[half[0].abs(), half[1].abs(), half[2].abs()],
        ))));
        let mut v = Vec::new();
        for _ in 0..6 {
            v.extend_from_slice(&draw.triple(6));
        }
        shapes.push(one_unit(Shape::TriPrism(TriPrism::init(&v))));
        shapes.push(one_unit(Shape::TriPrism(TriPrism::init(&v[0..9]))));
    }
    shapes
}

#[test]
fn either_order_of_the_operands_gives_the_same_result() {
    let mut draw = Draw(17);
    let mut hits = 0;
    for _ in 0..4 {
        let shapes = zoo(&mut draw);
        for a in &shapes {
            for b in &shapes {
                if supported(a.get_type(), b.get_type()) {
                    let forward = a.get_intersect(b);
                    assert_eq!(forward, b.get_intersect(a), "{:?} {:?}", a, b);
                    hits += forward.0 as u32;
                }
            }
        }
    }
    assert!(hits > 100, "{}", hits);
}

#[test]
fn repeated_calls_give_the_same_result() {
    let mut draw = Draw(99);
    let shapes = zoo(&mut draw);
    for a in &shapes {
        for b in &shapes {
            if supported(a.get_type(), b.get_type()) {
                let first = a.get_intersect(b);
                for _ in 0..3 {
                    assert_eq!(a.get_intersect(b), first);
                }
            }
        }
    }
}

#[test]
fn wider_tolerance_keeps_intersections_of_closed_forms() {
    let mut draw = Draw(5);
    let mut kept = 0;
    for _ in 0..300 {
        let p = one_unit(Shape::Point(Point3::init(&draw.triple(4))));
        let mut r = Ray3::init(&draw.triple(4), &draw.triple(2));
        let mut s = Sphere::init(&draw.triple(4), draw.next(3).abs());
        let mut l = Plane::init(&draw.triple(4), &draw.triple(2));
        let mut b = RecBox::init(&draw.triple(4), &[1, 2, 1]);
        r.set_vicinity(1);
        s.set_vicinity(1);
        l.set_vicinity(1);
        b.set_vicinity(1);
        let round = one_unit(Shape::Sphere(Sphere::init(&draw.triple(4), 2)));
        let beam = one_unit(Shape::Ray(Ray3::init(&draw.triple(4), &draw.triple(2))));
        let narrow = [
            Shape::Ray(r).get_intersect(&p).0,
            Shape::Sphere(s).get_intersect(&p).0,
            Shape::Plane(l).get_intersect(&p).0,
            Shape::Sphere(s).get_intersect(&round).0,
            Shape::Sphere(s).get_intersect(&beam).0,
            Shape::Plane(l).get_intersect(&round).0,
            Shape::Plane(l).get_intersect(&beam).0,
            Shape::Box(b).get_intersect(&round).0,
            Shape::Box(b).get_intersect(&Shape::Plane(l)).0,
        ];
        let wider = draw.next(3).abs() + 2;
        r.set_vicinity(wider);
        s.set_vicinity(wider);
        l.set_vicinity(wider);
        b.set_vicinity(wider);
        let wide = [
            Shape::Ray(r).get_intersect(&p).0,
            Shape::Sphere(s).get_intersect(&p).0,
            Shape::Plane(l).get_intersect(&p).0,
            Shape::Sphere(s).get_intersect(&round).0,
            Shape::Sphere(s).get_intersect(&beam).0,
            Shape::Plane(l).get_intersect(&round).0,
            Shape::Plane(l).get_intersect(&beam).0,
            Shape::Box(b).get_intersect(&round).0,
            Shape::Box(b).get_intersect(&Shape::Plane(l)).0,
        ];
        for k in 0..narrow.len() {
            assert!(!narrow[k] || wide[k], "test {} lost an intersection", k);
            kept += narrow[k] as u32;
        }
    }
    assert!(kept > 100, "{}", kept);
}

#[test]
fn wider_tolerance_makes_the_general_test_give_up_sooner() {
    let p = one_unit(Shape::Point(Point3::init(&[5, 0, 0])));
    let mut b = RecBox::init(&[0, 0, 0], &[10, 10, 10]);
    b.set_vicinity(1);
    assert_eq!(Shape::Box(b).get_intersect(&p), (true, Some(Vec3::new(5, 0, 0))));
    b.set_vicinity(1000);
    assert_eq!(Shape::Box(b).get_intersect(&p), (false, None));
    assert_eq!(p.get_intersect(&Shape::Box(b)), (false, None));
}

#[test]
fn closed_form_and_general_test_agree_on_points() {
    let mut draw = Draw(2024);
    let mut hits = 0;
    for _ in 0..1000 {
        let a = Point3::init(&draw.triple(1));
        let b = Point3::init(&draw.triple(1));
        let closed = a.get_intersect(&Shape::Point(b));
        for epsilon in [0u64, 1, 50] {
            assert_eq!(convex_pair(&a.hull(), &b.hull(), epsilon).0, closed.0, "{:?} {:?}", a, b);
        }
        assert_eq!(closed.0, a._ori == b._ori);
        hits += closed.0 as u32;
    }
    assert!(hits > 10, "{}", hits);
}

#[test]
fn closed_form_and_general_test_agree_on_ray_and_point() {
    let mut draw = Draw(31337);
    let (mut hits, mut misses) = (0, 0);
    for _ in 0..1000 {
        let origin = draw.triple(5);
        let mut dir = draw.triple(2);
        if dir == [0, 0, 0] {
            dir = [1, 0, 0];
        }
        let t = draw.next(3) + 4;
        let jitter = if draw.next(1) == 0 { [0, 0, 0] } else { draw.triple(1) };
        let point = [
            origin[0] + t * dir[0] + jitter[0],
            origin[1] + t * dir[1] + jitter[1],
            origin[2] + t * dir[2] + jitter[2],
        ];
        let mut ray = Ray3::init(&origin, &dir);
        ray.set_vicinity(0);
        let p = Point3::init(&point);
        let closed = ray.get_intersect(&Shape::Point(p));
        let general = convex_pair(&p.hull(), &ray.hull(), 0);
        assert_eq!(general.0, closed.0, "{:?} {:?}", ray, p);
        if closed.0 {
            assert_eq!(general.1, Some(p._ori));
            hits += 1;
        } else {
            misses += 1;
        }
    }
    assert!(hits > 100 && misses > 100, "{} {}", hits, misses);
}

#[test]
fn general_test_agrees_with_containment_in_a_box() {
    let mut draw = Draw(4242);
    let (mut hits, mut misses) = (0, 0);
    for _ in 0..1000 {
        let center = draw.triple(20);
        let half = [draw.next(4).abs() + 2, draw.next(4).abs() + 2, draw.next(4).abs() + 2];
        let point = [
            center[0] + draw.next(9),
            center[1] + draw.next(9),
            center[2] + draw.next(9),
        ];
        let gap: Vec<i64> = (0..3).map(|k| (point[k] - center[k]).abs() - half[k]).collect();
        if gap.iter().any(|g| *g == 0) && gap.iter().all(|g| *g <= 0) {
            // A point on the surface of the box touches it: either answer is a fair one.
            continue;
        }
        let inside = gap.iter().all(|g| *g < 0);
        let mut b = RecBox::init(&center, &half);
        b.set_vicinity(1);
        let p = Point3::init(&point);
        let answer = b.get_intersect(&Shape::Point(p));
        assert_eq!(answer.0, inside, "{:?} {:?}", b, p);
        if inside {
            assert_eq!(answer.1, Some(p._ori));
            hits += 1;
        } else {
            misses += 1;
        }
    }
    assert!(hits > 50 && misses > 50, "{} {}", hits, misses);
}

#[test]
fn general_test_on_flat_and_touching_hulls() {
    let square: Vec<_> = RecBox::init(&[0, 0, 0], &[5, 5, 0]).hull();
    let inside = Point3::init(&[1, 2, 0]).hull();
    let above = Point3::init(&[1, 2, 1]).hull();
    assert_eq!(
        general_convex_intersect(&inside, &square, 0),
        GjkOutcome::Intersection(Some(Vec3::new(1, 2, 0)))
    );
    assert_eq!(general_convex_intersect(&above, &square, 0), GjkOutcome::NoIntersection);
    let a = RecBox::init(&[0, 0, 0], &[10, 10, 10]).hull();
    let far = RecBox::init(&[40, 3, -2], &[10, 10, 10]).hull();
    assert_eq!(general_convex_intersect(&a, &far, 0), GjkOutcome::NoIntersection);
    assert_eq!(general_convex_intersect(&far, &a, 7), GjkOutcome::NoIntersection);
    match general_convex_intersect(&a, &a, 0) {
        GjkOutcome::Intersection(Some(w)) => {
            assert!(w.x.abs() <= 10 && w.y.abs() <= 10 && w.z.abs() <= 10)
        }
        other => panic!("{:?}", other),
    }
}

#[test]
fn order_of_shapes_of_one_variant() {
    let a = vec![1, 2, 3];
    let b = vec![1, 2, 4];
    let longer = vec![0, 0, 0, 0];
    assert!(precedes(&a, 5, &b, 0) && !precedes(&b, 0, &a, 5));
    assert!(precedes(&a, 5, &longer, 0) && !precedes(&longer, 0, &a, 5));
    assert!(precedes(&a, 1, &a, 1));
    assert!(precedes(&a, 1, &a, 2) && !precedes(&a, 2, &a, 1));
    // The tolerance of the shape that comes second is the one that counts.
    let mut tight = RecBox::init(&[0, 0, 0], &[10, 10, 10]);
    let mut loose = RecBox::init(&[0, 0, 0], &[10, 10, 10]);
    tight.set_vicinity(0);
    loose.set_vicinity(1_000_000);
    let forward = tight.get_intersect(&Shape::Box(loose));
    assert_eq!(forward, loose.get_intersect(&Shape::Box(tight)));
}
