use intersect3d::plane::Plane;
use intersect3d::point::Point3;
use intersect3d::shape::Shape;
use intersect3d::vec3::Vec3;

fn units(x: f64) -> i64 {
    (x * 1_000_000_000f64).round() as i64
}

fn units3(v: [f64; 3]) -> [i64; 3] {
    [units(v[0]), units(v[1]), units(v[2])]
}

#[test]
fn test_intersect_plane_point() {
    //plane point intersection
    {
        let a = Point3::init(&units3([2f64, 1f64, 2f64]));
        let b = Plane::init(&units3([1f64, 1f64, 1f64]), &units3([0f64, 1f64, 0f64]));
        match a.get_intersect(&Shape::Plane(b)) {
            (true, Some(loc)) => {
                assert_eq!(loc, Vec3::new(units(2f64), units(1f64), units(2f64)));
            }
            _ => panic!("unexpected result for plane point intersection"),
        }
    }
    //plane point intersection
    {
        let a = Point3::init(&units3([2f64, 1f64, 2f64]));
        let b = Plane::init(&units3([1f64, 1f64, 1f64]), &units3([0f64, 1f64, 0f64]));
        match b.get_intersect(&Shape::Point(a)) {
            (true, Some(loc)) => {
                assert_eq!(loc, Vec3::new(units(2f64), units(1f64), units(2f64)));
            }
            _ => panic!("unexpected result for plane point intersection"),
        }
    }

    //plane point no intersection
    {
        let a = Point3::init(&units3([2f64, 1.05f64, 2f64]));
        let b = Plane::init(&units3([1f64, 1f64, 1f64]), &units3([0f64, 1f64, 0f64]));
        match a.get_intersect(&Shape::Plane(b)) {
            (false, None) => (),
            _ => panic!("unexpected result for plane point no intersection"),
        }
    }

    //plane point no intersection
    {
        let a = Point3::init(&units3([2f64, 0.99f64, 2f64]));
        let b = Plane::init(&units3([1f64, 1f64, 1f64]), &units3([0f64, 1f64, 0f64]));
        match a.get_intersect(&Shape::Plane(b)) {
            (false, None) => (),
            _ => panic!("unexpected result for plane point no intersection"),
        }
    }
}
