use intersect3d::bigint::BigInt;
use intersect3d::vec3::{point_along, BigVec3, Vec3};

fn big(x: i128) -> BigInt {
    // x is high * 2^64 + low, with the high half rounded down.
    let high = (x >> 64) as i64;
    let low = x as u64;
    let half = BigInt::from_u64(1u64 << 32);
    BigInt::from_i64(high).mul(&half).mul(&half).add(&BigInt::from_u64(low))
}

fn sign(x: &BigInt) -> i32 {
    assert_eq!(x.is_zero() as u8 + x.is_negative() as u8 + x.is_positive() as u8, 1);
    if x.is_zero() {
        0
    } else if x.is_negative() {
        -1
    } else {
        1
    }
}

const SAMPLES: [i128; 14] = [
    0,
    1,
    -1,
    7,
    -13,
    4_294_967_295,
    4_294_967_296,
    -4_294_967_297,
    9_223_372_036_854_775_807,
    -9_223_372_036_854_775_808,
    18_446_744_073_709_551_616,
    -36_893_488_147_419_103_233,
    1_000_000_007_000_000_009,
    -999_999_999_999_999_999_999,
];

#[test]
fn arithmetic_agrees_with_machine_integers() {
    for &a in SAMPLES.iter() {
        for &b in SAMPLES.iter() {
            let (x, y) = (big(a), big(b));
            assert!(x.add(&y).equals(&big(a + b)), "{} + {}", a, b);
            assert!(x.sub(&y).equals(&big(a - b)), "{} - {}", a, b);
            assert_eq!(x.le(&y), a <= b, "{} <= {}", a, b);
            assert_eq!(x.lt(&y), a < b, "{} < {}", a, b);
            assert_eq!(x.equals(&y), a == b, "{} == {}", a, b);
            if let Some(p) = a.checked_mul(b) {
                assert!(x.mul(&y).equals(&big(p)), "{} * {}", a, b);
            }
        }
        assert!(big(a).neg().equals(&big(-a)));
        assert_eq!(sign(&big(a)), a.signum() as i32);
    }
}

#[test]
fn products_beyond_machine_integers() {
    let m = BigInt::from_i64(i64::MAX);
    let m2 = m.mul(&m);
    let m4 = m2.mul(&m2);
    let m3 = m2.mul(&m);
    assert!(m4.equals(&m3.mul(&m)));
    assert!(m4.sub(&m3.mul(&m)).is_zero());
    assert!(m3.lt(&m4) && m4.neg().lt(&m3.neg()));
    // (m + 1) * (m - 1) is m * m - 1.
    let one = BigInt::from_i64(1);
    assert!(m.add(&one).mul(&m.sub(&one)).equals(&m2.sub(&one)));
    assert!(BigInt::from_u64(u64::MAX).equals(&m.add(&m).add(&one)));
    assert!(BigInt::zero().is_zero() && BigInt::zero().neg().is_zero());
    assert!(!BigInt::zero().neg().is_negative());
}

#[test]
fn quotient_rounds_down() {
    let cases: [(i64, i64, i64); 8] = [
        (7, 2, 3),
        (-7, 2, -4),
        (6, 3, 2),
        (-6, 3, -2),
        (0, 5, 0),
        (-1, 1_000_000, -1),
        (i64::MAX, 1, i64::MAX),
        (i64::MIN, 1, i64::MIN),
    ];
    for (n, d, q) in cases {
        assert_eq!(BigInt::from_i64(n).div_floor_i64(&BigInt::from_i64(d)), Some(q), "{}/{}", n, d);
    }
    let m = BigInt::from_i64(i64::MAX);
    let one = BigInt::from_i64(1);
    assert_eq!(m.mul(&m).div_floor_i64(&m), Some(i64::MAX));
    assert_eq!(m.mul(&m).sub(&one).div_floor_i64(&m), Some(i64::MAX - 1));
    assert_eq!(m.add(&one).div_floor_i64(&one), None);
    assert_eq!(BigInt::from_i64(i64::MIN).sub(&one).div_floor_i64(&one), None);
    assert_eq!(m.mul(&m).mul(&m).div_floor_i64(&m), None);
}

#[test]
fn vectors_of_unbounded_integers() {
    let a = BigVec3::from_units(1, 2, 3);
    let b = BigVec3::from_vec3(&Vec3::new(-4, 5, 6));
    assert!(a.dot(&b).equals(&BigInt::from_i64(24)));
    let c = a.cross(&b);
    assert!(c.x.equals(&BigInt::from_i64(-3)));
    assert!(c.y.equals(&BigInt::from_i64(-18)));
    assert!(c.z.equals(&BigInt::from_i64(13)));
    assert!(c.dot(&a).is_zero() && c.dot(&b).is_zero());
    assert!(a.norm2().equals(&BigInt::from_i64(14)));
    assert!(a.plus(&b).minus(&b).minus(&a).is_zero());
    assert!(a.negated().plus(&a).is_zero());
    assert!(a.scaled(&BigInt::from_i64(-2)).z.equals(&BigInt::from_i64(-6)));
    assert!(!a.is_zero() && BigVec3::from_units(0, 0, 0).is_zero());
    let p = point_along(&a, &b, &BigInt::from_i64(1), &BigInt::from_i64(2));
    assert_eq!(p, Some(Vec3::new(-1, 4, 6)));
    let far = point_along(&a, &b, &BigInt::from_i64(i64::MAX), &BigInt::from_i64(1));
    assert_eq!(far, None);
}
