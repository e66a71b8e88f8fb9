//! Vectors of three coordinates: the mathematical model, the fixed-point
//! vector that callers hand in, and the unbounded vector used in between.

use crate::bigint::{spec_div_floor_i64, BigInt};
use crate::vicinity::{spec_abs, UNITS_PER_ONE};
use vstd::prelude::*;

verus! {

/// A vector of three mathematical integers.
pub struct V3 {
    pub x: int,
    pub y: int,
    pub z: int,
}

impl V3 {
    pub open spec fn zero() -> V3 {
        V3 { x: 0, y: 0, z: 0 }
    }

    pub open spec fn is_zero(self) -> bool {
        self.x == 0 && self.y == 0 && self.z == 0
    }

    pub open spec fn plus(self, o: V3) -> V3 {
        V3 { x: self.x + o.x, y: self.y + o.y, z: self.z + o.z }
    }

    pub open spec fn minus(self, o: V3) -> V3 {
        V3 { x: self.x - o.x, y: self.y - o.y, z: self.z - o.z }
    }

    pub open spec fn negated(self) -> V3 {
        V3 { x: -self.x, y: -self.y, z: -self.z }
    }

    pub open spec fn scaled(self, k: int) -> V3 {
        V3 { x: k * self.x, y: k * self.y, z: k * self.z }
    }

    pub open spec fn dot(self, o: V3) -> int {
        self.x * o.x + self.y * o.y + self.z * o.z
    }

    pub open spec fn cross(self, o: V3) -> V3 {
        V3 {
            x: self.y * o.z - self.z * o.y,
            y: self.z * o.x - self.x * o.z,
            z: self.x * o.y - self.y * o.x,
        }
    }

    /// The squared length.
    pub open spec fn norm2(self) -> int {
        self.dot(self)
    }
}

/// A vector in fixed-point units.
#[derive(Clone, Copy, Debug, PartialEq, Eq, Structural)]
pub struct Vec3 {
    pub x: i64,
    pub y: i64,
    pub z: i64,
}

impl View for Vec3 {
    type V = V3;

    open spec fn view(&self) -> V3 {
        V3 { x: self.x as int, y: self.y as int, z: self.z as int }
    }
}

impl Vec3 {
    pub fn new(x: i64, y: i64, z: i64) -> (r: Vec3)
        ensures
            r == (Vec3 { x, y, z }),
    {
        Vec3 { x, y, z }
    }
}

/// A vector whose coordinates are integers of unbounded size.
pub struct BigVec3 {
    pub x: BigInt,
    pub y: BigInt,
    pub z: BigInt,
}

impl View for BigVec3 {
    type V = V3;

    open spec fn view(&self) -> V3 {
        V3 { x: self.x@, y: self.y@, z: self.z@ }
    }
}

impl BigVec3 {
    pub fn from_vec3(v: &Vec3) -> (r: BigVec3)
        ensures
            r@ == v@,
    {
        BigVec3 { x: BigInt::from_i64(v.x), y: BigInt::from_i64(v.y), z: BigInt::from_i64(v.z) }
    }

    pub fn from_units(x: i64, y: i64, z: i64) -> (r: BigVec3)
        ensures
            r@ == (V3 { x: x as int, y: y as int, z: z as int }),
    {
        BigVec3 { x: BigInt::from_i64(x), y: BigInt::from_i64(y), z: BigInt::from_i64(z) }
    }

    pub fn is_zero(&self) -> (r: bool)
        ensures
            r == self@.is_zero(),
    {
        self.x.is_zero() && self.y.is_zero() && self.z.is_zero()
    }

    pub fn plus(&self, o: &BigVec3) -> (r: BigVec3)
        ensures
            r@ == self@.plus(o@),
    {
        BigVec3 { x: self.x.add(&o.x), y: self.y.add(&o.y), z: self.z.add(&o.z) }
    }

    pub fn minus(&self, o: &BigVec3) -> (r: BigVec3)
        ensures
            r@ == self@.minus(o@),
    {
        BigVec3 { x: self.x.sub(&o.x), y: self.y.sub(&o.y), z: self.z.sub(&o.z) }
    }

    pub fn negated(&self) -> (r: BigVec3)
        ensures
            r@ == self@.negated(),
    {
        BigVec3 { x: self.x.neg(), y: self.y.neg(), z: self.z.neg() }
    }

    pub fn scaled(&self, k: &BigInt) -> (r: BigVec3)
        ensures
            r@ == self@.scaled(k@),
    {
        BigVec3 { x: k.mul(&self.x), y: k.mul(&self.y), z: k.mul(&self.z) }
    }

    pub fn dot(&self, o: &BigVec3) -> (r: BigInt)
        ensures
            r@ == self@.dot(o@),
    {
        let a: BigInt = self.x.mul(&o.x);
        let b: BigInt = self.y.mul(&o.y);
        let c: BigInt = self.z.mul(&o.z);
        a.add(&b).add(&c)
    }

    pub fn cross(&self, o: &BigVec3) -> (r: BigVec3)
        ensures
            r@ == self@.cross(o@),
    {
        let x: BigInt = self.y.mul(&o.z).sub(&self.z.mul(&o.y));
        let y: BigInt = self.z.mul(&o.x).sub(&self.x.mul(&o.z));
        let z: BigInt = self.x.mul(&o.y).sub(&self.y.mul(&o.x));
        BigVec3 { x, y, z }
    }

    pub fn norm2(&self) -> (r: BigInt)
        ensures
            r@ == self@.norm2(),
    {
        self.dot(self)
    }
}

/// The point `o + d * num / den`, each coordinate rounded down to units,
/// where an `i64` holds the three of them. The divisor is positive.
pub open spec fn spec_point_along(o: V3, d: V3, num: int, den: int) -> Option<Vec3> {
    match (
        spec_div_floor_i64(o.x * den + d.x * num, den),
        spec_div_floor_i64(o.y * den + d.y * num, den),
        spec_div_floor_i64(o.z * den + d.z * num, den),
    ) {
        (Some(x), Some(y), Some(z)) => Some(Vec3 { x, y, z }),
        _ => None,
    }
}

/// Computes the point `o + d * num / den`, rounded down to units.
pub fn point_along(o: &BigVec3, d: &BigVec3, num: &BigInt, den: &BigInt) -> (r: Option<Vec3>)
    requires
        den@ > 0,
    ensures
        r == spec_point_along(o@, d@, num@, den@),
{
    let x: Option<i64> = o.x.mul(den).add(&d.x.mul(num)).div_floor_i64(den);
    let y: Option<i64> = o.y.mul(den).add(&d.y.mul(num)).div_floor_i64(den);
    let z: Option<i64> = o.z.mul(den).add(&d.z.mul(num)).div_floor_i64(den);
    match (x, y, z) {
        (Some(x), Some(y), Some(z)) => Some(Vec3 { x, y, z }),
        _ => None,
    }
}

/// `m` is the length `r * |c| / |v|` rounded down, where `vv` is the squared
/// length of `v` and `c` one of its coordinates.
pub open spec fn spec_is_scaled(m: int, r: int, c: int, vv: int) -> bool {
    0 <= m && m * m * vv <= r * r * (c * c) && r * r * (c * c) < (m + 1) * (m + 1) * vv
}


/// At most one length is the rounded one.
pub proof fn lemma_scaled_is_unique(m: int, n: int, r: int, c: int, vv: int)
    requires
        vv > 0,
        spec_is_scaled(m, r, c, vv),
        spec_is_scaled(n, r, c, vv),
    ensures
        m == n,
{
    if m < n {
        assert((m + 1) * (m + 1) * vv <= n * n * vv) by (nonlinear_arith)
            requires
                0 <= m + 1 <= n,
                vv > 0,
        ;
    } else if n < m {
        assert((n + 1) * (n + 1) * vv <= m * m * vv) by (nonlinear_arith)
            requires
                0 <= n + 1 <= m,
                vv > 0,
        ;
    }
}

/// Computes the length `r * |c| / |v|` rounded down, where `vv` is the
/// squared length of `v` and `c` one of its coordinates.
pub fn scaled(r: i64, c: i64, vv: &BigInt) -> (m: i64)
    requires
        r >= 0,
        vv@ > 0,
        c * c <= vv@,
    ensures
        spec_is_scaled(m as int, r as int, c as int, vv@),
        0 <= m <= r,
{
    let big_r: BigInt = BigInt::from_i64(r);
    let big_c: BigInt = BigInt::from_i64(c);
    let target: BigInt = big_r.mul(&big_r).mul(&big_c.mul(&big_c));
    let mut lo: i64 = 0;
    let mut hi: i64 = r;
    proof {
        let t: int = target@;
        assert(0 * 0 * vv@ <= t && t < (r + 1) * (r + 1) * vv@) by (nonlinear_arith)
            requires
                t == r * r * (c * c),
                r >= 0,
                vv@ > 0,
                c * c <= vv@,
        ;
    }
    while lo < hi
        invariant
            0 <= lo <= hi <= r,
            target@ == r * r * (c * c),
            lo * lo * vv@ <= target@,
            target@ < (hi + 1) * (hi + 1) * vv@,
        decreases hi - lo,
    {
        let mid: i64 = hi - (hi - lo) / 2;
        let big_mid: BigInt = BigInt::from_i64(mid);
        if big_mid.mul(&big_mid).mul(vv).le(&target) {
            lo = mid;
        } else {
            hi = mid - 1;
        }
    }
    lo
}


/// `n` is the coordinate `c` of a vector of squared length `vv`, divided by
/// the length of the vector and given in units: `UNITS_PER_ONE * c / |v|`,
/// rounded to the nearest unit, halves away from zero.
pub open spec fn spec_is_unit_coordinate(n: i64, c: i64, vv: int) -> bool {
    let m = spec_abs(n as int);
    let t = 4 * (UNITS_PER_ONE * UNITS_PER_ONE) * (c * c);
    &&& c > 0 ==> n >= 0
    &&& c < 0 ==> n <= 0
    &&& c == 0 ==> n == 0
    &&& m == 0 || (2 * m - 1) * (2 * m - 1) * vv <= t
    &&& t < (2 * m + 1) * (2 * m + 1) * vv
}

/// `n` is the vector `given` scaled to the length one, in units: each
/// coordinate of `given` divided by the length of `given` and rounded to the
/// nearest unit. The zero vector stays zero.
pub open spec fn spec_is_normalized(n: Vec3, given: Vec3) -> bool {
    if given@.is_zero() {
        n == (Vec3 { x: 0, y: 0, z: 0 })
    } else {
        &&& spec_is_unit_coordinate(n.x, given.x, given@.norm2())
        &&& spec_is_unit_coordinate(n.y, given.y, given@.norm2())
        &&& spec_is_unit_coordinate(n.z, given.z, given@.norm2())
    }
}

proof fn lemma_odd_squares(a: int, b: int, vv: int)
    by (nonlinear_arith)
    requires
        0 <= a <= b,
        vv > 0,
    ensures
        a * a * vv <= b * b * vv,
{
}

/// At most one coordinate is the rounded one.
pub proof fn lemma_unit_coordinate_is_unique(n: i64, o: i64, c: i64, vv: int)
    requires
        vv > 0,
        spec_is_unit_coordinate(n, c, vv),
        spec_is_unit_coordinate(o, c, vv),
    ensures
        n == o,
{
    let m = spec_abs(n as int);
    let k = spec_abs(o as int);
    if m < k {
        lemma_odd_squares(2 * m + 1, 2 * k - 1, vv);
    } else if k < m {
        lemma_odd_squares(2 * k + 1, 2 * m - 1, vv);
    }
}

/// At most one vector is the normalized one.
pub proof fn lemma_normalized_is_unique(n: Vec3, o: Vec3, given: Vec3)
    requires
        spec_is_normalized(n, given),
        spec_is_normalized(o, given),
    ensures
        n == o,
{
    if !given@.is_zero() {
        let vv = given@.norm2();
        assert(vv > 0) by (nonlinear_arith)
            requires
                vv == given.x * given.x + given.y * given.y + given.z * given.z,
                !(given.x == 0 && given.y == 0 && given.z == 0),
        ;
        lemma_unit_coordinate_is_unique(n.x, o.x, given.x, vv);
        lemma_unit_coordinate_is_unique(n.y, o.y, given.y, vv);
        lemma_unit_coordinate_is_unique(n.z, o.z, given.z, vv);
    }
}

fn unit_coordinate(c: i64, vv: &BigInt) -> (n: i64)
    requires
        vv@ > 0,
        c * c <= vv@,
    ensures
        spec_is_unit_coordinate(n, c, vv@),
{
    let twice: i64 = scaled(2 * UNITS_PER_ONE, c, vv);
    let m: i64 = (twice + 1) / 2;
    proof {
        let k: int = twice as int;
        let t: int = 4 * (UNITS_PER_ONE * UNITS_PER_ONE) * (c * c);
        let u: int = UNITS_PER_ONE as int;
        let cc: int = c * c;
        assert((2 * u) * (2 * u) * cc == 4 * (u * u) * cc) by (nonlinear_arith);
        assert((2 * UNITS_PER_ONE) * (2 * UNITS_PER_ONE) * (c * c) == t);
        assert(k * k * vv@ <= t && t < (k + 1) * (k + 1) * vv@);
        if c == 0 {
            assert(t == 0) by (nonlinear_arith)
                requires
                    t == 4 * (UNITS_PER_ONE * UNITS_PER_ONE) * (c * c),
                    c == 0,
            ;
            assert(k == 0) by (nonlinear_arith)
                requires
                    k >= 0,
                    vv@ > 0,
                    k * k * vv@ <= 0,
            ;
        }
        if k == 2 * m {
            lemma_odd_squares(0, 0, vv@);
            if m >= 1 {
                lemma_odd_squares(2 * m - 1, k, vv@);
            }
        } else {
            assert(k == 2 * m - 1);
            lemma_odd_squares(k + 1, 2 * m + 1, vv@);
        }
    }
    if c < 0 {
        -m
    } else {
        m
    }
}

/// Scales a vector to the length one, in units.
pub fn normalized(given: &Vec3) -> (n: Vec3)
    ensures
        spec_is_normalized(n, *given),
{
    if given.x == 0 && given.y == 0 && given.z == 0 {
        return Vec3 { x: 0, y: 0, z: 0 };
    }
    let vv: BigInt = BigVec3::from_vec3(given).norm2();
    proof {
        let x: int = given.x as int;
        let y: int = given.y as int;
        let z: int = given.z as int;
        assert(x * x >= 0 && y * y >= 0 && z * z >= 0 && (x != 0 ==> x * x > 0) && (y != 0 ==> y
            * y > 0) && (z != 0 ==> z * z > 0)) by (nonlinear_arith);
    }
    Vec3 {
        x: unit_coordinate(given.x, &vv),
        y: unit_coordinate(given.y, &vv),
        z: unit_coordinate(given.z, &vv),
    }
}

} // verus!
