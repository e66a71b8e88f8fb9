//! Integers of unbounded size.
//!
//! Every geometric predicate of this crate is the sign of a polynomial in the
//! coordinates of its operands. `BigInt` evaluates such polynomials without
//! overflow, so that the predicates are decided exactly.

use vstd::prelude::*;

verus! {

/// The radix of the limb representation, two to the power 32.
pub open spec fn radix() -> int {
    0x1_0000_0000
}

/// The radix raised to the power `n`.
pub open spec fn radix_pow(n: nat) -> int
    decreases n,
{
    if n == 0 {
        1
    } else {
        radix() * radix_pow((n - 1) as nat)
    }
}

/// The limb at position `i`, zero past the end.
pub open spec fn limb_at(s: Seq<u32>, i: int) -> int {
    if 0 <= i < s.len() {
        s[i] as int
    } else {
        0
    }
}

/// The number that the `n` lowest limbs of `s` denote, least significant first.
pub open spec fn prefix_value(s: Seq<u32>, n: nat) -> int
    decreases n,
{
    if n == 0 {
        0
    } else {
        prefix_value(s, (n - 1) as nat) + limb_at(s, n - 1) * radix_pow((n - 1) as nat)
    }
}

/// The natural number that a sequence of limbs denotes.
pub open spec fn limbs_value(s: Seq<u32>) -> int {
    prefix_value(s, s.len())
}

pub proof fn lemma_radix_pow_positive(n: nat)
    ensures
        radix_pow(n) > 0,
    decreases n,
{
    if n > 0 {
        lemma_radix_pow_positive((n - 1) as nat);
    }
}

pub proof fn lemma_radix_pow_add(a: nat, b: nat)
    ensures
        radix_pow(a + b) == radix_pow(a) * radix_pow(b),
    decreases a,
{
    if a == 0 {
        assert(radix_pow(0) == 1);
        assert(1 * radix_pow(b) == radix_pow(b)) by (nonlinear_arith);
    } else {
        lemma_radix_pow_add((a - 1) as nat, b);
        let p: int = radix_pow((a - 1) as nat);
        let q: int = radix_pow(b);
        assert(radix_pow((a - 1 + b) as nat) == p * q);
        assert(radix_pow(a + b) == radix() * radix_pow((a + b - 1) as nat));
        assert(radix() * (p * q) == (radix() * p) * q) by (nonlinear_arith);
    }
}

proof fn lemma_limb_term_bounds(l: int, p: int)
    by (nonlinear_arith)
    requires
        0 <= l < 0x1_0000_0000,
        p > 0,
    ensures
        0 <= l * p <= 0xffff_ffff * p,
{
}

pub proof fn lemma_prefix_bounds(s: Seq<u32>, n: nat)
    ensures
        0 <= prefix_value(s, n) < radix_pow(n),
    decreases n,
{
    if n > 0 {
        lemma_prefix_bounds(s, (n - 1) as nat);
        lemma_radix_pow_positive((n - 1) as nat);
        lemma_limb_term_bounds(limb_at(s, n - 1), radix_pow((n - 1) as nat));
    }
}

pub proof fn lemma_prefix_monotone(s: Seq<u32>, m: nat, n: nat)
    requires
        m <= n,
    ensures
        prefix_value(s, m) <= prefix_value(s, n),
    decreases n,
{
    if m < n {
        lemma_prefix_monotone(s, m, (n - 1) as nat);
        lemma_radix_pow_positive((n - 1) as nat);
        lemma_limb_term_bounds(limb_at(s, n - 1), radix_pow((n - 1) as nat));
    }
}

pub proof fn lemma_prefix_agree(s: Seq<u32>, t: Seq<u32>, n: nat)
    requires
        forall|i: int| 0 <= i < n ==> limb_at(s, i) == limb_at(t, i),
    ensures
        prefix_value(s, n) == prefix_value(t, n),
    decreases n,
{
    if n > 0 {
        lemma_prefix_agree(s, t, (n - 1) as nat);
    }
}

pub proof fn lemma_prefix_past_len(s: Seq<u32>, n: nat)
    requires
        n >= s.len(),
    ensures
        prefix_value(s, n) == limbs_value(s),
    decreases n,
{
    if n > s.len() {
        lemma_prefix_past_len(s, (n - 1) as nat);
        assert(limb_at(s, n - 1) == 0);
        assert(0 * radix_pow((n - 1) as nat) == 0) by (nonlinear_arith);
    }
}

pub proof fn lemma_push(s: Seq<u32>, x: u32)
    ensures
        limbs_value(s.push(x)) == limbs_value(s) + x * radix_pow(s.len()),
{
    let t = s.push(x);
    assert forall|i: int| 0 <= i < s.len() implies limb_at(s, i) == limb_at(t, i) by {}
    lemma_prefix_agree(s, t, s.len());
    assert(limb_at(t, s.len() as int) == x);
}

proof fn lemma_carry_step(v: int, c: int, l: int, p: int, lo: int, hi: int)
    by (nonlinear_arith)
    requires
        lo + hi * 0x1_0000_0000 == l + c,
    ensures
        v + lo * p + hi * (0x1_0000_0000 * p) == v + c * p + l * p,
{
}

/// The sum of two magnitudes.
fn mag_add(a: &Vec<u32>, b: &Vec<u32>) -> (r: Vec<u32>)
    ensures
        limbs_value(r@) == limbs_value(a@) + limbs_value(b@),
{
    let n: usize = if a.len() >= b.len() {
        a.len()
    } else {
        b.len()
    };
    let mut r: Vec<u32> = Vec::new();
    let mut carry: u64 = 0;
    let mut i: usize = 0;
    while i < n
        invariant
            i <= n,
            n >= a@.len(),
            n >= b@.len(),
            r@.len() == i,
            carry <= 1,
            limbs_value(r@) + carry * radix_pow(i as nat) == prefix_value(a@, i as nat)
                + prefix_value(b@, i as nat),
        decreases n - i,
    {
        let la: u64 = if i < a.len() {
            a[i] as u64
        } else {
            0
        };
        let lb: u64 = if i < b.len() {
            b[i] as u64
        } else {
            0
        };
        let t: u64 = la + lb + carry;
        let lo: u32 = (t % 0x1_0000_0000) as u32;
        let hi: u64 = t / 0x1_0000_0000;
        proof {
            let p: int = radix_pow(i as nat);
            lemma_push(r@, lo);
            lemma_carry_step(limbs_value(r@), carry as int, la + lb, p, lo as int, hi as int);
            assert((la + lb) * p == la * p + lb * p) by (nonlinear_arith);
            assert(la == limb_at(a@, i as int));
            assert(lb == limb_at(b@, i as int));
        }
        r.push(lo);
        carry = hi;
        i = i + 1;
    }
    proof {
        lemma_push(r@, carry as u32);
        lemma_prefix_past_len(a@, n as nat);
        lemma_prefix_past_len(b@, n as nat);
    }
    r.push(carry as u32);
    r
}

proof fn lemma_borrow_step(v: int, c: int, l: int, p: int, lo: int, hi: int)
    by (nonlinear_arith)
    requires
        lo - hi * 0x1_0000_0000 == l - c,
    ensures
        v + lo * p - hi * (0x1_0000_0000 * p) == v - c * p + l * p,
{
}

/// The difference of two magnitudes, and whether the second exceeds the first.
/// Where it does not, the limbs returned denote the difference.
fn mag_sub(a: &Vec<u32>, b: &Vec<u32>) -> (r: (Vec<u32>, bool))
    ensures
        r.1 == (limbs_value(a@) < limbs_value(b@)),
        !r.1 ==> limbs_value(r.0@) == limbs_value(a@) - limbs_value(b@),
{
    let n: usize = if a.len() >= b.len() {
        a.len()
    } else {
        b.len()
    };
    let mut r: Vec<u32> = Vec::new();
    let mut borrow: u64 = 0;
    let mut i: usize = 0;
    while i < n
        invariant
            i <= n,
            n >= a@.len(),
            n >= b@.len(),
            r@.len() == i,
            borrow <= 1,
            limbs_value(r@) - borrow * radix_pow(i as nat) == prefix_value(a@, i as nat)
                - prefix_value(b@, i as nat),
        decreases n - i,
    {
        let la: u64 = if i < a.len() {
            a[i] as u64
        } else {
            0
        };
        let lb: u64 = if i < b.len() {
            b[i] as u64
        } else {
            0
        };
        let t: u64 = 0x1_0000_0000 + la - lb - borrow;
        let lo: u32 = (t % 0x1_0000_0000) as u32;
        let hi: u64 = 1 - t / 0x1_0000_0000;
        proof {
            let p: int = radix_pow(i as nat);
            lemma_push(r@, lo);
            lemma_borrow_step(limbs_value(r@), borrow as int, la - lb, p, lo as int, hi as int);
            assert((la - lb) * p == la * p - lb * p) by (nonlinear_arith);
            assert(la == limb_at(a@, i as int));
            assert(lb == limb_at(b@, i as int));
        }
        r.push(lo);
        borrow = hi;
        i = i + 1;
    }
    proof {
        lemma_prefix_past_len(a@, n as nat);
        lemma_prefix_past_len(b@, n as nat);
        lemma_prefix_bounds(r@, n as nat);
        lemma_radix_pow_positive(n as nat);
        assert(borrow == 0 || borrow == 1);
        assert(1 * radix_pow(n as nat) == radix_pow(n as nat)) by (nonlinear_arith);
        assert(0 * radix_pow(n as nat) == 0) by (nonlinear_arith);
    }
    (r, borrow == 1)
}

proof fn lemma_scale_step(v: int, c: int, l: int, x: int, p: int, lo: int, hi: int)
    by (nonlinear_arith)
    requires
        lo + hi * 0x1_0000_0000 == l * x + c,
    ensures
        v + lo * p + hi * (0x1_0000_0000 * p) == v + c * p + (l * p) * x,
{
}

proof fn lemma_limb_product_bound(l: int, x: int)
    by (nonlinear_arith)
    requires
        0 <= l <= 0xffff_ffff,
        0 <= x <= 0xffff_ffff,
    ensures
        0 <= l * x <= 0xffff_ffff * 0xffff_ffff,
{
}

/// The product of a magnitude and a single limb.
fn mag_scale(a: &Vec<u32>, x: u32) -> (r: Vec<u32>)
    ensures
        limbs_value(r@) == limbs_value(a@) * x,
{
    let n: usize = a.len();
    let mut r: Vec<u32> = Vec::new();
    let mut carry: u64 = 0;
    let mut i: usize = 0;
    while i < n
        invariant
            i <= n,
            n == a@.len(),
            r@.len() == i,
            carry <= 0xffff_ffff,
            limbs_value(r@) + carry * radix_pow(i as nat) == prefix_value(a@, i as nat) * x,
        decreases n - i,
    {
        let la: u64 = a[i] as u64;
        proof {
            lemma_limb_product_bound(la as int, x as int);
        }
        let t: u64 = la * (x as u64) + carry;
        let lo: u32 = (t % 0x1_0000_0000) as u32;
        let hi: u64 = t / 0x1_0000_0000;
        proof {
            let p: int = radix_pow(i as nat);
            let w: int = prefix_value(a@, i as nat);
            lemma_push(r@, lo);
            lemma_scale_step(limbs_value(r@), carry as int, la as int, x as int, p, lo as int, hi as int);
            assert((w + la * p) * x == w * x + (la * p) * x) by (nonlinear_arith);
            assert(la == limb_at(a@, i as int));
        }
        r.push(lo);
        carry = hi;
        i = i + 1;
    }
    proof {
        lemma_push(r@, carry as u32);
    }
    r.push(carry as u32);
    r
}

/// A magnitude multiplied by the radix to the power `k`.
fn mag_shift(a: &Vec<u32>, k: usize) -> (r: Vec<u32>)
    ensures
        limbs_value(r@) == limbs_value(a@) * radix_pow(k as nat),
{
    let mut r: Vec<u32> = Vec::new();
    let mut j: usize = 0;
    while j < k
        invariant
            j <= k,
            r@.len() == j,
            limbs_value(r@) == 0,
        decreases k - j,
    {
        proof {
            lemma_push(r@, 0u32);
            assert(0 * radix_pow(j as nat) == 0) by (nonlinear_arith);
        }
        r.push(0u32);
        j = j + 1;
    }
    let n: usize = a.len();
    let mut i: usize = 0;
    proof {
        assert(0 * radix_pow(k as nat) == 0) by (nonlinear_arith);
    }
    while i < n
        invariant
            i <= n,
            n == a@.len(),
            r@.len() == k + i,
            limbs_value(r@) == prefix_value(a@, i as nat) * radix_pow(k as nat),
        decreases n - i,
    {
        let la: u32 = a[i];
        proof {
            let p: int = radix_pow(i as nat);
            let q: int = radix_pow(k as nat);
            let w: int = prefix_value(a@, i as nat);
            lemma_push(r@, la);
            lemma_radix_pow_add(k as nat, i as nat);
            assert((w + la * p) * q == w * q + la * (q * p)) by (nonlinear_arith);
            assert(la == limb_at(a@, i as int));
        }
        r.push(la);
        i = i + 1;
    }
    r
}

/// The product of two magnitudes.
fn mag_mul(a: &Vec<u32>, b: &Vec<u32>) -> (r: Vec<u32>)
    ensures
        limbs_value(r@) == limbs_value(a@) * limbs_value(b@),
{
    let n: usize = a.len();
    let mut acc: Vec<u32> = Vec::new();
    let mut i: usize = 0;
    proof {
        assert(0 * limbs_value(b@) == 0) by (nonlinear_arith);
    }
    while i < n
        invariant
            i <= n,
            n == a@.len(),
            limbs_value(acc@) == prefix_value(a@, i as nat) * limbs_value(b@),
        decreases n - i,
    {
        let row: Vec<u32> = mag_scale(b, a[i]);
        let shifted: Vec<u32> = mag_shift(&row, i);
        let next: Vec<u32> = mag_add(&acc, &shifted);
        proof {
            let p: int = radix_pow(i as nat);
            let w: int = prefix_value(a@, i as nat);
            let vb: int = limbs_value(b@);
            let la: int = a@[i as int] as int;
            assert(la == limb_at(a@, i as int));
            assert((w + la * p) * vb == w * vb + (vb * la) * p) by (nonlinear_arith);
        }
        acc = next;
        i = i + 1;
    }
    acc
}

/// Whether a magnitude denotes zero.
fn mag_is_zero(a: &Vec<u32>) -> (r: bool)
    ensures
        r == (limbs_value(a@) == 0),
{
    let n: usize = a.len();
    let mut i: usize = 0;
    while i < n
        invariant
            i <= n,
            n == a@.len(),
            prefix_value(a@, i as nat) == 0,
        decreases n - i,
    {
        if a[i] != 0 {
            proof {
                let p: int = radix_pow(i as nat);
                let la: int = limb_at(a@, i as int);
                lemma_radix_pow_positive(i as nat);
                assert(la * p >= p) by (nonlinear_arith)
                    requires
                        la >= 1,
                        p > 0,
                ;
                lemma_prefix_monotone(a@, (i + 1) as nat, n as nat);
            }
            return false;
        }
        proof {
            assert(0 * radix_pow(i as nat) == 0) by (nonlinear_arith);
        }
        i = i + 1;
    }
    true
}

/// The magnitude that denotes `x`.
fn mag_from_u64(x: u64) -> (r: Vec<u32>)
    ensures
        limbs_value(r@) == x,
{
    let lo: u32 = (x % 0x1_0000_0000) as u32;
    let hi: u32 = (x / 0x1_0000_0000) as u32;
    let mut r: Vec<u32> = Vec::new();
    proof {
        lemma_push(r@, lo);
        assert(limbs_value(r@) == 0);
        assert(radix_pow(0) == 1);
    }
    r.push(lo);
    proof {
        lemma_push(r@, hi);
        assert(radix_pow(1) == radix() * radix_pow(0));
        assert(limbs_value(r@) == lo);
        assert(hi * radix_pow(1) == hi * 0x1_0000_0000) by (nonlinear_arith)
            requires
                radix_pow(1) == 0x1_0000_0000,
        ;
    }
    r.push(hi);
    r
}

/// An integer of unbounded size, held as a sign and a magnitude.
pub struct BigInt {
    neg: bool,
    mag: Vec<u32>,
}

impl View for BigInt {
    type V = int;

    closed spec fn view(&self) -> int {
        if self.neg {
            -limbs_value(self.mag@)
        } else {
            limbs_value(self.mag@)
        }
    }
}

impl BigInt {
    /// The integer zero.
    pub fn zero() -> (r: BigInt)
        ensures
            r@ == 0,
    {
        BigInt { neg: false, mag: Vec::new() }
    }

    /// The integer that `x` denotes.
    pub fn from_i64(x: i64) -> (r: BigInt)
        ensures
            r@ == x,
    {
        if x >= 0 {
            BigInt { neg: false, mag: mag_from_u64(x as u64) }
        } else {
            let m: u64 = ((-(x + 1)) as u64) + 1;
            BigInt { neg: true, mag: mag_from_u64(m) }
        }
    }

    /// The integer that `x` denotes.
    pub fn from_u64(x: u64) -> (r: BigInt)
        ensures
            r@ == x,
    {
        BigInt { neg: false, mag: mag_from_u64(x) }
    }

    /// Whether the integer is zero.
    pub fn is_zero(&self) -> (r: bool)
        ensures
            r == (self@ == 0),
    {
        mag_is_zero(&self.mag)
    }

    /// Whether the integer is below zero.
    pub fn is_negative(&self) -> (r: bool)
        ensures
            r == (self@ < 0),
    {
        proof {
            lemma_prefix_bounds(self.mag@, self.mag@.len());
        }
        self.neg && !mag_is_zero(&self.mag)
    }

    /// Whether the integer is above zero.
    pub fn is_positive(&self) -> (r: bool)
        ensures
            r == (self@ > 0),
    {
        proof {
            lemma_prefix_bounds(self.mag@, self.mag@.len());
        }
        !self.neg && !mag_is_zero(&self.mag)
    }

    /// The integer with the opposite sign.
    pub fn neg(&self) -> (r: BigInt)
        ensures
            r@ == -self@,
    {
        BigInt { neg: !self.neg, mag: mag_scale(&self.mag, 1) }
    }

    /// The sum of two integers.
    pub fn add(&self, other: &BigInt) -> (r: BigInt)
        ensures
            r@ == self@ + other@,
    {
        if self.neg == other.neg {
            BigInt { neg: self.neg, mag: mag_add(&self.mag, &other.mag) }
        } else {
            let (d, below): (Vec<u32>, bool) = mag_sub(&self.mag, &other.mag);
            if !below {
                BigInt { neg: self.neg, mag: d }
            } else {
                let (e, _again): (Vec<u32>, bool) = mag_sub(&other.mag, &self.mag);
                BigInt { neg: other.neg, mag: e }
            }
        }
    }

    /// The difference of two integers.
    pub fn sub(&self, other: &BigInt) -> (r: BigInt)
        ensures
            r@ == self@ - other@,
    {
        let minus: BigInt = other.neg();
        self.add(&minus)
    }

    /// The product of two integers.
    pub fn mul(&self, other: &BigInt) -> (r: BigInt)
        ensures
            r@ == self@ * other@,
    {
        let m: Vec<u32> = mag_mul(&self.mag, &other.mag);
        proof {
            let x: int = limbs_value(self.mag@);
            let y: int = limbs_value(other.mag@);
            assert((-x) * y == -(x * y)) by (nonlinear_arith);
            assert(x * (-y) == -(x * y)) by (nonlinear_arith);
            assert((-x) * (-y) == x * y) by (nonlinear_arith);
        }
        BigInt { neg: self.neg != other.neg, mag: m }
    }

    /// Whether the integer is at most `other`.
    pub fn le(&self, other: &BigInt) -> (r: bool)
        ensures
            r == (self@ <= other@),
    {
        let d: BigInt = other.sub(self);
        !d.is_negative()
    }

    /// Whether the integer is below `other`.
    pub fn lt(&self, other: &BigInt) -> (r: bool)
        ensures
            r == (self@ < other@),
    {
        let d: BigInt = other.sub(self);
        d.is_positive()
    }

    /// Whether the two integers are equal.
    pub fn equals(&self, other: &BigInt) -> (r: bool)
        ensures
            r == (self@ == other@),
    {
        let d: BigInt = other.sub(self);
        d.is_zero()
    }

    /// The quotient of the integer by a positive divisor, rounded down, where
    /// an `i64` holds it.
    pub fn div_floor_i64(&self, divisor: &BigInt) -> (r: Option<i64>)
        requires
            divisor@ > 0,
        ensures
            r == spec_div_floor_i64(self@, divisor@),
    {
        let least: BigInt = BigInt::from_i64(i64::MIN).mul(divisor);
        let most: BigInt = BigInt::from_i64(i64::MAX).mul(divisor);
        proof {
            lemma_floor_bracket(self@, divisor@, i64::MIN as int);
            lemma_floor_bracket(self@, divisor@, i64::MAX as int + 1);
            assert((i64::MAX as int + 1) * divisor@ == i64::MAX as int * divisor@ + divisor@)
                by (nonlinear_arith);
        }
        if !least.le(self) || !self.lt(&most.add(divisor)) {
            return None;
        }
        let mut lo: i64 = i64::MIN;
        let mut hi: i64 = i64::MAX;
        while lo < hi
            invariant
                divisor@ > 0,
                lo <= self@ / divisor@ <= hi,
            decreases hi - lo,
        {
            let gap: i128 = hi as i128 - lo as i128;
            let mid: i64 = (lo as i128 + (gap + 1) / 2) as i64;
            let reach: BigInt = BigInt::from_i64(mid).mul(divisor);
            proof {
                lemma_floor_bracket(self@, divisor@, mid as int);
            }
            if reach.le(self) {
                lo = mid;
            } else {
                hi = mid - 1;
            }
        }
        Some(lo)
    }
}

/// The quotient of `n` by the positive `w`, rounded down, where an `i64`
/// holds it.
pub open spec fn spec_div_floor_i64(n: int, w: int) -> Option<i64> {
    if i64::MIN <= n / w <= i64::MAX {
        Some((n / w) as i64)
    } else {
        None
    }
}

/// A multiple of a positive divisor is at most `n` exactly when its factor
/// is at most the quotient of `n`, rounded down.
pub proof fn lemma_floor_bracket(n: int, w: int, q: int)
    requires
        w > 0,
    ensures
        q * w <= n <==> q <= n / w,
{
    let k: int = n / w;
    let r: int = n % w;
    vstd::arithmetic::div_mod::lemma_fundamental_div_mod(n, w);
    vstd::arithmetic::div_mod::lemma_mod_bound(n, w);
    assert(n == w * k + r);
    if q <= k {
        assert(q * w <= w * k) by (nonlinear_arith)
            requires
                q <= k,
                w > 0,
        ;
    } else {
        assert(q * w >= w * k + w) by (nonlinear_arith)
            requires
                q >= k + 1,
                w > 0,
        ;
    }
}

/// The integers that a list of unbounded integers denotes.
pub open spec fn int_views(v: Seq<BigInt>) -> Seq<int> {
    Seq::new(v.len(), |i: int| v[i]@)
}

} // verus!
