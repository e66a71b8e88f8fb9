//! Tolerance-based comparison of scalars.

use vstd::prelude::*;

verus! {

/// Number of units that make up the length one.
pub const UNITS_PER_ONE: i64 = 1_000_000_000;

/// Tolerance of a freshly built shape, in units: a millionth of the length
/// one, which is a thousand times the unit, so that rounding a length to
/// units stays well below it.
pub const DEFAULT_VICINITY: u64 = 1_000;

/// The absolute value of a mathematical integer.
pub open spec fn spec_abs(a: int) -> int {
    if a < 0 {
        -a
    } else {
        a
    }
}

/// `a` and `b` differ by at most `epsilon`.
pub open spec fn spec_within(epsilon: int, a: int, b: int) -> bool {
    a + epsilon >= b && a - epsilon <= b
}

/// For a tolerance that is not negative, being within tolerance is a bound on
/// the distance of the two scalars.
pub proof fn lemma_within_is_distance(epsilon: int, a: int, b: int)
    requires
        epsilon >= 0,
    ensures
        spec_within(epsilon, a, b) <==> spec_abs(a - b) <= epsilon,
{
}

/// Being within tolerance does not depend on the order of the two scalars.
pub proof fn lemma_within_symmetric(epsilon: int, a: int, b: int)
    ensures
        spec_within(epsilon, a, b) == spec_within(epsilon, b, a),
{
}

/// What is within a tolerance is within every wider one.
pub proof fn lemma_within_monotone(narrow: int, wide: int, a: int, b: int)
    requires
        narrow <= wide,
        spec_within(narrow, a, b),
    ensures
        spec_within(wide, a, b),
{
}

/// The magnitude of `epsilon`, as a tolerance.
pub fn magnitude(epsilon: i64) -> (r: u64)
    ensures
        r == spec_abs(epsilon as int),
{
    if epsilon >= 0 {
        epsilon as u64
    } else {
        ((-(epsilon + 1)) as u64) + 1
    }
}

/// Decides whether two scalars are equal within a tolerance.
pub fn within(epsilon: u64, a: i64, b: i64) -> (r: bool)
    ensures
        r == spec_within(epsilon as int, a as int, b as int),
{
    let wa: i128 = a as i128;
    let wb: i128 = b as i128;
    let we: i128 = epsilon as i128;
    wa + we >= wb && wa - we <= wb
}

} // verus!
