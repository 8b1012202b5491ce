//! Leap-year predicates. Both conversion directions rely on the same
//! Gregorian rule; Jalali leap detection is approximated through it rather
//! than through the true 33-year Jalali cycle.

use vstd::prelude::*;

verus! {

/// A Gregorian year is a leap year when it is divisible by 4 but not by 100,
/// or divisible by both 100 and 400. The two clauses are mutually exclusive;
/// together they cover exactly the standard Gregorian rule (see
/// [`lemma_kabise_matches_standard_rule`]).
pub open spec fn spec_is_kabise(year: int) -> bool {
    (year % 4 == 0 && year % 100 != 0) || (year % 400 == 0 && year % 100 == 0)
}

/// The standard phrasing of the Gregorian leap rule: divisible by 4, except
/// century years, which must be divisible by 400.
pub open spec fn spec_standard_leap(year: int) -> bool {
    year % 4 == 0 && (year % 100 != 0 || year % 400 == 0)
}

/// The rule used throughout this crate agrees with the standard Gregorian
/// leap rule on every year.
pub proof fn lemma_kabise_matches_standard_rule(year: int)
    ensures
        spec_is_kabise(year) == spec_standard_leap(year),
{
    vstd::arithmetic::div_mod::lemma_mod_mod(year, 100, 4);
    vstd::arithmetic::div_mod::lemma_mod_mod(year, 4, 25);
    assert(4 * 25 == 100) by (nonlinear_arith);
    assert(100 * 4 == 400) by (nonlinear_arith);
}

/// Leap test for the Gregorian-to-Jalali direction.
pub fn is_kabise(year: u16) -> (r: bool)
    ensures
        r == spec_is_kabise(year as int),
{
    if year % 4 == 0 && year % 100 != 0 {
        return true;
    }
    if year % 400 == 0 && year % 100 == 0 {
        return true;
    }
    false
}

/// Leap test for the Jalali-to-Gregorian direction: the same rule, stated
/// over a wider integer type.
pub fn year_is_leap(gregorian_year: i32) -> (r: bool)
    ensures
        r == spec_is_kabise(gregorian_year as int),
{
    ((gregorian_year % 100) != 0 && (gregorian_year % 4) == 0)
        || ((gregorian_year % 100) == 0 && (gregorian_year % 400) == 0)
}

} // verus!
