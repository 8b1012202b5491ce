//! Jalali-to-Gregorian conversion.
//!
//! The conversion counts the days elapsed within the Jalali year, then walks
//! a Gregorian month-length table laid out in March-start order (position 0
//! is April, position 10 is February), subtracting month lengths until the
//! remainder fits the month at hand. In leap years the walk subtracts from
//! the leap table while its continuation test still reads the common-year
//! table; that asymmetry is part of the conversion's defined behaviour and is
//! reproduced here exactly.

use vstd::prelude::*;
use crate::leap::spec_is_kabise;
use crate::leap::year_is_leap;

verus! {

/// A day in the Gregorian calendar, produced by [`jalali_to_gregorian`].
#[derive(PartialEq, Eq, Structural, Debug)]
pub struct GregorianDate {
    pub year: i32,
    pub month: i32,
    pub day: i32,
}

/// Length of the Gregorian month at the given table position, in March-start
/// order: position 0 is April, position 9 is January, position 10 is
/// February (29 days in leap years), position 11 is March.
pub open spec fn spec_month_len(i: int, leap: bool) -> int {
    if i == 0 {
        30
    } else if i == 1 {
        31
    } else if i == 2 {
        30
    } else if i == 3 {
        31
    } else if i == 4 {
        31
    } else if i == 5 {
        30
    } else if i == 6 {
        31
    } else if i == 7 {
        30
    } else if i == 8 {
        31
    } else if i == 9 {
        31
    } else if i == 10 {
        if leap {
            29
        } else {
            28
        }
    } else {
        31
    }
}

/// Sum of the common-year month lengths from the given table position to the
/// end of the table.
pub open spec fn spec_suffix_sum(i: int) -> int
    decreases 12 - i,
{
    if 0 <= i < 12 {
        spec_month_len(i, false) + spec_suffix_sum(i + 1)
    } else {
        0
    }
}

/// The month walk: starting from table position `i`, subtracts month lengths
/// from `remain` while it exceeds the common-year length at the current
/// position, and returns the final `(remain, position)` pair. In leap years
/// the subtracted length comes from the leap table while the continuation
/// test still reads the common-year table.
pub open spec fn spec_walk(remain: int, i: int, leap: bool) -> (int, int)
    decreases 12 - i,
{
    if i < 12 && remain > spec_month_len(i, false) {
        spec_walk(remain - spec_month_len(i, leap), i + 1, leap)
    } else {
        (remain, i)
    }
}

/// Day of the Jalali year of the given date: the first six Jalali months
/// have 31 days, the months after them 30.
pub open spec fn spec_day_count(month: int, day: int) -> int {
    if 1 <= month <= 6 {
        (month - 1) * 31 + day
    } else {
        186 + (month - 7) * 30 + day
    }
}

/// The Gregorian date, as a `(year, month, day)` triple, that
/// [`jalali_to_gregorian`] assigns to a Jalali date.
///
/// Day-counts below the March boundary offset (11 days, 12 when the Jalali
/// year starts in a leap Gregorian year) stay in March of `year + 621`; any
/// later day-count is resolved by the month walk, rolling into `year + 622`
/// when the walk passes December (table position 8).
pub open spec fn spec_jalali_to_gregorian(year: int, month: int, day: int) -> (int, int, int) {
    let gregorian_year = year + 621;
    let march_day_diff = if spec_is_kabise(gregorian_year) {
        12int
    } else {
        11int
    };
    let day_count = spec_day_count(month, day);
    if day_count < march_day_diff {
        (gregorian_year, 3int, day_count + 31 - march_day_diff)
    } else {
        let walked = spec_walk(day_count - march_day_diff, 0, spec_is_kabise(gregorian_year + 1));
        if walked.1 > 8 {
            (gregorian_year + 1, walked.1 - 8, walked.0)
        } else {
            (gregorian_year, walked.1 + 4, walked.0)
        }
    }
}

/// Month length at a table position, from the common-year or leap-year
/// table.
fn month_len(i: usize, leap: bool) -> (r: i32)
    requires
        i < 12,
    ensures
        r as int == spec_month_len(i as int, leap),
{
    match i {
        0 => 30,
        1 => 31,
        2 => 30,
        3 => 31,
        4 => 31,
        5 => 30,
        6 => 31,
        7 => 30,
        8 => 31,
        9 => 31,
        10 => if leap {
            29
        } else {
            28
        },
        _ => 31,
    }
}

/// The suffix sums of the common-year table, at the positions the month walk
/// needs: the whole table covers 365 days, and its last entry 31.
proof fn lemma_suffix_sum_bounds()
    ensures
        spec_suffix_sum(0) == 365,
        spec_suffix_sum(11) == 31,
{
    reveal_with_fuel(spec_suffix_sum, 14);
}

/// Converts a Jalali date to the corresponding Gregorian date.
///
/// Month range is `1..=12` and the day starts from 1; day values are
/// otherwise the caller's responsibility and are taken at face value.
pub fn jalali_to_gregorian(year: i32, month: i32, day: i32) -> (r: GregorianDate)
    requires
        1 <= month <= 12,
        1 <= day <= 31,
        year + 622 <= i32::MAX,
    ensures
        ({
            let (y, m, d) = spec_jalali_to_gregorian(year as int, month as int, day as int);
            r.year == y && r.month == m && r.day == d
        }),
{
    let gregorian_year: i32 = year + 621;
    let march_day_diff: i32 = if year_is_leap(gregorian_year) {
        12
    } else {
        11
    };

    let day_count: i32 = if month <= 6 {
        (month - 1) * 31 + day
    } else {
        186 + (month - 7) * 30 + day
    };

    if day_count < march_day_diff {
        GregorianDate {
            year: gregorian_year,
            month: 3,
            day: day_count + (31 - march_day_diff),
        }
    } else {
        let leap = year_is_leap(gregorian_year + 1);
        let ghost remain0: int = day_count - march_day_diff;
        let mut remain_days: i32 = day_count - march_day_diff;
        let mut i: usize = 0;

        proof {
            lemma_suffix_sum_bounds();
        }

        while remain_days > month_len(i, false)
            invariant
                i <= 11,
                leap == spec_is_kabise(year as int + 622),
                remain_days <= spec_suffix_sum(i as int),
                spec_walk(remain0, 0, leap) == spec_walk(remain_days as int, i as int, leap),
            decreases 12 - i,
        {
            proof {
                lemma_suffix_sum_bounds();
            }
            remain_days = remain_days - month_len(i, leap);
            i = i + 1;
        }

        let gregorian_day_of_month: i32 = remain_days;

        if i > 8 {
            GregorianDate {
                year: gregorian_year + 1,
                month: (i - 8) as i32,
                day: gregorian_day_of_month,
            }
        } else {
            GregorianDate {
                year: gregorian_year,
                month: (i + 4) as i32,
                day: gregorian_day_of_month,
            }
        }
    }
}

} // verus!
