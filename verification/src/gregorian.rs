//! Gregorian-to-Jalali conversion.
//!
//! The conversion counts the days elapsed within the Gregorian year and
//! compares that count against the Jalali new-year boundary (day-count 79,
//! around March 20). Dates before the boundary land in the last months of the
//! outgoing Jalali year; dates on or after it land in the new Jalali year,
//! whose first six months have 31 days and whose later months have 30.

use vstd::prelude::*;
use crate::leap::is_kabise;
use crate::leap::spec_is_kabise;

verus! {

/// A day in the Jalali calendar, produced by [`to_jalali`].
#[derive(PartialEq, Eq, Structural, Debug)]
pub struct JalaliDate {
    pub day: u16,
    pub year: u16,
    pub month: u16,
}

/// Days elapsed before the first day of the given month in a common
/// Gregorian year.
pub open spec fn spec_day_sum(month: int) -> int {
    if month == 1 {
        0
    } else if month == 2 {
        31
    } else if month == 3 {
        59
    } else if month == 4 {
        90
    } else if month == 5 {
        120
    } else if month == 6 {
        151
    } else if month == 7 {
        181
    } else if month == 8 {
        212
    } else if month == 9 {
        243
    } else if month == 10 {
        273
    } else if month == 11 {
        304
    } else {
        334
    }
}

/// Days elapsed before the first day of the given month in a leap Gregorian
/// year: every month after February starts one day later.
pub open spec fn spec_day_sum_kabise(month: int) -> int {
    spec_day_sum(month) + if month >= 3 {
        1int
    } else {
        0int
    }
}

/// Day of the Gregorian year of the given date: days elapsed before its
/// month, plus its day of month.
pub open spec fn spec_days_sum(day: int, month: int, year: int) -> int {
    day + if spec_is_kabise(year) {
        spec_day_sum_kabise(month)
    } else {
        spec_day_sum(month)
    }
}

/// The Jalali date, as a `(day, month, year)` triple, that [`to_jalali`]
/// assigns to a Gregorian date.
///
/// Day-counts below 79 fall before the Jalali new year: shifted by the
/// distance from the start of the Jalali month of Dey to January 1 (10 days,
/// 11 in leap years), they index into the 30-day months at the end of the
/// Jalali year `year - 622`. Day-counts of 79 and above fall in the Jalali
/// year `year - 621`: the first 186 of them cover the six 31-day months, the
/// rest the 30-day months that follow.
pub open spec fn spec_to_jalali(day: int, month: int, year: int) -> (int, int, int) {
    let ds = spec_days_sum(day, month, year);
    if ds < 79 {
        let shifted = ds + if spec_is_kabise(year) {
            11int
        } else {
            10int
        };
        if shifted % 30 == 0 {
            (30int, shifted / 30 + 9, year - 622)
        } else {
            (shifted % 30, shifted / 30 + 10, year - 622)
        }
    } else {
        let past = ds - 79;
        if past <= 186 {
            if past % 31 == 0 {
                (31int, past / 31, year - 621)
            } else {
                (past % 31, past / 31 + 1, year - 621)
            }
        } else {
            let rest = past - 186;
            if rest % 30 == 0 {
                (30int, rest / 30 + 6, year - 621)
            } else {
                (rest % 30, rest / 30 + 7, year - 621)
            }
        }
    }
}

/// Every valid Gregorian date maps to a Jalali month within `1..=12`, with
/// one exception: the date whose day-count equals the new-year boundary 79
/// itself (March 20 of a common year, March 19 of a leap year), which the
/// conversion assigns to month 0.
pub proof fn lemma_to_jalali_month_in_range(day: int, month: int, year: int)
    requires
        1 <= month <= 12,
        1 <= day <= 31,
        spec_days_sum(day, month, year) != 79,
    ensures
        1 <= spec_to_jalali(day, month, year).1 <= 12,
{
    let ds = spec_days_sum(day, month, year);
    assert(1 <= ds <= 366);
    if ds < 79 {
        let shifted = ds + if spec_is_kabise(year) {
            11int
        } else {
            10int
        };
        assert(11 <= shifted <= 89);
        assert(0 <= shifted / 30 <= 2);
    } else {
        let past = ds - 79;
        assert(1 <= past <= 287);
        if past <= 186 {
            assert(0 <= past / 31 <= 6);
            if past % 31 == 0 {
                assert(past >= 31);
                assert(past / 31 >= 1);
            }
        } else {
            let rest = past - 186;
            assert(1 <= rest <= 101);
            assert(0 <= rest / 30 <= 3);
        }
    }
}

/// Dates immediately around the Jalali new year map to opposite ends of the
/// Jalali calendar: the date one day before the boundary (day-count 78)
/// falls in month 12 of the outgoing Jalali year `year - 622`, and the date
/// one day after it (day-count 80) falls on day 1 of month 1 of the new
/// Jalali year `year - 621`.
pub proof fn lemma_new_year_boundary(day: int, month: int, year: int)
    requires
        1 <= month <= 12,
        1 <= day <= 31,
    ensures
        spec_days_sum(day, month, year) == 78 ==> ({
            let (d, m, y) = spec_to_jalali(day, month, year);
            m == 12 && y == year - 622
        }),
        spec_days_sum(day, month, year) == 80 ==> ({
            let (d, m, y) = spec_to_jalali(day, month, year);
            d == 1 && m == 1 && y == year - 621
        }),
{
}

/// Cumulative day count before the given month, from the common-year or
/// leap-year table.
fn day_sum(month: u16, kabise: bool) -> (r: u16)
    requires
        1 <= month <= 12,
    ensures
        r as int == if kabise {
            spec_day_sum_kabise(month as int)
        } else {
            spec_day_sum(month as int)
        },
{
    let base: u16 = match month {
        1 => 0,
        2 => 31,
        3 => 59,
        4 => 90,
        5 => 120,
        6 => 151,
        7 => 181,
        8 => 212,
        9 => 243,
        10 => 273,
        11 => 304,
        _ => 334,
    };
    if kabise && month >= 3 {
        base + 1
    } else {
        base
    }
}

/// Distance from the start of the Jalali month of Dey to January 1 of the
/// following Gregorian year.
fn dey_jan_diff(year: u16) -> (r: u16)
    ensures
        r as int == if spec_is_kabise(year as int) {
            11int
        } else {
            10int
        },
{
    if is_kabise(year) {
        return 11;
    }
    10
}

/// Converts a Gregorian date to the corresponding Jalali date.
///
/// The month must lie in `1..=12`, otherwise the conversion fails; the day is
/// the caller's responsibility and is taken at face value. Dates of the three
/// months before the first Jalali new year representable here (day-counts
/// below 79 of Gregorian year 621, and all earlier years) fall outside the
/// function's domain, since the Jalali year count would drop below zero.
pub fn to_jalali(day: u16, month: u16, year: u16) -> (r: Result<JalaliDate, &'static str>)
    requires
        1 <= month <= 12 ==> 1 <= day <= 31,
        1 <= month <= 12 ==> 621 <= year,
        (1 <= month <= 12 && year == 621) ==> spec_days_sum(day as int, month as int, year as int)
            >= 79,
    ensures
        r is Ok <==> 1 <= month <= 12,
        r matches Err(m) ==> m@ == "cant do it"@,
        r is Ok ==> ({
            let (d, m, y) = spec_to_jalali(day as int, month as int, year as int);
            r.unwrap().day == d && r.unwrap().month == m && r.unwrap().year == y
        }),
{
    if month > 12 || month < 1 {
        return Err("cant do it");
    }

    let days_sum: u16 = day_sum(month, is_kabise(year)) + day;

    if days_sum < 79 {
        let days_sum: u16 = days_sum + dey_jan_diff(year);
        let jalali_year: u16 = year - 622;

        if days_sum % 30 == 0 {
            Ok(JalaliDate { year: jalali_year, day: 30, month: days_sum / 30 + 9 })
        } else {
            Ok(JalaliDate { year: jalali_year, day: days_sum % 30, month: days_sum / 30 + 10 })
        }
    } else {
        let days_sum: u16 = days_sum - 79;
        let jalali_year: u16 = year - 621;

        if days_sum <= 186 {
            if days_sum % 31 == 0 {
                Ok(JalaliDate { day: 31, year: jalali_year, month: days_sum / 31 })
            } else {
                Ok(JalaliDate { day: days_sum % 31, year: jalali_year, month: days_sum / 31 + 1 })
            }
        } else {
            let days_sum: u16 = days_sum - 186;
            if days_sum % 30 == 0 {
                Ok(JalaliDate { day: 30, year: jalali_year, month: days_sum / 30 + 6 })
            } else {
                Ok(JalaliDate { day: days_sum % 30, year: jalali_year, month: days_sum / 30 + 7 })
            }
        }
    }
}

} // verus!

