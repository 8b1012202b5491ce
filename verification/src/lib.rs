//! Conversion between Gregorian and Jalali (Persian solar hijri) calendar
//! dates, by closed-form day-counting arithmetic.
//!
//! The crate offers two independent one-way conversions: [`to_jalali`] turns a
//! Gregorian `(day, month, year)` into a [`JalaliDate`], and
//! [`jalali_to_gregorian`] turns a Jalali `(year, month, day)` into a
//! [`GregorianDate`]. Both directions share the same leap-year rule, found in
//! [`leap`].

pub mod gregorian;
pub mod jalali;
pub mod leap;

pub use gregorian::to_jalali;
pub use gregorian::JalaliDate;
pub use jalali::jalali_to_gregorian;
pub use jalali::GregorianDate;
pub use leap::is_kabise;
pub use leap::year_is_leap;
