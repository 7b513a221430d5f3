//! Leap years in the Gregorian calendar.

use vstd::prelude::*;

verus! {

/// A year is a leap year when it is divisible by 4, except that
/// century years must be divisible by 400.
pub open spec fn spec_is_leap(year: u16) -> bool {
    year % 400 == 0 || (year % 4 == 0 && year % 100 != 0)
}

/// Decides whether `year` is a leap year.
pub fn is_leap(year: u16) -> (leap: bool)
    ensures
        leap == spec_is_leap(year),
{
    match (year % 400, year % 4, year % 100) {
        (0, _, _) => true,
        (_, 0, r) => r != 0,
        _ => false,
    }
}

} // verus!
