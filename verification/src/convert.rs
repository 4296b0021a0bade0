//! Single-date conversion between the civil and the Hebrew calendar: a
//! civil day spans two Hebrew dates (the boundary is in the evening), and
//! a Hebrew date spans two civil days.

use vstd::prelude::*;

use crate::calendar::{
    MIN_YEAR, MAX_WRAPPER_YEAR, spec_civil_date_ok, spec_civil_hebrew, spec_civil_ts,
    spec_date_exists, spec_hebrew_ts, civil_date_ts, civil_to_hebrew, hebrew_to_civil,
};
use crate::types::Month;

verus! {

/// A Hebrew date as plain values: the year, the month code of
/// `Month::code`, and the day of month.
pub type HebrewYmd = (u64, u8, u8);

/// Converts a civil date to the two Hebrew dates it overlaps: the one
/// containing its first second and the one containing its last hour
/// (Hebrew days change in the evening).
pub fn convert_gregorian(year: u64, month: u8, day: u8) -> (r: Option<(HebrewYmd, HebrewYmd)>)
    requires
        1 <= year <= 202_000,
    ensures
        r is Some <==> spec_civil_date_ok(year as int, month as int, day as int)
            && spec_civil_ts(year as int, month as int, day as int) >= -62_049_391_200,
        r matches Some(pair) ==> {
            let ts = spec_civil_ts(year as int, month as int, day as int);
            let a = spec_civil_hebrew(ts + 1);
            let b = spec_civil_hebrew(ts + 82_801);
            &&& (pair.0.0 as int, pair.0.1 as int, pair.0.2 as int) == a
            &&& (pair.1.0 as int, pair.1.1 as int, pair.1.2 as int) == b
        },
{
    let ts = match civil_date_ts(year, month, day) {
        Some(ts) => ts,
        None => {
            return None;
        },
    };
    let a = match civil_to_hebrew(ts + 1) {
        Some(a) => a,
        None => {
            return None;
        },
    };
    let b = match civil_to_hebrew(ts + 82_801) {
        Some(b) => b,
        None => {
            return None;
        },
    };
    Some((a, b))
}

/// Converts a Hebrew date to the instants of the two civil evenings it
/// touches: its own onset and the onset of the next civil day.
pub fn convert_hebrew(year: u64, month: Month, day: u8) -> (r: Option<(i64, i64)>)
    requires
        MIN_YEAR <= year <= MAX_WRAPPER_YEAR,
        1 <= day <= 30,
    ensures
        r is Some <==> spec_date_exists(year as int, month.spec_code() as int, day as int),
        r matches Some(pair) ==> {
            let ts = spec_hebrew_ts(year as int, month.spec_code() as int, day as int);
            pair.0 == ts && pair.1 == ts + 86400
        },
{
    match hebrew_to_civil(year, month.code(), day) {
        Some(ts) => Some((ts, ts + 86400)),
        None => None,
    }
}

} // verus!
