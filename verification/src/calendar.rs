//! The trusted boundary to the outside calendar crates.
//!
//! Everything the library knows about civil/religious calendar conversion
//! enters through the wrappers in this module.  Each wrapper makes one call
//! into `heca_lib` or `chrono` and states, over uninterpreted names, what
//! that call returns; the names stand for results whose exact values only
//! the calendar arithmetic of those crates defines.
//!
//! Conventions shared by every contract here:
//! - a civil instant is the number of seconds since the Unix epoch (UTC);
//! - every instant of a Hebrew date is the evening onset of the civil day
//!   it announces, always at 18:00 UTC, so instants are congruent to
//!   64800 modulo 86400;
//! - a Hebrew month is passed under the numeric code of `Month::code`
//!   (Tishrei is 0, ..., Elul is 13), the code the calendar crate itself
//!   uses.

use vstd::prelude::*;

use crate::types::Event;
use chrono::{DateTime, Utc};
use heca_lib::prelude::{
    Location as CalLocation, TorahReading as CalReading, TorahReadingType as CalReadingType,
};

verus! {

/// The civil instant of the calendar crate's own epoch (18:00 UTC,
/// September 21 of civil year 2), the smallest instant it can produce.
pub const TS_MIN: i64 = -62_081_272_800;

/// A generous ceiling on every instant this library handles; reached only
/// beyond Hebrew year 240000, far above `MAX_YEAR`.
pub const TS_MAX: i64 = 8_000_000_000_000;

/// The first Hebrew year the calendar crate supports.
pub const MIN_YEAR: u64 = 3764;

/// The largest Hebrew year requests may name.  Kept well under the range
/// of the civil-date crate so that every derived instant stays renderable.
pub const MAX_YEAR: u64 = 200_000;

/// The largest Hebrew year the wrappers themselves accept.
pub const MAX_WRAPPER_YEAR: u64 = 240_000;

/// Whether an event's instant lies in the window every generator stays
/// inside: between the calendar epoch and the ceiling plus the length of
/// the Omer count, the one generator that reaches past a resolved date.
pub open spec fn event_in_range(e: Event) -> bool {
    TS_MIN <= e.instant <= TS_MAX + 4_500_000
}

/// `event_in_range`, over a whole list.
pub open spec fn events_in_range(s: Seq<Event>) -> bool {
    forall|i: int| 0 <= i < s.len() ==> event_in_range(#[trigger] s[i])
}

/// Concatenation keeps `events_in_range`.
pub proof fn lemma_events_in_range_concat(a: Seq<Event>, b: Seq<Event>)
    requires
        events_in_range(a),
        events_in_range(b),
    ensures
        events_in_range(a + b),
{
    assert forall|i: int| 0 <= i < (a + b).len() implies event_in_range(#[trigger] (a + b)[i]) by {
        if i < a.len() {
            assert((a + b)[i] == a[i]);
        } else {
            assert((a + b)[i] == b[i - a.len()]);
        }
    }
}

/// The civil instant of the start of the given Hebrew date (the evening
/// before the civil day it announces), as the calendar crate computes it.
pub uninterp spec fn spec_hebrew_ts(year: int, month: int, day: int) -> int;

/// Whether the given Hebrew date exists in the given year (a day in plain
/// Adar exists only in non-leap years, in Adar 1 or Adar 2 only in leap
/// years, and day 30 only in full months).
pub uninterp spec fn spec_date_exists(year: int, month: int, day: int) -> bool;

/// The Hebrew (year, month code, day) containing the given civil instant.
pub uninterp spec fn spec_civil_hebrew(ts: int) -> (int, int, int);

/// The Torah readings of a Hebrew year for one reading category, each as
/// (category, reading code, instant).  The reading code is the index of the
/// variant in the calendar crate's own catalog, the order `reading_of`
/// mirrors.
pub uninterp spec fn spec_holidays(year: int, israel: bool, category: int) -> Seq<(u8, u8, i64)>;

/// The civil instant of midnight UTC, January 1 of the given civil year.
pub uninterp spec fn spec_jan1_ts(year: int) -> int;

/// The civil (year, month, day) of the civil day containing the instant.
pub uninterp spec fn spec_civil_ymd(ts: int) -> (int, int, int);

/// Whether (year, month, day) is a real date of the civil calendar.
pub uninterp spec fn spec_civil_date_ok(year: int, month: int, day: int) -> bool;

/// The civil instant of midnight UTC on the given civil date.
pub uninterp spec fn spec_civil_ts(year: int, month: int, day: int) -> int;

/// Relies on `heca_lib::HebrewYear::get_hebrew_date` (via `HebrewYear::new`
/// and the `From<HebrewDate>` conversion to a UTC datetime): resolves a
/// Hebrew date in a year and returns its evening-onset instant, or an error
/// exactly when the date does not exist in that year.
#[verifier::external_body]
pub(crate) fn hebrew_to_civil(year: u64, month: u8, day: u8) -> (r: Option<i64>)
    requires
        MIN_YEAR <= year <= MAX_WRAPPER_YEAR,
        month < 14,
        1 <= day <= 30,
    ensures
        r is Some <==> spec_date_exists(year as int, month as int, day as int),
        r is Some ==> {
            &&& r->Some_0 == spec_hebrew_ts(year as int, month as int, day as int)
            &&& TS_MIN <= r->Some_0 <= TS_MAX
            &&& r->Some_0 % 86400 == 64800
        },
{
    let y = match heca_lib::HebrewYear::new(year) {
        Ok(y) => y,
        Err(_) => return None,
    };
    let m = heca_lib::prelude::HebrewMonth::from(month as u64);
    let d = match std::num::NonZeroI8::new(day as i8) {
        Some(d) => d,
        None => return None,
    };
    match y.get_hebrew_date(m, d) {
        Ok(hd) => Some(chrono::DateTime::<chrono::Utc>::from(hd).timestamp()),
        Err(_) => None,
    }
}

/// Relies on `heca_lib::HebrewDate::try_from` on a UTC datetime: converts a
/// civil instant to the Hebrew date containing it (with the day boundary at
/// 18:00 UTC), failing exactly on instants before its supported range,
/// which opens 367 days after its first Rosh Hashanah (the instant
/// -62_049_391_200).  The year ceiling in the result follows from the
/// 353-day minimum year length at the instant ceiling.
#[verifier::external_body]
pub(crate) fn civil_to_hebrew(ts: i64) -> (r: Option<(u64, u8, u8)>)
    requires
        TS_MIN - 200_000_000_000 <= ts <= TS_MAX,
    ensures
        r is Some <==> ts >= -62_049_391_200,
        r is Some ==> {
            &&& r->Some_0.0 == spec_civil_hebrew(ts as int).0
            &&& r->Some_0.1 == spec_civil_hebrew(ts as int).1
            &&& r->Some_0.2 == spec_civil_hebrew(ts as int).2
            &&& MIN_YEAR <= r->Some_0.0 <= 270_000
            &&& r->Some_0.1 < 14
            &&& 1 <= r->Some_0.2 <= 30
        },
{
    let dt = match chrono::DateTime::<chrono::Utc>::from_timestamp(ts, 0) {
        Some(dt) => dt,
        None => return None,
    };
    match <heca_lib::HebrewDate as std::convert::TryFrom<_>>::try_from(dt) {
        Ok(hd) => Some((hd.year(), hd.month() as u8, hd.day().get() as u8)),
        Err(_) => None,
    }
}

/// Relies on `heca_lib::HebrewYear::get_holidays`: lists the Torah readings
/// of one category in a year, each reading reported as the index of its
/// variant in the calendar crate's catalog together with its instant.
/// Category 0 asks for the major holidays, 1 for the weekday readings, 2
/// for the weekly portions and 3 for the special winter portions.
#[verifier::external_body]
pub(crate) fn fetch_holidays(year: u64, israel: bool, category: u8) -> (r: Vec<(u8, u8, i64)>)
    requires
        MIN_YEAR <= year <= MAX_WRAPPER_YEAR,
        category < 4,
    ensures
        r@ == spec_holidays(year as int, israel, category as int),
        forall|i: int| 0 <= i < r@.len() ==> {
            &&& (#[trigger] r@[i]).0 == category
            &&& r@[i].1 < 64
            &&& TS_MIN <= r@[i].2 <= TS_MAX
            &&& r@[i].2 % 86400 == 64800
        },
{
    let cats = [CalReadingType::YomTov, CalReadingType::Chol, CalReadingType::Shabbos, CalReadingType::SpecialParsha];
    let loc = if israel { CalLocation::Israel } else { CalLocation::Chul };
    let found = heca_lib::HebrewYear::new(year).unwrap().get_holidays(loc, &[cats[category as usize]]);
    found.into_iter().map(|h| {
        let d: DateTime<Utc> = h.day().into();
        match h.name() {
            CalReading::YomTov(x) => (0u8, x as u8, d.timestamp()),
            CalReading::Chol(x) => (1u8, x as u8, d.timestamp()),
            CalReading::Shabbos(x) => (2u8, x as u8, d.timestamp()),
            CalReading::SpecialParsha(x) => (3u8, x as u8, d.timestamp()),
        }
    }).collect()
}

/// Relies on `chrono::TimeZone::with_ymd_and_hms` on `Utc`: the instant of
/// midnight UTC, January 1 of the given civil year.
#[verifier::external_body]
pub(crate) fn jan1_ts(year: u64) -> (r: i64)
    requires
        1 <= year <= 202_000,
    ensures
        r == spec_jan1_ts(year as int),
        -62_200_000_000 <= r <= 6_400_000_000_000,
        r % 86400 == 0,
{
    chrono::TimeZone::with_ymd_and_hms(&chrono::Utc, year as i32, 1, 1, 0, 0, 0)
        .unwrap()
        .timestamp()
}

/// Relies on `chrono::DateTime::from_timestamp` and the `Datelike`
/// accessors: the civil (year, month, day) of the day containing the
/// instant, for rendering.
#[verifier::external_body]
pub(crate) fn civil_ymd(ts: i64) -> (r: (u32, u8, u8))
    requires
        -62_135_596_800 <= ts <= TS_MAX + 4_500_000,
    ensures
        r.0 == spec_civil_ymd(ts as int).0,
        r.1 == spec_civil_ymd(ts as int).1,
        r.2 == spec_civil_ymd(ts as int).2,
        1 <= r.0 <= 300_000,
        1 <= r.1 <= 12,
        1 <= r.2 <= 31,
{
    let dt = chrono::DateTime::<chrono::Utc>::from_timestamp(ts, 0).unwrap();
    (
        chrono::Datelike::year(&dt) as u32,
        chrono::Datelike::month(&dt) as u8,
        chrono::Datelike::day(&dt) as u8,
    )
}

/// Relies on `chrono::TimeZone::with_ymd_and_hms` on `Utc`: the instant
/// of midnight UTC on a civil date, or nothing exactly when the date is
/// not a real one (a February 30th).
#[verifier::external_body]
pub(crate) fn civil_date_ts(year: u64, month: u8, day: u8) -> (r: Option<i64>)
    requires
        1 <= year <= 202_000,
    ensures
        r is Some <==> spec_civil_date_ok(year as int, month as int, day as int),
        r matches Some(ts) ==> {
            &&& ts == spec_civil_ts(year as int, month as int, day as int)
            &&& -62_200_000_000 <= ts <= 6_400_000_000_000
            &&& ts % 86400 == 0
        },
{
    match chrono::TimeZone::with_ymd_and_hms(
        &chrono::Utc,
        year as i32,
        month as u32,
        day as u32,
        0,
        0,
        0,
    ) {
        chrono::LocalResult::Single(dt) => Some(dt.timestamp()),
        _ => None,
    }
}

/// Whether the given Hebrew year is a leap year (13 months): the 3rd, 6th,
/// 8th, 11th, 14th, 17th and 19th year of each 19-year cycle, counted from
/// year 3763, are leap years.  This is the same rule the calendar crate
/// applies.
pub open spec fn spec_is_leap(year: int) -> bool {
    let c = (year - 3763) % 19;
    c == 2 || c == 5 || c == 7 || c == 10 || c == 13 || c == 16 || c == 18
}

/// Executable form of `spec_is_leap`.
pub fn is_leap_year(year: u64) -> (r: bool)
    requires
        year >= MIN_YEAR,
    ensures
        r == spec_is_leap(year as int),
{
    let c = (year - 3763) % 19;
    c == 2 || c == 5 || c == 7 || c == 10 || c == 13 || c == 16 || c == 18
}

} // verus!
