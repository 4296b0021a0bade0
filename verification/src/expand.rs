//! The per-year holiday and reading expander: decodes the calendar's
//! reading catalog, classifies candle-lighting eligibility, and appends
//! the Omer count, the fixed minor observances and the user-defined
//! observances.

use vstd::prelude::*;

use crate::calendar::{
    MIN_YEAR, MAX_WRAPPER_YEAR, TS_MIN, TS_MAX, events_in_range, spec_civil_hebrew,
    spec_date_exists, spec_hebrew_ts, spec_holidays, spec_is_leap, civil_to_hebrew,
    hebrew_to_civil, fetch_holidays, is_leap_year,
};
use crate::types::{
    CandleLighting, Chol, City, CustomHolidayDef, Event, Location, MinorHoliday, Name, Parsha,
    SelectionConfig, SpecialParsha, TorahReading, YomTov,
};

verus! {

/// The weekday code of the civil day containing an aligned instant:
/// 0 is Sunday, 5 Friday, 6 Saturday (day 0 of the civil epoch was a
/// Thursday).
pub open spec fn spec_weekday(ts: int) -> int {
    ((ts - 64800) / 86400 + 4) % 7
}

/// Executable form of `spec_weekday`.
pub fn weekday(ts: i64) -> (r: u8)
    requires
        TS_MIN <= ts <= TS_MAX,
    ensures
        r == spec_weekday(ts as int),
        r < 7,
{
    let n = ((ts - 64800 + 62_081_337_600) as u64) / 86400;
    let r = ((n % 7) + 6) % 7;
    proof {
        let a = ts - 64800;
        vstd::arithmetic::div_mod::lemma_hoist_over_denominator(a, 718_534, 86400nat);
        assert(n as int == a / 86400 + 718_534);
        vstd::arithmetic::div_mod::lemma_mod_multiples_vanish(
            102_648,
            a / 86400 + 4,
            7,
        );
        vstd::arithmetic::div_mod::lemma_mod_multiples_vanish(1, (n as int) % 7 + 6 - 7, 7);
        vstd::arithmetic::div_mod::lemma_add_mod_noop((n as int), 6, 7);
        vstd::arithmetic::div_mod::lemma_mod_twice((n as int), 7);
    }
    r as u8
}

/// The `YomTov` variant the calendar crate reports under code `c` (the
/// index of the variant in its catalog); codes past the catalog clamp
/// to the last variant.
#[verifier::opaque]
pub open spec fn spec_yomtov_of(c: int) -> YomTov {
    if c == 0 { YomTov::RoshHashanah1 }
    else    if c == 1 { YomTov::RoshHashanah2 }
    else    if c == 2 { YomTov::YomKippur }
    else    if c == 3 { YomTov::Sukkos1 }
    else    if c == 4 { YomTov::Sukkos2 }
    else    if c == 5 { YomTov::Sukkos3 }
    else    if c == 6 { YomTov::Sukkos4 }
    else    if c == 7 { YomTov::Sukkos5 }
    else    if c == 8 { YomTov::Sukkos6 }
    else    if c == 9 { YomTov::Sukkos7 }
    else    if c == 10 { YomTov::ShminiAtzeres }
    else    if c == 11 { YomTov::SimchasTorah }
    else    if c == 12 { YomTov::Pesach1 }
    else    if c == 13 { YomTov::Pesach2 }
    else    if c == 14 { YomTov::Pesach3 }
    else    if c == 15 { YomTov::Pesach4 }
    else    if c == 16 { YomTov::Pesach5 }
    else    if c == 17 { YomTov::Pesach6 }
    else    if c == 18 { YomTov::Pesach7 }
    else    if c == 19 { YomTov::Pesach8 }
    else    if c == 20 { YomTov::Shavuos1 }
    else { YomTov::Shavuos2 }
}

/// Executable form of `spec_yomtov_of`.
pub fn yomtov_of(c: u8) -> (r: YomTov)
    ensures
        r == spec_yomtov_of(c as int),
{
    proof {
        reveal(spec_yomtov_of);
    }
    match c {
        0 => YomTov::RoshHashanah1,
        1 => YomTov::RoshHashanah2,
        2 => YomTov::YomKippur,
        3 => YomTov::Sukkos1,
        4 => YomTov::Sukkos2,
        5 => YomTov::Sukkos3,
        6 => YomTov::Sukkos4,
        7 => YomTov::Sukkos5,
        8 => YomTov::Sukkos6,
        9 => YomTov::Sukkos7,
        10 => YomTov::ShminiAtzeres,
        11 => YomTov::SimchasTorah,
        12 => YomTov::Pesach1,
        13 => YomTov::Pesach2,
        14 => YomTov::Pesach3,
        15 => YomTov::Pesach4,
        16 => YomTov::Pesach5,
        17 => YomTov::Pesach6,
        18 => YomTov::Pesach7,
        19 => YomTov::Pesach8,
        20 => YomTov::Shavuos1,
        _ => YomTov::Shavuos2,
    }
}

/// The `Chol` variant the calendar crate reports under code `c` (the
/// index of the variant in its catalog); codes past the catalog clamp
/// to the last variant.
#[verifier::opaque]
pub open spec fn spec_chol_of(c: int) -> Chol {
    if c == 0 { Chol::TzomGedalia }
    else    if c == 1 { Chol::RoshChodeshCheshvan1 }
    else    if c == 2 { Chol::RoshChodeshCheshvan2 }
    else    if c == 3 { Chol::Chanukah1 }
    else    if c == 4 { Chol::Chanukah2 }
    else    if c == 5 { Chol::Chanukah3 }
    else    if c == 6 { Chol::Chanukah4 }
    else    if c == 7 { Chol::Chanukah5 }
    else    if c == 8 { Chol::Chanukah6 }
    else    if c == 9 { Chol::Chanukah7 }
    else    if c == 10 { Chol::Chanukah8 }
    else    if c == 11 { Chol::TenTeves }
    else    if c == 12 { Chol::RoshChodeshShvat }
    else    if c == 13 { Chol::RoshChodeshNissan }
    else    if c == 14 { Chol::RoshChodeshIyar1 }
    else    if c == 15 { Chol::RoshChodeshIyar2 }
    else    if c == 16 { Chol::RoshChodeshSivan }
    else    if c == 17 { Chol::RoshChodeshTammuz1 }
    else    if c == 18 { Chol::RoshChodeshTammuz2 }
    else    if c == 19 { Chol::RoshChodeshAv }
    else    if c == 20 { Chol::RoshChodeshElul1 }
    else    if c == 21 { Chol::RoshChodeshElul2 }
    else    if c == 22 { Chol::RoshChodeshKislev1 }
    else    if c == 23 { Chol::RoshChodeshKislev2 }
    else    if c == 24 { Chol::RoshChodeshKislev }
    else    if c == 25 { Chol::RoshChodeshTeves1 }
    else    if c == 26 { Chol::RoshChodeshTeves2 }
    else    if c == 27 { Chol::RoshChodeshTeves }
    else    if c == 28 { Chol::RoshChodeshAdar1 }
    else    if c == 29 { Chol::RoshChodeshAdar2 }
    else    if c == 30 { Chol::TaanisEsther }
    else    if c == 31 { Chol::Purim }
    else    if c == 32 { Chol::ShushanPurim }
    else    if c == 33 { Chol::RoshChodeshAdarRishon1 }
    else    if c == 34 { Chol::RoshChodeshAdarRishon2 }
    else    if c == 35 { Chol::RoshChodeshAdarSheni1 }
    else    if c == 36 { Chol::RoshChodeshAdarSheni2 }
    else    if c == 37 { Chol::SeventeenTammuz }
    else { Chol::NineAv }
}

/// Executable form of `spec_chol_of`.
pub fn chol_of(c: u8) -> (r: Chol)
    ensures
        r == spec_chol_of(c as int),
{
    proof {
        reveal(spec_chol_of);
    }
    match c {
        0 => Chol::TzomGedalia,
        1 => Chol::RoshChodeshCheshvan1,
        2 => Chol::RoshChodeshCheshvan2,
        3 => Chol::Chanukah1,
        4 => Chol::Chanukah2,
        5 => Chol::Chanukah3,
        6 => Chol::Chanukah4,
        7 => Chol::Chanukah5,
        8 => Chol::Chanukah6,
        9 => Chol::Chanukah7,
        10 => Chol::Chanukah8,
        11 => Chol::TenTeves,
        12 => Chol::RoshChodeshShvat,
        13 => Chol::RoshChodeshNissan,
        14 => Chol::RoshChodeshIyar1,
        15 => Chol::RoshChodeshIyar2,
        16 => Chol::RoshChodeshSivan,
        17 => Chol::RoshChodeshTammuz1,
        18 => Chol::RoshChodeshTammuz2,
        19 => Chol::RoshChodeshAv,
        20 => Chol::RoshChodeshElul1,
        21 => Chol::RoshChodeshElul2,
        22 => Chol::RoshChodeshKislev1,
        23 => Chol::RoshChodeshKislev2,
        24 => Chol::RoshChodeshKislev,
        25 => Chol::RoshChodeshTeves1,
        26 => Chol::RoshChodeshTeves2,
        27 => Chol::RoshChodeshTeves,
        28 => Chol::RoshChodeshAdar1,
        29 => Chol::RoshChodeshAdar2,
        30 => Chol::TaanisEsther,
        31 => Chol::Purim,
        32 => Chol::ShushanPurim,
        33 => Chol::RoshChodeshAdarRishon1,
        34 => Chol::RoshChodeshAdarRishon2,
        35 => Chol::RoshChodeshAdarSheni1,
        36 => Chol::RoshChodeshAdarSheni2,
        37 => Chol::SeventeenTammuz,
        _ => Chol::NineAv,
    }
}

/// The `Parsha` variant the calendar crate reports under code `c` (the
/// index of the variant in its catalog); codes past the catalog clamp
/// to the last variant.
#[verifier::opaque]
pub open spec fn spec_parsha_of(c: int) -> Parsha {
    if c == 0 { Parsha::Vayelech }
    else    if c == 1 { Parsha::Haazinu }
    else    if c == 2 { Parsha::Bereishis }
    else    if c == 3 { Parsha::Noach }
    else    if c == 4 { Parsha::LechLecha }
    else    if c == 5 { Parsha::Vayeira }
    else    if c == 6 { Parsha::ChayeiSara }
    else    if c == 7 { Parsha::Toldos }
    else    if c == 8 { Parsha::Vayetzei }
    else    if c == 9 { Parsha::Vayishlach }
    else    if c == 10 { Parsha::Vayeshev }
    else    if c == 11 { Parsha::Miketz }
    else    if c == 12 { Parsha::Vayigash }
    else    if c == 13 { Parsha::Vayechi }
    else    if c == 14 { Parsha::Shemos }
    else    if c == 15 { Parsha::Vaeira }
    else    if c == 16 { Parsha::Bo }
    else    if c == 17 { Parsha::Beshalach }
    else    if c == 18 { Parsha::Yisro }
    else    if c == 19 { Parsha::Mishpatim }
    else    if c == 20 { Parsha::Terumah }
    else    if c == 21 { Parsha::Tetzaveh }
    else    if c == 22 { Parsha::KiSisa }
    else    if c == 23 { Parsha::VayakhelPikudei }
    else    if c == 24 { Parsha::Vayakhel }
    else    if c == 25 { Parsha::Pikudei }
    else    if c == 26 { Parsha::Vayikra }
    else    if c == 27 { Parsha::Tzav }
    else    if c == 28 { Parsha::Shemini }
    else    if c == 29 { Parsha::TazriyaMetzorah }
    else    if c == 30 { Parsha::Tazriya }
    else    if c == 31 { Parsha::Metzorah }
    else    if c == 32 { Parsha::AchareiMosKedoshim }
    else    if c == 33 { Parsha::AchareiMos }
    else    if c == 34 { Parsha::Kedoshim }
    else    if c == 35 { Parsha::Emor }
    else    if c == 36 { Parsha::BeharBechukosai }
    else    if c == 37 { Parsha::Behar }
    else    if c == 38 { Parsha::Bechukosai }
    else    if c == 39 { Parsha::Bamidbar }
    else    if c == 40 { Parsha::Naso }
    else    if c == 41 { Parsha::Behaaloscha }
    else    if c == 42 { Parsha::Shlach }
    else    if c == 43 { Parsha::Korach }
    else    if c == 44 { Parsha::ChukasBalak }
    else    if c == 45 { Parsha::Chukas }
    else    if c == 46 { Parsha::Balak }
    else    if c == 47 { Parsha::Pinchas }
    else    if c == 48 { Parsha::MatosMaasei }
    else    if c == 49 { Parsha::Matos }
    else    if c == 50 { Parsha::Maasei }
    else    if c == 51 { Parsha::Devarim }
    else    if c == 52 { Parsha::Vaeschanan }
    else    if c == 53 { Parsha::Eikev }
    else    if c == 54 { Parsha::Reeh }
    else    if c == 55 { Parsha::Shoftim }
    else    if c == 56 { Parsha::KiSeitzei }
    else    if c == 57 { Parsha::KiSavoh }
    else    if c == 58 { Parsha::NitzavimVayelech }
    else { Parsha::Nitzavim }
}

/// Executable form of `spec_parsha_of`.
pub fn parsha_of(c: u8) -> (r: Parsha)
    ensures
        r == spec_parsha_of(c as int),
{
    proof {
        reveal(spec_parsha_of);
    }
    match c {
        0 => Parsha::Vayelech,
        1 => Parsha::Haazinu,
        2 => Parsha::Bereishis,
        3 => Parsha::Noach,
        4 => Parsha::LechLecha,
        5 => Parsha::Vayeira,
        6 => Parsha::ChayeiSara,
        7 => Parsha::Toldos,
        8 => Parsha::Vayetzei,
        9 => Parsha::Vayishlach,
        10 => Parsha::Vayeshev,
        11 => Parsha::Miketz,
        12 => Parsha::Vayigash,
        13 => Parsha::Vayechi,
        14 => Parsha::Shemos,
        15 => Parsha::Vaeira,
        16 => Parsha::Bo,
        17 => Parsha::Beshalach,
        18 => Parsha::Yisro,
        19 => Parsha::Mishpatim,
        20 => Parsha::Terumah,
        21 => Parsha::Tetzaveh,
        22 => Parsha::KiSisa,
        23 => Parsha::VayakhelPikudei,
        24 => Parsha::Vayakhel,
        25 => Parsha::Pikudei,
        26 => Parsha::Vayikra,
        27 => Parsha::Tzav,
        28 => Parsha::Shemini,
        29 => Parsha::TazriyaMetzorah,
        30 => Parsha::Tazriya,
        31 => Parsha::Metzorah,
        32 => Parsha::AchareiMosKedoshim,
        33 => Parsha::AchareiMos,
        34 => Parsha::Kedoshim,
        35 => Parsha::Emor,
        36 => Parsha::BeharBechukosai,
        37 => Parsha::Behar,
        38 => Parsha::Bechukosai,
        39 => Parsha::Bamidbar,
        40 => Parsha::Naso,
        41 => Parsha::Behaaloscha,
        42 => Parsha::Shlach,
        43 => Parsha::Korach,
        44 => Parsha::ChukasBalak,
        45 => Parsha::Chukas,
        46 => Parsha::Balak,
        47 => Parsha::Pinchas,
        48 => Parsha::MatosMaasei,
        49 => Parsha::Matos,
        50 => Parsha::Maasei,
        51 => Parsha::Devarim,
        52 => Parsha::Vaeschanan,
        53 => Parsha::Eikev,
        54 => Parsha::Reeh,
        55 => Parsha::Shoftim,
        56 => Parsha::KiSeitzei,
        57 => Parsha::KiSavoh,
        58 => Parsha::NitzavimVayelech,
        _ => Parsha::Nitzavim,
    }
}

/// The `SpecialParsha` variant the calendar crate reports under code `c` (the
/// index of the variant in its catalog); codes past the catalog clamp
/// to the last variant.
#[verifier::opaque]
pub open spec fn spec_special_of(c: int) -> SpecialParsha {
    if c == 0 { SpecialParsha::Shekalim }
    else    if c == 1 { SpecialParsha::Zachor }
    else    if c == 2 { SpecialParsha::Parah }
    else { SpecialParsha::HaChodesh }
}

/// Executable form of `spec_special_of`.
pub fn special_of(c: u8) -> (r: SpecialParsha)
    ensures
        r == spec_special_of(c as int),
{
    proof {
        reveal(spec_special_of);
    }
    match c {
        0 => SpecialParsha::Shekalim,
        1 => SpecialParsha::Zachor,
        2 => SpecialParsha::Parah,
        _ => SpecialParsha::HaChodesh,
    }
}

/// Which reading a (category, code) pair of the calendar denotes.
pub open spec fn spec_reading_of(cat: int, code: int) -> TorahReading {
    if cat == 0 {
        TorahReading::YomTov(spec_yomtov_of(code))
    } else if cat == 1 {
        TorahReading::Chol(spec_chol_of(code))
    } else if cat == 2 {
        TorahReading::Shabbos(spec_parsha_of(code))
    } else {
        TorahReading::SpecialParsha(spec_special_of(code))
    }
}

/// Executable form of `spec_reading_of`.
pub fn reading_of(cat: u8, code: u8) -> (r: TorahReading)
    ensures
        r == spec_reading_of(cat as int, code as int),
{
    if cat == 0 {
        TorahReading::YomTov(yomtov_of(code))
    } else if cat == 1 {
        TorahReading::Chol(chol_of(code))
    } else if cat == 2 {
        TorahReading::Shabbos(parsha_of(code))
    } else {
        TorahReading::SpecialParsha(special_of(code))
    }
}

/// The candle-lighting classification of a reading whose instant falls on
/// weekday `wd`:
/// - the eve of Shabbos: every weekly portion, and any reading on a
///   Friday;
/// - the eve of Yom Tov: the second day of Rosh Hashanah always; the
///   other first-day holidays, which light on time unless the eve is a
///   Shabbos (the flame then carries over); and the Diaspora-only second
///   days;
/// - on an eve, the time is known only when a city is configured, a
///   sunset was available and lighting is on time: the configured number
///   of minutes before sunset, less one;
/// - anything else is no eve at all.
pub open spec fn spec_candle(
    tr: TorahReading,
    wd: int,
    loc: Location,
    city: Option<City>,
    sunset: Option<i64>,
) -> CandleLighting {
    let is_shabbos = (tr is Shabbos) || wd == 5;
    let is_yom_tov = match tr {
        TorahReading::YomTov(v) => match v {
            YomTov::RoshHashanah2 => true,
            YomTov::RoshHashanah1
            | YomTov::YomKippur
            | YomTov::Sukkos1
            | YomTov::ShminiAtzeres
            | YomTov::Pesach1
            | YomTov::Pesach7
            | YomTov::Shavuos1 => true,
            YomTov::Sukkos2
            | YomTov::SimchasTorah
            | YomTov::Pesach2
            | YomTov::Pesach8
            | YomTov::Shavuos2 => loc == Location::Diaspora,
            _ => false,
        },
        _ => false,
    };
    let light_on_time = match tr {
        TorahReading::YomTov(v) => match v {
            YomTov::RoshHashanah1
            | YomTov::YomKippur
            | YomTov::Sukkos1
            | YomTov::ShminiAtzeres
            | YomTov::Pesach1
            | YomTov::Pesach7
            | YomTov::Shavuos1 => wd != 6,
            _ => true,
        },
        _ => true,
    };
    if is_shabbos || is_yom_tov {
        match (city, sunset) {
            (Some(c), Some(s)) => if light_on_time {
                CandleLighting::ApplicableKnown(
                    (s - (c.candle_offset_minutes - 1) * 60) as i64,
                )
            } else {
                CandleLighting::ApplicableUnknown
            },
            _ => CandleLighting::ApplicableUnknown,
        }
    } else {
        CandleLighting::NotApplicable
    }
}

/// Executable form of `spec_candle`, usable both at generation time
/// (without a sunset source) and to re-classify an event once a sunset
/// lookup result is at hand.
pub fn classify_candle(
    tr: TorahReading,
    instant: i64,
    loc: Location,
    city: Option<City>,
    sunset: Option<i64>,
) -> (r: CandleLighting)
    requires
        TS_MIN <= instant <= TS_MAX,
        sunset matches Some(s) ==> TS_MIN <= s <= TS_MAX,
    ensures
        r == spec_candle(tr, spec_weekday(instant as int), loc, city, sunset),
{
    let wd = weekday(instant);
    let is_shabbos = matches!(tr, TorahReading::Shabbos(_)) || wd == 5;
    let is_yom_tov = match tr {
        TorahReading::YomTov(v) => match v {
            YomTov::RoshHashanah2 => true,
            YomTov::RoshHashanah1
            | YomTov::YomKippur
            | YomTov::Sukkos1
            | YomTov::ShminiAtzeres
            | YomTov::Pesach1
            | YomTov::Pesach7
            | YomTov::Shavuos1 => true,
            YomTov::Sukkos2
            | YomTov::SimchasTorah
            | YomTov::Pesach2
            | YomTov::Pesach8
            | YomTov::Shavuos2 => loc == Location::Diaspora,
            _ => false,
        },
        _ => false,
    };
    let light_on_time = match tr {
        TorahReading::YomTov(v) => match v {
            YomTov::RoshHashanah1
            | YomTov::YomKippur
            | YomTov::Sukkos1
            | YomTov::ShminiAtzeres
            | YomTov::Pesach1
            | YomTov::Pesach7
            | YomTov::Shavuos1 => wd != 6,
            _ => true,
        },
        _ => true,
    };
    if is_shabbos || is_yom_tov {
        match (city, sunset) {
            (Some(c), Some(s)) => if light_on_time {
                CandleLighting::ApplicableKnown(s - (c.candle_offset_minutes as i64 - 1) * 60)
            } else {
                CandleLighting::ApplicableUnknown
            },
            _ => CandleLighting::ApplicableUnknown,
        }
    } else {
        CandleLighting::NotApplicable
    }
}

/// The event of one reading as reported by the calendar: its instant, the
/// decoded label, and the candle classification at generation time (no
/// sunset source is consulted while generating, so an eve's time is
/// unknown).
pub open spec fn spec_reading_event(
    cat: int,
    code: int,
    ts: i64,
    loc: Location,
    city: Option<City>,
) -> Event {
    let tr = spec_reading_of(cat, code);
    Event {
        instant: ts,
        name: Name::TorahReading(tr),
        candle_lighting: spec_candle(tr, spec_weekday(ts as int), loc, city, None),
    }
}

/// All reading events of one category in one year.
pub open spec fn spec_readings(year: int, cat: int, loc: Location, city: Option<City>) -> Seq<
    Event,
> {
    spec_holidays(year, loc == Location::Israel, cat).map_values(
        |h: (u8, u8, i64)| spec_reading_event(cat, h.1 as int, h.2, loc, city),
    )
}

/// Expands one reading category of one year into events.
pub fn expand_readings(year: u64, cat: u8, loc: Location, city: Option<City>) -> (r: Vec<Event>)
    requires
        MIN_YEAR <= year <= MAX_WRAPPER_YEAR,
        cat < 4,
    ensures
        r@ == spec_readings(year as int, cat as int, loc, city),
        events_in_range(r@),
{
    let raw = fetch_holidays(year, matches!(loc, Location::Israel), cat);
    let ghost f = |h: (u8, u8, i64)| spec_reading_event(cat as int, h.1 as int, h.2, loc, city);
    let mut acc: Vec<Event> = Vec::new();
    let mut i: usize = 0;
    while i < raw.len()
        invariant
            i <= raw@.len(),
            raw@ == spec_holidays(year as int, loc == Location::Israel, cat as int),
            forall|j: int| 0 <= j < raw@.len() ==> {
                &&& TS_MIN <= (#[trigger] raw@[j]).2 <= TS_MAX
                &&& raw@[j].0 == cat
            },
            f == (|h: (u8, u8, i64)| spec_reading_event(cat as int, h.1 as int, h.2, loc, city)),
            acc@.len() == i,
            forall|j: int| 0 <= j < i ==> acc@[j] == f(#[trigger] raw@[j]),
            events_in_range(acc@),
        decreases raw@.len() - i,
    {
        let (c0, c1, ts) = raw[i];
        let tr = reading_of(cat, c1);
        let candle = classify_candle(tr, ts, loc, city, None);
        acc.push(Event { instant: ts, name: Name::TorahReading(tr), candle_lighting: candle });
        i = i + 1;
    }
    proof {
        assert(acc@ =~= raw@.map_values(f));
    }
    acc
}

/// The k-th Omer-count event for a year whose first day of Pesach begins
/// at `pesach`: the evening `k` days later, carrying no candle lighting.
pub open spec fn spec_omer_event(pesach: int, k: int) -> Event {
    Event {
        instant: (pesach + 86400 * k) as i64,
        name: Name::MinorHoliday(MinorHoliday::Omer(k as u8)),
        candle_lighting: CandleLighting::NotApplicable,
    }
}

/// The 49 Omer-count events that follow the first day of Pesach.
pub open spec fn spec_omer_seq(pesach: int) -> Seq<Event> {
    Seq::new(49, |k: int| spec_omer_event(pesach, k + 1))
}

/// Builds the 49 Omer-count entries from the instant of the first day of
/// Pesach: one per day, starting the day after, in ascending date order.
pub fn omer_events(pesach: i64) -> (r: Vec<Event>)
    requires
        TS_MIN <= pesach <= TS_MAX,
    ensures
        r@ == spec_omer_seq(pesach as int),
        r@.len() == 49,
        events_in_range(r@),
{
    let mut acc: Vec<Event> = Vec::new();
    let mut k: u8 = 1;
    while k <= 49
        invariant
            1 <= k <= 50,
            TS_MIN <= pesach <= TS_MAX,
            acc@.len() == k - 1,
            forall|j: int| 0 <= j < k - 1 ==> acc@[j] == spec_omer_event(pesach as int, j + 1),
            events_in_range(acc@),
        decreases 50 - k,
    {
        acc.push(Event {
            instant: pesach + 86400 * (k as i64),
            name: Name::MinorHoliday(MinorHoliday::Omer(k)),
            candle_lighting: CandleLighting::NotApplicable,
        });
        k = k + 1;
    }
    proof {
        assert(acc@ =~= spec_omer_seq(pesach as int));
    }
    acc
}

/// The Omer-count events of a year: 49 entries when the 15th of Nissan
/// resolves (it does in every supported year), nothing otherwise.
pub fn get_omer(year: u64) -> (r: Option<Vec<Event>>)
    requires
        MIN_YEAR <= year <= MAX_WRAPPER_YEAR,
    ensures
        r is Some <==> spec_date_exists(year as int, 8, 15),
        r matches Some(v) ==> v@ == spec_omer_seq(spec_hebrew_ts(year as int, 8, 15))
            && events_in_range(v@),
{
    match hebrew_to_civil(year, 8, 15) {
        Some(pesach) => Some(omer_events(pesach)),
        None => None,
    }
}

/// The catalog of calendar-fixed minor observances: each a Hebrew
/// (month code, day) with its identifier; the two Purim Kattan days exist
/// only in leap years.
pub open spec fn spec_minor_catalog(leap: bool) -> Seq<(u8, u8, MinorHoliday)> {
    let base = seq![
        (0u8, 9u8, MinorHoliday::ErevYomKippur),
        (0u8, 14u8, MinorHoliday::ErevSukkos),
        (8u8, 14u8, MinorHoliday::ErevPesach),
        (9u8, 14u8, MinorHoliday::PesachSheni),
        (9u8, 18u8, MinorHoliday::LagBaomer),
        (10u8, 5u8, MinorHoliday::ErevShavuos),
        (13u8, 29u8, MinorHoliday::ErevRoshHashanah),
        (4u8, 15u8, MinorHoliday::FifteenthOfShvat),
        (12u8, 15u8, MinorHoliday::FifteenthOfAv),
    ];
    if leap {
        base + seq![
            (6u8, 14u8, MinorHoliday::PurimKattan),
            (6u8, 15u8, MinorHoliday::ShushanPurimKattan),
        ]
    } else {
        base
    }
}

/// The events of a minor-observance catalog in a year: one per entry
/// whose date exists in that year, in catalog order.
pub open spec fn spec_minor_events(year: int, cat: Seq<(u8, u8, MinorHoliday)>) -> Seq<Event>
    decreases cat.len(),
{
    if cat.len() == 0 {
        Seq::empty()
    } else {
        let head = if spec_date_exists(year, cat[0].0 as int, cat[0].1 as int) {
            seq![
                Event {
                    instant: spec_hebrew_ts(year, cat[0].0 as int, cat[0].1 as int) as i64,
                    name: Name::MinorHoliday(cat[0].2),
                    candle_lighting: CandleLighting::NotApplicable,
                },
            ]
        } else {
            Seq::empty()
        };
        head + spec_minor_events(year, cat.drop_first())
    }
}

/// Expands the fixed minor observances of a year, the Purim Kattan days
/// only in leap years; a date the year does not contain is an expected,
/// handled case and simply yields no event.
pub fn get_minor_holidays(year: u64) -> (r: Vec<Event>)
    requires
        MIN_YEAR <= year <= MAX_WRAPPER_YEAR,
    ensures
        r@ == spec_minor_events(
            year as int,
            spec_minor_catalog(spec_is_leap(year as int)),
        ),
        events_in_range(r@),
{
    let leap = is_leap_year(year);
    let mut cat: Vec<(u8, u8, MinorHoliday)> = vec![
        (0u8, 9u8, MinorHoliday::ErevYomKippur),
        (0u8, 14u8, MinorHoliday::ErevSukkos),
        (8u8, 14u8, MinorHoliday::ErevPesach),
        (9u8, 14u8, MinorHoliday::PesachSheni),
        (9u8, 18u8, MinorHoliday::LagBaomer),
        (10u8, 5u8, MinorHoliday::ErevShavuos),
        (13u8, 29u8, MinorHoliday::ErevRoshHashanah),
        (4u8, 15u8, MinorHoliday::FifteenthOfShvat),
        (12u8, 15u8, MinorHoliday::FifteenthOfAv),
    ];
    if leap {
        cat.push((6u8, 14u8, MinorHoliday::PurimKattan));
        cat.push((6u8, 15u8, MinorHoliday::ShushanPurimKattan));
    }
    proof {
        assert(cat@ =~= spec_minor_catalog(spec_is_leap(year as int)));
    }
    let ghost whole = cat@;
    let mut acc: Vec<Event> = Vec::new();
    let mut i: usize = 0;
    proof {
        assert(whole.skip(0) =~= whole);
    }
    while i < cat.len()
        invariant
            i <= cat@.len(),
            cat@ == whole,
            MIN_YEAR <= year <= MAX_WRAPPER_YEAR,
            forall|j: int| 0 <= j < whole.len() ==> {
                &&& (#[trigger] whole[j]).0 < 14
                &&& 1 <= whole[j].1 <= 30
            },
            spec_minor_events(year as int, whole) == acc@ + spec_minor_events(
                year as int,
                whole.skip(i as int),
            ),
            events_in_range(acc@),
        decreases cat@.len() - i,
    {
        let (m, d, id) = cat[i];
        proof {
            assert(whole.skip(i as int)[0] == whole[i as int]);
            assert(whole.skip(i as int).drop_first() =~= whole.skip(i as int + 1));
        }
        let ghost pre = acc@;
        match hebrew_to_civil(year, m, d) {
            Some(ts) => {
                acc.push(Event {
                    instant: ts,
                    name: Name::MinorHoliday(id),
                    candle_lighting: CandleLighting::NotApplicable,
                });
            },
            None => {},
        }
        proof {
            assert(spec_minor_events(year as int, whole) =~= acc@ + spec_minor_events(
                year as int,
                whole.skip(i as int + 1),
            ));
        }
        i = i + 1;
    }
    proof {
        assert(whole.skip(whole.len() as int) =~= Seq::<(u8, u8, MinorHoliday)>::empty());
        assert(acc@ =~= spec_minor_events(year as int, whole));
    }
    acc
}

/// Whether a (month, day) pair is within the range any Hebrew month can
/// hold; resolution treats anything else as a date that never exists.
pub open spec fn spec_md_plausible(md: crate::types::MonthDay) -> bool {
    1 <= md.day <= 30
}

/// The custom-holiday event of one definition at one resolved instant.
pub open spec fn spec_custom_event(ts: int, def: CustomHolidayDef) -> Event {
    Event {
        instant: ts as i64,
        name: Name::CustomHoliday { printable: def.printable, json: def.json },
        candle_lighting: CandleLighting::NotApplicable,
    }
}

/// The events of a definition's fallback list in a year: one per fallback
/// date that exists, in the definition's order.
pub open spec fn spec_fallback_events(
    year: int,
    fbs: Seq<crate::types::MonthDay>,
    def: CustomHolidayDef,
) -> Seq<Event>
    decreases fbs.len(),
{
    if fbs.len() == 0 {
        Seq::empty()
    } else {
        let md = fbs[0];
        let head = if spec_md_plausible(md) && spec_date_exists(
            year,
            md.month.spec_code() as int,
            md.day as int,
        ) {
            seq![spec_custom_event(spec_hebrew_ts(year, md.month.spec_code() as int, md.day as int), def)]
        } else {
            Seq::empty()
        };
        head + spec_fallback_events(year, fbs.drop_first(), def)
    }
}

/// The events of one custom-holiday definition in a year: its primary
/// date when that exists; otherwise every fallback that resolves, each
/// yielding its own event.
pub open spec fn spec_custom_events(year: int, def: CustomHolidayDef) -> Seq<Event> {
    let md = def.date;
    if spec_md_plausible(md) && spec_date_exists(
        year,
        md.month.spec_code() as int,
        md.day as int,
    ) {
        seq![spec_custom_event(spec_hebrew_ts(year, md.month.spec_code() as int, md.day as int), def)]
    } else {
        spec_fallback_events(year, def.fallbacks@, def)
    }
}

/// Resolves one custom-holiday definition against a year.
pub fn resolve_custom(year: u64, def: &CustomHolidayDef) -> (r: Vec<Event>)
    requires
        MIN_YEAR <= year <= MAX_WRAPPER_YEAR,
    ensures
        r@ == spec_custom_events(year as int, *def),
        events_in_range(r@),
{
    let mut acc: Vec<Event> = Vec::new();
    if def.date.day >= 1 && def.date.day <= 30 {
        match hebrew_to_civil(year, def.date.month.code(), def.date.day) {
            Some(ts) => {
                acc.push(Event {
                    instant: ts,
                    name: Name::CustomHoliday {
                        printable: def.printable.clone(),
                        json: def.json.clone(),
                    },
                    candle_lighting: CandleLighting::NotApplicable,
                });
                proof {
                    assert(acc@ =~= spec_custom_events(year as int, *def));
                }
                return acc;
            },
            None => {},
        }
    }
    let ghost whole = def.fallbacks@;
    let mut i: usize = 0;
    proof {
        assert(whole.skip(0) =~= whole);
    }
    while i < def.fallbacks.len()
        invariant
            i <= whole.len(),
            def.fallbacks@ == whole,
            MIN_YEAR <= year <= MAX_WRAPPER_YEAR,
            spec_fallback_events(year as int, whole, *def) == acc@ + spec_fallback_events(
                year as int,
                whole.skip(i as int),
                *def,
            ),
            events_in_range(acc@),
        decreases whole.len() - i,
    {
        let md = def.fallbacks[i];
        proof {
            assert(whole.skip(i as int)[0] == whole[i as int]);
            assert(whole.skip(i as int).drop_first() =~= whole.skip(i as int + 1));
        }
        if md.day >= 1 && md.day <= 30 {
            match hebrew_to_civil(year, md.month.code(), md.day) {
                Some(ts) => {
                    acc.push(Event {
                        instant: ts,
                        name: Name::CustomHoliday {
                            printable: def.printable.clone(),
                            json: def.json.clone(),
                        },
                        candle_lighting: CandleLighting::NotApplicable,
                    });
                },
                None => {},
            }
        }
        proof {
            assert(spec_fallback_events(year as int, whole, *def) =~= acc@
                + spec_fallback_events(year as int, whole.skip(i as int + 1), *def));
        }
        i = i + 1;
    }
    proof {
        assert(whole.skip(whole.len() as int) =~= Seq::<crate::types::MonthDay>::empty());
        assert(acc@ =~= spec_fallback_events(year as int, whole, *def));
        assert(acc@ =~= spec_custom_events(year as int, *def));
    }
    acc
}

/// Whether the Hebrew day beginning at a reading's instant is a Shabbos
/// on which the coming month is blessed: one of the last seven days of
/// its month (the week before Rosh Chodesh), in any month but Elul (the
/// month before Rosh Hashanah is not blessed), for instants the civil
/// conversion accepts.
pub open spec fn spec_is_mevarchim(ts: int) -> bool {
    let h = spec_civil_hebrew(ts);
    ts >= -62_049_391_200 && h.1 != 13 && 23 <= h.2 <= 29
}

/// The Shabbos-Mevarchim events among a year's weekly readings: one per
/// weekly portion whose Hebrew date is a blessing Shabbos, in reading
/// order.
pub open spec fn spec_mevarchim_events(readings: Seq<(u8, u8, i64)>) -> Seq<Event>
    decreases readings.len(),
{
    if readings.len() == 0 {
        Seq::empty()
    } else {
        (if spec_is_mevarchim(readings[0].2 as int) {
            seq![
                Event {
                    instant: readings[0].2,
                    name: Name::ShabbosMevarchim,
                    candle_lighting: CandleLighting::NotApplicable,
                },
            ]
        } else {
            Seq::empty()
        }) + spec_mevarchim_events(readings.drop_first())
    }
}

/// Expands the Shabbos-Mevarchim observances of a year from its weekly
/// readings.
pub fn get_shabbos_mevarchim(year: u64, loc: Location) -> (r: Vec<Event>)
    requires
        MIN_YEAR <= year <= MAX_WRAPPER_YEAR,
    ensures
        r@ == spec_mevarchim_events(spec_holidays(year as int, loc == Location::Israel, 2)),
        events_in_range(r@),
{
    let raw = fetch_holidays(year, matches!(loc, Location::Israel), 2);
    let ghost whole = raw@;
    let mut acc: Vec<Event> = Vec::new();
    let mut i: usize = 0;
    proof {
        assert(whole.skip(0) =~= whole);
    }
    while i < raw.len()
        invariant
            i <= whole.len(),
            raw@ == whole,
            forall|j: int| 0 <= j < whole.len() ==> TS_MIN <= (#[trigger] whole[j]).2 <= TS_MAX,
            spec_mevarchim_events(whole) == acc@ + spec_mevarchim_events(whole.skip(i as int)),
            events_in_range(acc@),
        decreases whole.len() - i,
    {
        proof {
            assert(whole.skip(i as int)[0] == whole[i as int]);
            assert(whole.skip(i as int).drop_first() =~= whole.skip(i as int + 1));
        }
        let ts = raw[i].2;
        match civil_to_hebrew(ts) {
            Some(h) => {
                if h.1 != 13 && h.2 >= 23 && h.2 <= 29 {
                    acc.push(Event {
                        instant: ts,
                        name: Name::ShabbosMevarchim,
                        candle_lighting: CandleLighting::NotApplicable,
                    });
                }
            },
            None => {},
        }
        proof {
            assert(spec_mevarchim_events(whole) =~= acc@ + spec_mevarchim_events(
                whole.skip(i as int + 1),
            ));
        }
        i = i + 1;
    }
    proof {
        assert(whole.skip(whole.len() as int) =~= Seq::<(u8, u8, i64)>::empty());
        assert(acc@ =~= spec_mevarchim_events(whole));
    }
    acc
}

/// The events of every custom-holiday definition in a year, in
/// definition order.
pub open spec fn spec_all_customs(year: int, defs: Seq<CustomHolidayDef>) -> Seq<Event>
    decreases defs.len(),
{
    if defs.len() == 0 {
        Seq::empty()
    } else {
        spec_custom_events(year, defs[0]) + spec_all_customs(year, defs.drop_first())
    }
}

/// Every event of one Hebrew year under a configuration: the subscribed
/// reading categories in the calendar's category order, then the Omer
/// count, the minor observances and the custom holidays.
#[verifier::opaque]
pub open spec fn spec_expand_year(year: int, cfg: SelectionConfig) -> Seq<Event> {
    let e = Seq::<Event>::empty();
    (if cfg.yom_tov { spec_readings(year, 0, cfg.location, cfg.city) } else { e })
    + (if cfg.chol { spec_readings(year, 1, cfg.location, cfg.city) } else { e })
    + (if cfg.shabbos { spec_readings(year, 2, cfg.location, cfg.city) } else { e })
    + (if cfg.special_parsha { spec_readings(year, 3, cfg.location, cfg.city) } else { e })
    + (if cfg.omer && spec_date_exists(year, 8, 15) {
        spec_omer_seq(spec_hebrew_ts(year, 8, 15))
    } else { e })
    + (if cfg.minor { spec_minor_events(year, spec_minor_catalog(spec_is_leap(year))) } else { e })
    + (if cfg.shabbos_mevarchim {
        spec_mevarchim_events(spec_holidays(year, cfg.location == Location::Israel, 2))
    } else { e })
    + spec_all_customs(year, cfg.custom@)
}

/// Expands one Hebrew year into its unordered event list.  The Israeli
/// and Chabad observance catalogs are not available from the calendar
/// crate this library is built on, so those two toggles contribute no
/// events.
#[verifier::rlimit(100)]
pub fn expand_year(year: u64, cfg: &SelectionConfig) -> (r: Vec<Event>)
    requires
        MIN_YEAR <= year <= MAX_WRAPPER_YEAR,
    ensures
        r@ == spec_expand_year(year as int, *cfg),
        events_in_range(r@),
{
    let mut acc: Vec<Event> = Vec::new();
    if cfg.yom_tov {
        let ghost pre = acc@;
        let mut part = expand_readings(year, 0, cfg.location, cfg.city);
        proof {
            crate::calendar::lemma_events_in_range_concat(pre, part@);
        }
        acc.append(&mut part);
    }
    if cfg.chol {
        let ghost pre = acc@;
        let mut part = expand_readings(year, 1, cfg.location, cfg.city);
        proof {
            crate::calendar::lemma_events_in_range_concat(pre, part@);
        }
        acc.append(&mut part);
    }
    if cfg.shabbos {
        let ghost pre = acc@;
        let mut part = expand_readings(year, 2, cfg.location, cfg.city);
        proof {
            crate::calendar::lemma_events_in_range_concat(pre, part@);
        }
        acc.append(&mut part);
    }
    if cfg.special_parsha {
        let ghost pre = acc@;
        let mut part = expand_readings(year, 3, cfg.location, cfg.city);
        proof {
            crate::calendar::lemma_events_in_range_concat(pre, part@);
        }
        acc.append(&mut part);
    }
    if cfg.omer {
        match get_omer(year) {
            Some(mut part) => {
                let ghost pre = acc@;
                proof {
                    crate::calendar::lemma_events_in_range_concat(pre, part@);
                }
                acc.append(&mut part);
            },
            None => {},
        }
    }
    if cfg.minor {
        let ghost pre = acc@;
        let mut part = get_minor_holidays(year);
        proof {
            crate::calendar::lemma_events_in_range_concat(pre, part@);
        }
        acc.append(&mut part);
    }
    if cfg.shabbos_mevarchim {
        let ghost pre = acc@;
        let mut part = get_shabbos_mevarchim(year, cfg.location);
        proof {
            crate::calendar::lemma_events_in_range_concat(pre, part@);
        }
        acc.append(&mut part);
    }
    let ghost whole = cfg.custom@;
    let mut cust: Vec<Event> = Vec::new();
    let mut i: usize = 0;
    proof {
        assert(whole.skip(0) =~= whole);
    }
    while i < cfg.custom.len()
        invariant
            i <= whole.len(),
            cfg.custom@ == whole,
            MIN_YEAR <= year <= MAX_WRAPPER_YEAR,
            spec_all_customs(year as int, whole) == cust@ + spec_all_customs(
                year as int,
                whole.skip(i as int),
            ),
            events_in_range(cust@),
        decreases whole.len() - i,
    {
        proof {
            assert(whole.skip(i as int)[0] == whole[i as int]);
            assert(whole.skip(i as int).drop_first() =~= whole.skip(i as int + 1));
        }
        let ghost pre = cust@;
        let mut part = resolve_custom(year, &cfg.custom[i]);
        proof {
            crate::calendar::lemma_events_in_range_concat(pre, part@);
        }
        cust.append(&mut part);
        proof {
            assert(spec_all_customs(year as int, whole) =~= cust@ + spec_all_customs(
                year as int,
                whole.skip(i as int + 1),
            ));
        }
        i = i + 1;
    }
    proof {
        assert(whole.skip(whole.len() as int) =~= Seq::<CustomHolidayDef>::empty());
        assert(spec_all_customs(year as int, whole.skip(whole.len() as int))
            =~= Seq::<Event>::empty());
        assert(cust@ =~= spec_all_customs(year as int, whole));
        crate::calendar::lemma_events_in_range_concat(acc@, cust@);
    }
    acc.append(&mut cust);
    proof {
        reveal(spec_expand_year);
        assert(acc@ =~= spec_expand_year(year as int, *cfg));
    }
    acc
}

} // verus!
