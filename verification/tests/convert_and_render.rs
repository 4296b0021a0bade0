use chrono::TimeZone;

use hebcal_events::convert::{convert_gregorian, convert_hebrew};
use hebcal_events::expand::classify_candle;
use hebcal_events::render::{minor_json, omer_label, ordinal_suffix, render_line, u64_string};
use hebcal_events::types::{
    CandleLighting, City, Event, Language, Location, MinorHoliday, Name, Month, Parsha,
    TorahReading, YomTov,
};

fn ts(y: i32, m: u32, d: u32, h: u32) -> i64 {
    chrono::Utc
        .with_ymd_and_hms(y, m, d, h, 0, 0)
        .unwrap()
        .timestamp()
}

#[test]
fn gregorian_day_spans_two_hebrew_dates() {
    // September 10, 2018 began in Tishrei 1, 5779 and ended in Tishrei 2.
    let (a, b) = convert_gregorian(2018, 9, 10).unwrap();
    assert_eq!(a, (5779, 0, 1));
    assert_eq!(b, (5779, 0, 2));
}

#[test]
fn gregorian_invalid_date_is_refused() {
    assert!(convert_gregorian(2018, 2, 30).is_none());
    assert!(convert_gregorian(2018, 13, 1).is_none());
}

#[test]
fn hebrew_date_spans_two_civil_evenings() {
    // Yom Kippur 5779 started at sunset of September 18, 2018.
    let (a, b) = convert_hebrew(5779, Month::Tishrei, 10).unwrap();
    assert_eq!(a, ts(2018, 9, 18, 18));
    assert_eq!(b, ts(2018, 9, 19, 18));
}

#[test]
fn hebrew_nonexistent_date_is_refused() {
    // 5778 is not a leap year: it has no Adar 1.
    assert!(convert_hebrew(5778, Month::Adar1, 10).is_none());
    // No month has a 30th day in every year; Elul never does.
    assert!(convert_hebrew(5779, Month::Elul, 30).is_none());
}

#[test]
fn decimal_and_ordinal_rendering() {
    assert_eq!(u64_string(0), "0");
    assert_eq!(u64_string(49), "49");
    assert_eq!(u64_string(180750), "180750");
    assert_eq!(ordinal_suffix(1), "st");
    assert_eq!(ordinal_suffix(2), "nd");
    assert_eq!(ordinal_suffix(3), "rd");
    assert_eq!(ordinal_suffix(4), "th");
    assert_eq!(ordinal_suffix(11), "th");
    assert_eq!(ordinal_suffix(12), "th");
    assert_eq!(ordinal_suffix(13), "th");
    assert_eq!(ordinal_suffix(21), "st");
    assert_eq!(omer_label(33), "33rd day of the Omer");
}

#[test]
fn minor_json_identifiers() {
    assert_eq!(minor_json(MinorHoliday::ErevYomKippur), "ErevYomKippur");
    assert_eq!(minor_json(MinorHoliday::FifteenthOfShvat), "Shvat15");
    assert_eq!(minor_json(MinorHoliday::Omer(7)), "Omer7");
}

#[test]
fn render_line_for_yom_kippur() {
    let e = Event {
        instant: ts(2018, 9, 18, 18),
        name: Name::TorahReading(TorahReading::YomTov(YomTov::YomKippur)),
        candle_lighting: CandleLighting::ApplicableUnknown,
    };
    assert_eq!(render_line(&e, Language::English), "Night of 2018/9/18: Yom Kippur");
}

#[test]
fn render_line_with_known_candle_time() {
    let e = Event {
        instant: ts(2018, 9, 18, 18),
        name: Name::TorahReading(TorahReading::YomTov(YomTov::YomKippur)),
        candle_lighting: CandleLighting::ApplicableKnown(ts(2018, 9, 18, 17) + 42 * 60),
    };
    assert_eq!(
        render_line(&e, Language::English),
        "Night of 2018/9/18: Yom Kippur, Candle lighting 17:42"
    );
}

#[test]
fn render_line_in_hebrew() {
    let e = Event {
        instant: ts(2018, 9, 18, 18),
        name: Name::TorahReading(TorahReading::YomTov(YomTov::YomKippur)),
        candle_lighting: CandleLighting::ApplicableUnknown,
    };
    let line = render_line(&e, Language::Hebrew);
    assert!(line.starts_with("לילה של 2018/9/18: "));
    assert!(line.ends_with("יום כיפור"));
}

#[test]
fn classification_follows_the_city_and_sunset() {
    let instant = ts(2018, 9, 18, 18);
    let sunset = ts(2018, 9, 18, 17) + 55 * 60;
    let city = City {
        candle_offset_minutes: 18,
    };
    // A weekly portion with a city and a sunset: lit 17 minutes early.
    let c = classify_candle(
        TorahReading::Shabbos(Parsha::Haazinu),
        instant,
        Location::Diaspora,
        Some(city),
        Some(sunset),
    );
    assert_eq!(c, CandleLighting::ApplicableKnown(sunset - 17 * 60));
    // Without a city the eve stays, but the time is unknown.
    let c = classify_candle(
        TorahReading::Shabbos(Parsha::Haazinu),
        instant,
        Location::Diaspora,
        None,
        Some(sunset),
    );
    assert_eq!(c, CandleLighting::ApplicableUnknown);
    // A plain weekday reading on a Tuesday evening is no eve at all.
    let c = classify_candle(
        TorahReading::YomTov(YomTov::Sukkos3),
        instant,
        Location::Diaspora,
        Some(city),
        Some(sunset),
    );
    assert_eq!(c, CandleLighting::NotApplicable);
    // A Diaspora-only second day is no eve in Israel.
    let c = classify_candle(
        TorahReading::YomTov(YomTov::Shavuos2),
        instant,
        Location::Israel,
        Some(city),
        Some(sunset),
    );
    assert_eq!(c, CandleLighting::NotApplicable);
}
