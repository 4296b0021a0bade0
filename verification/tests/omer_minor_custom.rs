use chrono::TimeZone;

use hebcal_events::expand::{get_minor_holidays, get_omer, resolve_custom};
use hebcal_events::render::event_label;
use hebcal_events::types::{
    CandleLighting, CustomHolidayDef, Language, MinorHoliday, Month, MonthDay, Name,
};

fn ts(y: i32, m: u32, d: u32, h: u32) -> i64 {
    chrono::Utc
        .with_ymd_and_hms(y, m, d, h, 0, 0)
        .unwrap()
        .timestamp()
}

#[test]
fn omer_has_49_consecutive_days() {
    let events = get_omer(5779).expect("the 15th of Nissan exists in every year");
    assert_eq!(events.len(), 49);
    // The first day of Pesach 5779 began at the evening of April 19,
    // 2019; the count starts the day after.
    let first = ts(2019, 4, 20, 18);
    for (k, e) in events.iter().enumerate() {
        assert_eq!(e.instant, first + (k as i64) * 86400);
        assert_eq!(e.candle_lighting, CandleLighting::NotApplicable);
        match e.name {
            Name::MinorHoliday(MinorHoliday::Omer(n)) => assert_eq!(n as usize, k + 1),
            _ => panic!("expected an Omer label"),
        }
    }
}

#[test]
fn omer_labels_are_ordinal() {
    let events = get_omer(5779).unwrap();
    let labels: Vec<String> = events
        .iter()
        .map(|e| event_label(&e.name, Language::English))
        .collect();
    assert_eq!(labels[0], "1st day of the Omer");
    assert_eq!(labels[1], "2nd day of the Omer");
    assert_eq!(labels[2], "3rd day of the Omer");
    assert_eq!(labels[10], "11th day of the Omer");
    assert_eq!(labels[20], "21st day of the Omer");
    assert_eq!(labels[32], "33rd day of the Omer");
    assert_eq!(labels[48], "49th day of the Omer");
}

#[test]
fn minor_holidays_in_a_leap_year() {
    // 5779 is a leap year: the two Purim Kattan days appear.
    let events = get_minor_holidays(5779);
    assert_eq!(events.len(), 11);
    assert!(events
        .iter()
        .any(|e| matches!(e.name, Name::MinorHoliday(MinorHoliday::PurimKattan))));
    // Purim Kattan 5779 was February 19, 2019 (evening onset the 18th).
    let pk = events
        .iter()
        .find(|e| matches!(e.name, Name::MinorHoliday(MinorHoliday::PurimKattan)))
        .unwrap();
    assert_eq!(pk.instant, ts(2019, 2, 18, 18));
}

#[test]
fn minor_holidays_in_a_common_year() {
    // 5778 is not a leap year: nine fixed observances, no Purim Kattan.
    let events = get_minor_holidays(5778);
    assert_eq!(events.len(), 9);
    assert!(!events
        .iter()
        .any(|e| matches!(e.name, Name::MinorHoliday(MinorHoliday::PurimKattan))));
    // Erev Yom Kippur 5778: the 9th of Tishrei, September 28, 2017
    // (evening onset the 27th).
    let eyk = events
        .iter()
        .find(|e| matches!(e.name, Name::MinorHoliday(MinorHoliday::ErevYomKippur)))
        .unwrap();
    assert_eq!(eyk.instant, ts(2017, 9, 28, 18));
}

fn leap_only_def() -> CustomHolidayDef {
    CustomHolidayDef {
        date: MonthDay {
            month: Month::Adar1,
            day: 10,
        },
        fallbacks: vec![
            MonthDay {
                month: Month::Adar,
                day: 10,
            },
            MonthDay {
                month: Month::Shvat,
                day: 10,
            },
        ],
        printable: String::from("Observance"),
        json: String::from("Observance"),
    }
}

#[test]
fn custom_primary_resolves_in_a_leap_year() {
    // 5779 is a leap year, so the 10th of Adar 1 exists: one event.
    let events = resolve_custom(5779, &leap_only_def());
    assert_eq!(events.len(), 1);
}

#[test]
fn custom_fallbacks_each_resolve_in_a_common_year() {
    // In 5778 the 10th of Adar 1 does not exist; both fallbacks do, and
    // each resolvable fallback produces its own event, in order.
    let events = resolve_custom(5778, &leap_only_def());
    assert_eq!(events.len(), 2);
    // The 10th of Adar 5778: February 25, 2018 (evening onset the 24th).
    assert_eq!(events[0].instant, ts(2018, 2, 24, 18));
    // The 10th of Shvat 5778: January 26, 2018 (evening onset the 25th).
    assert_eq!(events[1].instant, ts(2018, 1, 25, 18));
}

#[test]
fn custom_without_any_resolution_yields_nothing() {
    let def = CustomHolidayDef {
        date: MonthDay {
            month: Month::Adar1,
            day: 10,
        },
        fallbacks: Vec::new(),
        printable: String::from("Observance"),
        json: String::from("Observance"),
    };
    assert_eq!(resolve_custom(5778, &def).len(), 0);
}
