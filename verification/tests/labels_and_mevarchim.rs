use chrono::TimeZone;

use hebcal_events::pipeline::run_list;
use hebcal_events::render::{event_label, render_text};
use hebcal_events::types::{
    CandleLighting, Event, EventError, Language, Location, Name, SelectionConfig, StudyUnit,
    YearType,
};

fn ts(y: i32, m: u32, d: u32, h: u32) -> i64 {
    chrono::Utc
        .with_ymd_and_hms(y, m, d, h, 0, 0)
        .unwrap()
        .timestamp()
}

fn base_config() -> SelectionConfig {
    SelectionConfig {
        location: Location::Diaspora,
        yom_tov: false,
        chol: false,
        shabbos: false,
        special_parsha: false,
        omer: false,
        minor: false,
        israeli: false,
        chabad: false,
        shabbos_mevarchim: false,
        daf_yomi: false,
        rambam_one: false,
        rambam_three: false,
        yerushalmi: false,
        custom: Vec::new(),
        city: None,
    }
}

#[test]
fn study_unit_labels() {
    assert_eq!(
        event_label(
            &Name::StudyUnit(StudyUnit::Daf {
                cycle: 2,
                tractate: 0,
                page: 2
            }),
            Language::English
        ),
        "Berachos 2"
    );
    assert_eq!(
        event_label(
            &Name::StudyUnit(StudyUnit::Daf {
                cycle: 2,
                tractate: 36,
                page: 73
            }),
            Language::English
        ),
        "Niddah 73"
    );
    assert_eq!(
        event_label(
            &Name::StudyUnit(StudyUnit::RambamOne { chapter: 0 }),
            Language::English
        ),
        "Mishneh Torah chapter 1"
    );
    assert_eq!(
        event_label(
            &Name::StudyUnit(StudyUnit::RambamThree { chapter_set: 1 }),
            Language::English
        ),
        "Mishneh Torah chapters 4-6"
    );
    assert_eq!(
        event_label(
            &Name::StudyUnit(StudyUnit::Yerushalmi { page: 1 }),
            Language::English
        ),
        "Yerushalmi Yomi page 1"
    );
    // Offset zero is the last page of a cycle.
    assert_eq!(
        event_label(
            &Name::StudyUnit(StudyUnit::Yerushalmi { page: 0 }),
            Language::English
        ),
        "Yerushalmi Yomi page 1554"
    );
}

#[test]
fn shabbos_mevarchim_once_per_blessed_month() {
    let mut cfg = base_config();
    cfg.shabbos_mevarchim = true;
    let events = run_list(YearType::Hebrew(5779), 0, false, &cfg)
        .unwrap()
        .list;
    // 5779 is a leap year of 13 months; every month but Tishrei is
    // blessed on the preceding Shabbos, so twelve such Shabbosos.
    assert_eq!(events.len(), 12);
    for e in &events {
        assert!(matches!(e.name, Name::ShabbosMevarchim));
        // Each falls on a Shabbos eve: a Friday evening.
        let dt = chrono::DateTime::<chrono::Utc>::from_timestamp(e.instant, 0).unwrap();
        assert_eq!(chrono::Datelike::weekday(&dt), chrono::Weekday::Fri);
    }
}

#[test]
fn shabbos_mevarchim_in_a_common_year() {
    let mut cfg = base_config();
    cfg.shabbos_mevarchim = true;
    let events = run_list(YearType::Hebrew(5778), 0, false, &cfg)
        .unwrap()
        .list;
    // Twelve months, eleven blessed.
    assert_eq!(events.len(), 11);
}

#[test]
fn render_text_joins_lines() {
    let events = vec![
        Event {
            instant: ts(2018, 9, 9, 18),
            name: Name::ShabbosMevarchim,
            candle_lighting: CandleLighting::NotApplicable,
        },
        Event {
            instant: ts(2018, 9, 18, 18),
            name: Name::IsraeliHoliday,
            candle_lighting: CandleLighting::NotApplicable,
        },
    ];
    assert_eq!(
        render_text(&events, Language::English),
        "Night of 2018/9/9: Shabbos Mevarchim\nNight of 2018/9/18: Israeli holiday\n"
    );
}

#[test]
fn error_message_text() {
    assert_eq!(
        EventError::InvalidYear.message(),
        "requested year is outside the supported calendar range"
    );
}
