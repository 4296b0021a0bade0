use chrono::TimeZone;

use hebcal_events::pipeline::run_list;
use hebcal_events::types::{
    CandleLighting, CustomHolidayDef, Event, EventError, Location, Name, Return, SelectionConfig,
    TorahReading, YearType, YomTov,
};

fn ts(y: i32, m: u32, d: u32, h: u32) -> i64 {
    chrono::Utc
        .with_ymd_and_hms(y, m, d, h, 0, 0)
        .unwrap()
        .timestamp()
}

fn base_config() -> SelectionConfig {
    SelectionConfig {
        location: Location::Diaspora,
        yom_tov: false,
        chol: false,
        shabbos: false,
        special_parsha: false,
        omer: false,
        minor: false,
        israeli: false,
        chabad: false,
        shabbos_mevarchim: false,
        daf_yomi: false,
        rambam_one: false,
        rambam_three: false,
        yerushalmi: false,
        custom: Vec::new(),
        city: None,
    }
}

fn events_of(r: Result<Return, EventError>) -> Vec<Event> {
    r.expect("request should be valid").list
}

#[test]
fn yom_kippur_instant_5779() {
    let mut cfg = base_config();
    cfg.yom_tov = true;
    // The span [5779, 5779]: one year.
    let events = events_of(run_list(YearType::Hebrew(5779), 0, false, &cfg));
    let yk: Vec<&Event> = events
        .iter()
        .filter(|e| {
            matches!(
                e.name,
                Name::TorahReading(TorahReading::YomTov(YomTov::YomKippur))
            )
        })
        .collect();
    assert_eq!(yk.len(), 1);
    // Yom Kippur 5779 began at sunset of September 18, 2018.
    assert_eq!(yk[0].instant, ts(2018, 9, 18, 18));
    // It is a candle-lighting eve; with no city the time is unknown.
    assert_eq!(yk[0].candle_lighting, CandleLighting::ApplicableUnknown);
}

#[test]
fn rosh_hashanah_first_day_5779() {
    let mut cfg = base_config();
    cfg.yom_tov = true;
    let events = events_of(run_list(YearType::Hebrew(5779), 0, false, &cfg));
    let rh: Vec<&Event> = events
        .iter()
        .filter(|e| {
            matches!(
                e.name,
                Name::TorahReading(TorahReading::YomTov(YomTov::RoshHashanah1))
            )
        })
        .collect();
    assert_eq!(rh.len(), 1);
    // Rosh Hashanah 5779 began at sunset of September 9, 2018.
    assert_eq!(rh[0].instant, ts(2018, 9, 9, 18));
}

#[test]
fn weekly_readings_fall_on_friday_evening() {
    let mut cfg = base_config();
    cfg.shabbos = true;
    let events = events_of(run_list(YearType::Hebrew(5779), 0, false, &cfg));
    assert!(!events.is_empty());
    for e in &events {
        // The instant is the evening onset of Shabbos: a Friday, 18:00.
        let dt = chrono::DateTime::<chrono::Utc>::from_timestamp(e.instant, 0).unwrap();
        assert_eq!(chrono::Datelike::weekday(&dt), chrono::Weekday::Fri);
        // And every weekly reading is a candle-lighting eve.
        assert!(!matches!(e.candle_lighting, CandleLighting::NotApplicable));
    }
}

#[test]
fn no_city_never_yields_known_times() {
    let mut cfg = base_config();
    cfg.yom_tov = true;
    cfg.chol = true;
    cfg.shabbos = true;
    cfg.special_parsha = true;
    cfg.omer = true;
    cfg.minor = true;
    let events = events_of(run_list(YearType::Hebrew(5779), 2, false, &cfg));
    assert!(!events.is_empty());
    for e in &events {
        assert!(!matches!(
            e.candle_lighting,
            CandleLighting::ApplicableKnown(_)
        ));
    }
}

#[test]
fn sorted_output_is_ascending() {
    let mut cfg = base_config();
    cfg.yom_tov = true;
    cfg.chol = true;
    cfg.shabbos = true;
    cfg.minor = true;
    cfg.omer = true;
    cfg.daf_yomi = true;
    let events = events_of(run_list(YearType::Hebrew(5779), 2, false, &cfg));
    assert!(events.len() > 100);
    for pair in events.windows(2) {
        assert!(pair[0].instant <= pair[1].instant);
    }
}

#[test]
fn invalid_years_are_refused() {
    let cfg = base_config();
    assert_eq!(
        run_list(YearType::Hebrew(3000), 1, false, &cfg).unwrap_err(),
        EventError::InvalidYear
    );
    assert_eq!(
        run_list(YearType::Hebrew(3763), 1, false, &cfg).unwrap_err(),
        EventError::InvalidYear
    );
    assert_eq!(
        run_list(YearType::Hebrew(300_000), 1, false, &cfg).unwrap_err(),
        EventError::InvalidYear
    );
    assert!(run_list(YearType::Hebrew(5779), 1, false, &cfg).is_ok());
    // The span end must be supported too.
    assert_eq!(
        run_list(YearType::Hebrew(200_000), 1, false, &cfg).unwrap_err(),
        EventError::InvalidYear
    );
}

#[test]
fn gregorian_request_stays_inside_window() {
    let mut cfg = base_config();
    cfg.yom_tov = true;
    cfg.chol = true;
    cfg.shabbos = true;
    cfg.minor = true;
    cfg.omer = true;
    let events = events_of(run_list(YearType::Gregorian(2019), 1, false, &cfg));
    assert!(!events.is_empty());
    let lo = ts(2019, 1, 1, 0);
    let hi = ts(2020, 1, 1, 0);
    for e in &events {
        assert!(lo < e.instant && e.instant < hi);
    }
    // Yom Kippur 5780 (evening of October 8, 2019) is inside the window.
    assert!(events.iter().any(|e| {
        e.instant == ts(2019, 10, 8, 18)
            && matches!(
                e.name,
                Name::TorahReading(TorahReading::YomTov(YomTov::YomKippur))
            )
    }));
    // Yom Kippur 5779 (September 2018) is not.
    assert!(!events.iter().any(|e| e.instant == ts(2018, 9, 18, 18)));
}

#[test]
fn custom_holiday_in_run() {
    // One event per covered year; the span [5779, 5779] covers one.
    let mut cfg = base_config();
    cfg.custom = vec![CustomHolidayDef {
        date: hebcal_events::types::MonthDay {
            month: hebcal_events::types::Month::Teves,
            day: 20,
        },
        fallbacks: Vec::new(),
        printable: String::from("Family day"),
        json: String::from("FamilyDay"),
    }];
    let events = events_of(run_list(YearType::Hebrew(5779), 0, false, &cfg));
    assert_eq!(events.len(), 1);
    match &events[0].name {
        Name::CustomHoliday { printable, json } => {
            assert_eq!(printable, "Family day");
            assert_eq!(json, "FamilyDay");
        }
        _ => panic!("expected the custom holiday"),
    }
}
