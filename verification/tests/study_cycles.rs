use chrono::TimeZone;

use hebcal_events::study::{
    daf_for, rambam_one_for, rambam_three_for, study_events, yeru_for, StudySelection,
    DAF_EPOCH_1, DAF_EPOCH_2, RAMBAM_EPOCH,
};
use hebcal_events::types::StudyUnit;

fn ts(y: i32, m: u32, d: u32, h: u32) -> i64 {
    chrono::Utc
        .with_ymd_and_hms(y, m, d, h, 0, 0)
        .unwrap()
        .timestamp()
}

#[test]
fn daf_before_the_first_cycle() {
    assert_eq!(daf_for(ts(1920, 1, 1, 18)), None);
}

#[test]
fn daf_first_cycle_opens_with_berachos() {
    // The first cycle began on September 11, 1923 (evening onset the 10th).
    assert_eq!(
        daf_for(DAF_EPOCH_1),
        Some(StudyUnit::Daf {
            cycle: 1,
            tractate: 0,
            page: 2
        })
    );
}

#[test]
fn daf_catalog_transition_in_1975() {
    // The second epoch, exactly seven first-catalog cycles after the
    // first, starts the count over with the longer catalog; the day
    // before it closed the first catalog's final tractate.
    assert_eq!(
        daf_for(DAF_EPOCH_2),
        Some(StudyUnit::Daf {
            cycle: 2,
            tractate: 0,
            page: 2
        })
    );
    assert_eq!(
        daf_for(DAF_EPOCH_2 - 86400),
        Some(StudyUnit::Daf {
            cycle: 1,
            tractate: 36,
            page: 73
        })
    );
}

#[test]
fn daf_cycle_beginning_in_2020() {
    // A cycle boundary fell on January 5, 2020: back to Berachos 2.
    assert_eq!(
        daf_for(ts(2020, 1, 4, 18)),
        Some(StudyUnit::Daf {
            cycle: 2,
            tractate: 0,
            page: 2
        })
    );
}

#[test]
fn daf_cycle_ending_in_2020() {
    // The day before that boundary closed Niddah, the final tractate.
    assert_eq!(
        daf_for(ts(2020, 1, 3, 18)),
        Some(StudyUnit::Daf {
            cycle: 2,
            tractate: 36,
            page: 73
        })
    );
    // January 1, 2020 (evening onset December 31) was Niddah 70.
    assert_eq!(
        daf_for(ts(2019, 12, 31, 18)),
        Some(StudyUnit::Daf {
            cycle: 2,
            tractate: 36,
            page: 70
        })
    );
}

#[test]
fn daf_pages_progress_day_by_day() {
    let mut prev_page = 0u16;
    for day in 5..10 {
        match daf_for(ts(2019, 12, day, 18)) {
            Some(StudyUnit::Daf { page, .. }) => {
                if prev_page != 0 {
                    assert_eq!(page, prev_page + 1);
                }
                prev_page = page;
            }
            other => panic!("expected a page, got {:?}", other),
        }
    }
}

#[test]
fn rambam_cycle_anchors() {
    // The first chapter on the first day of the cycle.
    assert_eq!(
        rambam_one_for(RAMBAM_EPOCH),
        Some(StudyUnit::RambamOne { chapter: 0 })
    );
    // A whole cycle later the count restarts.
    assert_eq!(
        rambam_one_for(RAMBAM_EPOCH + 1017 * 86400),
        Some(StudyUnit::RambamOne { chapter: 0 })
    );
    assert_eq!(
        rambam_three_for(RAMBAM_EPOCH + 339 * 86400),
        Some(StudyUnit::RambamThree { chapter_set: 0 })
    );
    assert_eq!(rambam_one_for(ts(1980, 1, 1, 18)), None);
}

#[test]
fn yerushalmi_skips_yom_kippur() {
    // Yom Kippur 5779 was the day beginning at the evening of
    // September 18, 2018: no Yerushalmi entry.
    assert_eq!(yeru_for(ts(2018, 9, 18, 18)), None);
    assert!(yeru_for(ts(2018, 9, 17, 18)).is_some());
    assert!(yeru_for(ts(2018, 9, 19, 18)).is_some());
}

#[test]
fn yerushalmi_skips_tisha_bav() {
    // Tisha B'Av 5777 was the day beginning at the evening of
    // July 31, 2017: no Yerushalmi entry.
    assert_eq!(yeru_for(ts(2017, 7, 31, 18)), None);
    assert!(yeru_for(ts(2017, 7, 30, 18)).is_some());
    assert!(yeru_for(ts(2017, 8, 1, 18)).is_some());
}

#[test]
fn yerushalmi_offset_steps_over_a_skipped_day() {
    // The page after Yom Kippur continues right where the eve left off.
    let before = match yeru_for(ts(2018, 9, 17, 18)) {
        Some(StudyUnit::Yerushalmi { page }) => page,
        other => panic!("expected a page, got {:?}", other),
    };
    let after = match yeru_for(ts(2018, 9, 19, 18)) {
        Some(StudyUnit::Yerushalmi { page }) => page,
        other => panic!("expected a page, got {:?}", other),
    };
    assert_eq!(after, before + 1);
}

#[test]
fn yerushalmi_first_cycle_day() {
    // The first cycle began with the day whose evening onset was
    // February 1, 1980; its offset is one.
    assert_eq!(
        yeru_for(ts(1980, 2, 1, 18)),
        Some(StudyUnit::Yerushalmi { page: 1 })
    );
    assert_eq!(yeru_for(ts(1980, 1, 31, 18)), None);
}

#[test]
fn scan_emits_in_day_order() {
    let sel = StudySelection {
        daf_yomi: true,
        rambam_one: true,
        rambam_three: false,
        yerushalmi: true,
    };
    let start = ts(2018, 9, 9, 18);
    let end = ts(2018, 10, 9, 18);
    let events = study_events(start, end, sel);
    // 31 days, three cycles each, minus the one skipped Yerushalmi day.
    assert_eq!(events.len(), 31 * 3 - 1);
    for pair in events.windows(2) {
        assert!(pair[0].instant <= pair[1].instant);
    }
    assert_eq!(events[0].instant, start);
    assert_eq!(events[events.len() - 1].instant, end);
}
