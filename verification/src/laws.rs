//! Cross-cutting laws of the generators and the pipeline, each proved
//! from the specifications the other modules publish.

use vstd::prelude::*;

use crate::expand::{
    spec_all_customs, spec_expand_year, spec_fallback_events, spec_minor_events, spec_omer_seq,
    spec_readings, spec_reading_of,
};
use crate::pipeline::{
    sorted_by_instant, spec_generated, spec_greg_span, spec_study_part, spec_window,
    spec_years_concat,
};
use crate::calendar::spec_jan1_ts;
use crate::render::{spec_label, spec_minor_label, spec_omer_label};
use crate::study::{spec_study_scan, StudySelection};
use crate::types::{
    CandleLighting, City, CustomHolidayDef, Event, Location, MinorHoliday, Name, SelectionConfig,
    YearType,
};

verus! {

/// Every weekly-portion reading event is a candle-lighting eve: its
/// classification is never `NotApplicable`, whatever the weekday, the
/// location or the city.  (That its instant falls on the eve of a civil
/// Saturday is a property of the calendar data itself, exercised by the
/// tests.)
pub proof fn lemma_weekly_readings_are_eves(year: int, loc: Location, city: Option<City>)
    ensures
        forall|i: int|
            0 <= i < spec_readings(year, 2, loc, city).len() ==> (#[trigger] spec_readings(
                year,
                2,
                loc,
                city,
            )[i]).candle_lighting != CandleLighting::NotApplicable,
{
    assert forall|i: int|
        0 <= i < spec_readings(year, 2, loc, city).len() implies (#[trigger] spec_readings(
        year,
        2,
        loc,
        city,
    )[i]).candle_lighting != CandleLighting::NotApplicable by {
        let h = crate::calendar::spec_holidays(year, loc == Location::Israel, 2)[i];
        let tr = spec_reading_of(2, h.1 as int);
        assert(tr is Shabbos);
    }
}

/// No reading event carries a known candle-lighting time at generation
/// time: no sunset source is consulted while generating, and without a
/// sunset result the classification can only be `NotApplicable` or
/// `ApplicableUnknown`, whatever city is configured.
pub proof fn lemma_readings_never_known(year: int, cat: int, loc: Location, city: Option<City>)
    ensures
        forall|i: int|
            0 <= i < spec_readings(year, cat, loc, city).len() ==> !((#[trigger] spec_readings(
                year,
                cat,
                loc,
                city,
            )[i]).candle_lighting is ApplicableKnown),
{
}

/// Minor-observance events never carry candle lighting.
pub proof fn lemma_minor_not_applicable(year: int, cat: Seq<(u8, u8, MinorHoliday)>)
    ensures
        forall|i: int|
            0 <= i < spec_minor_events(year, cat).len() ==> (#[trigger] spec_minor_events(
                year,
                cat,
            )[i]).candle_lighting == CandleLighting::NotApplicable,
    decreases cat.len(),
{
    if cat.len() == 0 {
    } else {
        lemma_minor_not_applicable(year, cat.drop_first());
    }
}

/// Custom-holiday fallback events never carry candle lighting.
pub proof fn lemma_fallback_not_applicable(
    year: int,
    fbs: Seq<crate::types::MonthDay>,
    def: CustomHolidayDef,
)
    ensures
        forall|i: int|
            0 <= i < spec_fallback_events(year, fbs, def).len() ==> (
            #[trigger] spec_fallback_events(year, fbs, def)[i]).candle_lighting
                == CandleLighting::NotApplicable,
    decreases fbs.len(),
{
    if fbs.len() == 0 {
    } else {
        lemma_fallback_not_applicable(year, fbs.drop_first(), def);
    }
}

/// Custom-holiday events never carry candle lighting.
pub proof fn lemma_customs_not_applicable(year: int, defs: Seq<CustomHolidayDef>)
    ensures
        forall|i: int|
            0 <= i < spec_all_customs(year, defs).len() ==> (#[trigger] spec_all_customs(
                year,
                defs,
            )[i]).candle_lighting == CandleLighting::NotApplicable,
    decreases defs.len(),
{
    if defs.len() == 0 {
    } else {
        lemma_fallback_not_applicable(year, defs[0].fallbacks@, defs[0]);
        lemma_customs_not_applicable(year, defs.drop_first());
    }
}

/// Shabbos-Mevarchim events never carry candle lighting.
pub proof fn lemma_mevarchim_not_applicable(readings: Seq<(u8, u8, i64)>)
    ensures
        forall|i: int|
            0 <= i < crate::expand::spec_mevarchim_events(readings).len() ==> (
            #[trigger] crate::expand::spec_mevarchim_events(readings)[i]).candle_lighting
                == CandleLighting::NotApplicable,
    decreases readings.len(),
{
    if readings.len() == 0 {
    } else {
        lemma_mevarchim_not_applicable(readings.drop_first());
    }
}

/// Study-cycle events never carry candle lighting.
pub proof fn lemma_study_not_applicable(start: int, n: nat, sel: StudySelection)
    ensures
        forall|i: int|
            0 <= i < spec_study_scan(start, n, sel).len() ==> (#[trigger] spec_study_scan(
                start,
                n,
                sel,
            )[i]).candle_lighting == CandleLighting::NotApplicable,
    decreases n,
{
    if n == 0 {
    } else {
        lemma_study_not_applicable(start + 86400, (n - 1) as nat, sel);
    }
}

/// No event of the concatenation of two lists without a known time has
/// a known time.
proof fn lemma_concat_no_known(a: Seq<Event>, b: Seq<Event>)
    requires
        forall|i: int| 0 <= i < a.len() ==> !((#[trigger] a[i]).candle_lighting is ApplicableKnown),
        forall|i: int| 0 <= i < b.len() ==> !((#[trigger] b[i]).candle_lighting is ApplicableKnown),
    ensures
        forall|i: int|
            0 <= i < (a + b).len() ==> !((#[trigger] (a + b)[i]).candle_lighting
                is ApplicableKnown),
{
    assert forall|i: int|
        0 <= i < (a + b).len() implies !((#[trigger] (a + b)[i]).candle_lighting
        is ApplicableKnown) by {
        if i < a.len() {
            assert((a + b)[i] == a[i]);
        } else {
            assert((a + b)[i] == b[i - a.len()]);
        }
    }
}

/// No event of a whole expanded year has a known candle-lighting time.
pub proof fn lemma_expand_year_never_known(year: int, cfg: SelectionConfig)
    ensures
        forall|i: int|
            0 <= i < spec_expand_year(year, cfg).len() ==> !((#[trigger] spec_expand_year(
                year,
                cfg,
            )[i]).candle_lighting is ApplicableKnown),
{
    reveal(spec_expand_year);
    let e = Seq::<Event>::empty();
    let p1 = if cfg.yom_tov { spec_readings(year, 0, cfg.location, cfg.city) } else { e };
    let p2 = if cfg.chol { spec_readings(year, 1, cfg.location, cfg.city) } else { e };
    let p3 = if cfg.shabbos { spec_readings(year, 2, cfg.location, cfg.city) } else { e };
    let p4 = if cfg.special_parsha { spec_readings(year, 3, cfg.location, cfg.city) } else { e };
    let p5 = if cfg.omer && crate::calendar::spec_date_exists(year, 8, 15) {
        spec_omer_seq(crate::calendar::spec_hebrew_ts(year, 8, 15))
    } else {
        e
    };
    let p6 = if cfg.minor {
        spec_minor_events(year, crate::expand::spec_minor_catalog(crate::calendar::spec_is_leap(year)))
    } else {
        e
    };
    let p7 = if cfg.shabbos_mevarchim {
        crate::expand::spec_mevarchim_events(
            crate::calendar::spec_holidays(year, cfg.location == Location::Israel, 2),
        )
    } else {
        e
    };
    let p8 = spec_all_customs(year, cfg.custom@);
    lemma_readings_never_known(year, 0, cfg.location, cfg.city);
    lemma_readings_never_known(year, 1, cfg.location, cfg.city);
    lemma_readings_never_known(year, 2, cfg.location, cfg.city);
    lemma_readings_never_known(year, 3, cfg.location, cfg.city);
    lemma_minor_not_applicable(
        year,
        crate::expand::spec_minor_catalog(crate::calendar::spec_is_leap(year)),
    );
    lemma_mevarchim_not_applicable(
        crate::calendar::spec_holidays(year, cfg.location == Location::Israel, 2),
    );
    lemma_customs_not_applicable(year, cfg.custom@);
    lemma_concat_no_known(p1, p2);
    lemma_concat_no_known(p1 + p2, p3);
    lemma_concat_no_known(p1 + p2 + p3, p4);
    lemma_concat_no_known(p1 + p2 + p3 + p4, p5);
    lemma_concat_no_known(p1 + p2 + p3 + p4 + p5, p6);
    lemma_concat_no_known(p1 + p2 + p3 + p4 + p5 + p6, p7);
    lemma_concat_no_known(p1 + p2 + p3 + p4 + p5 + p6 + p7, p8);
    assert(spec_expand_year(year, cfg) == p1 + p2 + p3 + p4 + p5 + p6 + p7 + p8);
}

/// No event of any span of expanded years has a known candle-lighting
/// time.
pub proof fn lemma_years_never_known(start: int, n: nat, cfg: SelectionConfig)
    ensures
        forall|i: int|
            0 <= i < spec_years_concat(start, n, cfg).len() ==> !((#[trigger] spec_years_concat(
                start,
                n,
                cfg,
            )[i]).candle_lighting is ApplicableKnown),
    decreases n,
{
    if n == 0 {
    } else {
        lemma_expand_year_never_known(start, cfg);
        lemma_years_never_known(start + 1, (n - 1) as nat, cfg);
    }
}

/// Every event the window filter keeps comes from the input list and has
/// its instant strictly inside the window.
pub proof fn lemma_window_bounds(s: Seq<Event>, lo: int, hi: int)
    ensures
        forall|i: int|
            0 <= i < spec_window(s, lo, hi).len() ==> lo < (#[trigger] spec_window(
                s,
                lo,
                hi,
            )[i]).instant < hi,
        forall|i: int|
            0 <= i < spec_window(s, lo, hi).len() ==> s.contains(
                #[trigger] spec_window(s, lo, hi)[i],
            ),
    decreases s.len(),
{
    if s.len() == 0 {
    } else {
        lemma_window_bounds(s.drop_first(), lo, hi);
        assert forall|i: int|
            0 <= i < spec_window(s, lo, hi).len() implies s.contains(
            #[trigger] spec_window(s, lo, hi)[i],
        ) by {
            let w = spec_window(s, lo, hi);
            let head_len = if lo < s[0].instant < hi {
                1int
            } else {
                0int
            };
            if i < head_len {
                assert(w[i] == s[0]);
            } else {
                let rest = spec_window(s.drop_first(), lo, hi);
                assert(w[i] == rest[i - head_len]);
                assert(s.drop_first().contains(rest[i - head_len]));
                let j = choose|j: int|
                    0 <= j < s.drop_first().len() && s.drop_first()[j] == rest[i - head_len];
                assert(s[j + 1] == rest[i - head_len]);
            }
        }
    }
}

/// No event a request generates carries a known candle-lighting time:
/// generation never consults a sunset source.  A known time can only be
/// attached afterwards, by re-classifying an event against a sunset
/// lookup result.
pub proof fn lemma_generated_never_known(year: YearType, n: int, cfg: SelectionConfig)
    ensures
        crate::pipeline::no_known_times(spec_generated(year, n, cfg)),
{
    match year {
        YearType::Hebrew(y) => {
            lemma_years_never_known(y as int, (n + 1) as nat, cfg);
            lemma_study_part_no_known(y as int, y + n - 1, cfg);
        },
        YearType::Gregorian(y) => {
            let span = spec_greg_span(y as int, n);
            let whole = spec_years_concat(span.0, (span.1 - span.0 + 1) as nat, cfg)
                + spec_study_part(span.0, span.1, cfg);
            lemma_years_never_known(span.0, (span.1 - span.0 + 1) as nat, cfg);
            lemma_study_part_no_known(span.0, span.1, cfg);
            let lo = spec_jan1_ts(y as int);
            let hi = spec_jan1_ts(y + n);
            lemma_window_bounds(whole, lo, hi);
            assert forall|i: int|
                0 <= i < spec_generated(year, n, cfg).len() implies !((#[trigger] spec_generated(
                year,
                n,
                cfg,
            )[i]).candle_lighting is ApplicableKnown) by {
                let e = spec_generated(year, n, cfg)[i];
                assert(whole.contains(e));
                let j = choose|j: int| 0 <= j < whole.len() && whole[j] == e;
            }
        },
    }
}

/// Given no city, every event a request generates has a candle-lighting
/// classification of `NotApplicable` or `ApplicableUnknown`, never
/// `ApplicableKnown`.  (In fact generation never yields a known time
/// whatever the city, as `lemma_generated_never_known` states; this form
/// names the configuration the property is usually asked about.)
pub proof fn lemma_no_city_no_known(year: YearType, n: int, cfg: SelectionConfig)
    requires
        cfg.city is None,
    ensures
        forall|i: int|
            0 <= i < spec_generated(year, n, cfg).len() ==> !((#[trigger] spec_generated(
                year,
                n,
                cfg,
            )[i]).candle_lighting is ApplicableKnown),
{
    lemma_generated_never_known(year, n, cfg);
}

/// The study slice of the pipeline never carries candle lighting, so in
/// particular never a known time.
pub proof fn lemma_study_part_no_known(first: int, last: int, cfg: SelectionConfig)
    ensures
        forall|i: int|
            0 <= i < spec_study_part(first, last, cfg).len() ==> (#[trigger] spec_study_part(
                first,
                last,
                cfg,
            )[i]).candle_lighting == CandleLighting::NotApplicable,
{
    if first <= last && crate::calendar::spec_date_exists(first, 0, 1)
        && crate::calendar::spec_date_exists(last, 13, 29) {
        let ts1 = crate::calendar::spec_hebrew_ts(first, 0, 1);
        let ts2 = crate::calendar::spec_hebrew_ts(last, 13, 29);
        lemma_study_not_applicable(
            ts1,
            crate::study::spec_num_days(ts1, ts2) as nat,
            crate::pipeline::spec_sel_of(cfg),
        );
    }
}

/// Every event a Gregorian request generates lies strictly inside the
/// requested civil window: after midnight of January 1 of its first year
/// and before midnight of January 1 past its last.
pub proof fn lemma_gregorian_window(y: u64, n: int, cfg: SelectionConfig)
    ensures
        forall|i: int|
            0 <= i < spec_generated(YearType::Gregorian(y), n, cfg).len() ==> {
                let e = #[trigger] spec_generated(YearType::Gregorian(y), n, cfg)[i];
                spec_jan1_ts(y as int) < e.instant < spec_jan1_ts(y + n)
            },
{
    let span = spec_greg_span(y as int, n);
    let whole = spec_years_concat(span.0, (span.1 - span.0 + 1) as nat, cfg) + spec_study_part(
        span.0,
        span.1,
        cfg,
    );
    lemma_window_bounds(whole, spec_jan1_ts(y as int), spec_jan1_ts(y + n));
}

/// The Omer expansion of a year whose first day of Pesach begins at
/// `pesach` has exactly 49 entries, on 49 consecutive civil evenings
/// starting the day after, in ascending date order, the k-th labeled as
/// the k-th day of the Omer.
pub proof fn lemma_omer_shape(pesach: int)
    requires
        crate::calendar::TS_MIN <= pesach <= crate::calendar::TS_MAX,
    ensures
        spec_omer_seq(pesach).len() == 49,
        forall|k: int|
            0 <= k < 49 ==> (#[trigger] spec_omer_seq(pesach)[k]).instant == pesach + 86400 * (k
                + 1),
        forall|k: int|
            0 <= k < 49 ==> (#[trigger] spec_omer_seq(pesach)[k]).name == Name::MinorHoliday(
                MinorHoliday::Omer((k + 1) as u8),
            ),
        forall|k: int|
            0 <= k < 48 ==> (#[trigger] spec_omer_seq(pesach)[k]).instant < spec_omer_seq(
                pesach,
            )[k + 1].instant,
        forall|k: int|
            0 <= k < 49 ==> spec_label(
                (#[trigger] spec_omer_seq(pesach)[k]).name,
                crate::types::Language::English,
            ) == spec_omer_label((k + 1) as nat),
{
    reveal(spec_minor_label);
}

/// Yerushalmi Yomi emits nothing on the structurally skipped days: the
/// 10th of Tishrei, and the year's observed Tisha B'Av as the calendar
/// resolves it.
pub proof fn lemma_yerushalmi_skips(ts: int)
    ensures
        (crate::calendar::spec_civil_hebrew(ts).1 == 0 && crate::calendar::spec_civil_hebrew(
            ts,
        ).2 == 10) ==> crate::study::spec_yeru_for(ts) is None,
        (crate::study::spec_find_tb(
            crate::calendar::spec_holidays(crate::calendar::spec_civil_hebrew(ts).0, false, 1),
        ) matches Some(tb) && ts == tb) ==> crate::study::spec_yeru_for(ts) is None,
{
    reveal(crate::study::spec_yeru_for);
}

/// A custom holiday whose primary date exists in a year resolves to
/// exactly one event, at that date.
pub proof fn lemma_custom_primary(year: int, def: CustomHolidayDef)
    requires
        crate::expand::spec_md_plausible(def.date),
        crate::calendar::spec_date_exists(
            year,
            def.date.month.spec_code() as int,
            def.date.day as int,
        ),
    ensures
        crate::expand::spec_custom_events(year, def) == seq![
            crate::expand::spec_custom_event(
                crate::calendar::spec_hebrew_ts(
                    year,
                    def.date.month.spec_code() as int,
                    def.date.day as int,
                ),
                def,
            ),
        ],
{
}

/// A custom holiday whose primary date does not exist in a year resolves
/// through its fallback list, in the definition's order.
pub proof fn lemma_custom_falls_back(year: int, def: CustomHolidayDef)
    requires
        !(crate::expand::spec_md_plausible(def.date) && crate::calendar::spec_date_exists(
            year,
            def.date.month.spec_code() as int,
            def.date.day as int,
        )),
    ensures
        crate::expand::spec_custom_events(year, def) == spec_fallback_events(
            year,
            def.fallbacks@,
            def,
        ),
{
}

/// Every fallback date that exists in the year produces its own event.
pub proof fn lemma_each_fallback_resolves(
    year: int,
    fbs: Seq<crate::types::MonthDay>,
    def: CustomHolidayDef,
)
    ensures
        forall|j: int|
            0 <= j < fbs.len() && crate::expand::spec_md_plausible(#[trigger] fbs[j])
                && crate::calendar::spec_date_exists(
                year,
                fbs[j].month.spec_code() as int,
                fbs[j].day as int,
            ) ==> spec_fallback_events(year, fbs, def).contains(
                crate::expand::spec_custom_event(
                    crate::calendar::spec_hebrew_ts(
                        year,
                        fbs[j].month.spec_code() as int,
                        fbs[j].day as int,
                    ),
                    def,
                ),
            ),
    decreases fbs.len(),
{
    if fbs.len() == 0 {
    } else {
        lemma_each_fallback_resolves(year, fbs.drop_first(), def);
        assert forall|j: int|
            0 <= j < fbs.len() && crate::expand::spec_md_plausible(#[trigger] fbs[j])
                && crate::calendar::spec_date_exists(
                year,
                fbs[j].month.spec_code() as int,
                fbs[j].day as int,
            ) implies spec_fallback_events(year, fbs, def).contains(
            crate::expand::spec_custom_event(
                crate::calendar::spec_hebrew_ts(
                    year,
                    fbs[j].month.spec_code() as int,
                    fbs[j].day as int,
                ),
                def,
            ),
        ) by {
            let ev = crate::expand::spec_custom_event(
                crate::calendar::spec_hebrew_ts(
                    year,
                    fbs[j].month.spec_code() as int,
                    fbs[j].day as int,
                ),
                def,
            );
            let w = spec_fallback_events(year, fbs, def);
            let head_len = w.len() - spec_fallback_events(year, fbs.drop_first(), def).len();
            if j == 0 {
                assert(w[0] == ev);
            } else {
                assert(fbs.drop_first()[j - 1] == fbs[j]);
                let rest = spec_fallback_events(year, fbs.drop_first(), def);
                assert(rest.contains(ev));
                let k = choose|k: int| 0 <= k < rest.len() && rest[k] == ev;
                assert(w[head_len + k] == ev);
            }
        }
    }
}

/// When a custom holiday falls back, the first fallback date that exists
/// in the year produces the first event.
pub proof fn lemma_first_fallback_first(
    year: int,
    fbs: Seq<crate::types::MonthDay>,
    def: CustomHolidayDef,
)
    requires
        fbs.len() > 0,
        crate::expand::spec_md_plausible(fbs[0]),
        crate::calendar::spec_date_exists(
            year,
            fbs[0].month.spec_code() as int,
            fbs[0].day as int,
        ),
    ensures
        spec_fallback_events(year, fbs, def).len() > 0,
        spec_fallback_events(year, fbs, def)[0] == crate::expand::spec_custom_event(
            crate::calendar::spec_hebrew_ts(
                year,
                fbs[0].month.spec_code() as int,
                fbs[0].day as int,
            ),
            def,
        ),
{
}

/// Everything a run returns can be rendered: the range guarantee and the
/// absence of known candle times together discharge the renderer's
/// precondition for every event of the output.
pub proof fn lemma_run_output_renderable(s: Seq<Event>)
    requires
        crate::calendar::events_in_range(s),
        crate::pipeline::no_known_times(s),
    ensures
        forall|i: int| 0 <= i < s.len() ==> crate::render::spec_renderable(#[trigger] s[i]),
{
}

/// In a sorted output every adjacent pair is ordered: the first of the
/// two instants is at most the second.
pub proof fn lemma_sorted_adjacent(s: Seq<Event>)
    requires
        sorted_by_instant(s),
    ensures
        forall|i: int| 0 <= i < s.len() - 1 ==> (#[trigger] s[i]).instant <= s[i + 1].instant,
{
}

} // verus!
