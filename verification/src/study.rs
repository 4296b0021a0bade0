//! The daily study-cycle calculator: Daf Yomi, the two Rambam tracks and
//! Yerushalmi Yomi.
//!
//! Every cycle is a fixed epoch instant plus modular offset arithmetic on
//! the number of elapsed civil days; Yerushalmi Yomi additionally skips two
//! calendar days each Hebrew year (the 10th of Tishrei and the year's
//! observed Tisha B'Av) and excludes them from its cycle length.

use vstd::prelude::*;

use crate::calendar;
use crate::calendar::{TS_MIN, TS_MAX, MAX_WRAPPER_YEAR, events_in_range, spec_civil_hebrew, spec_holidays, civil_to_hebrew, fetch_holidays};
use crate::types::{Event, CandleLighting, Name, StudyUnit};

verus! {

/// Evening onset of September 11, 1923, the first day of the first
/// historical Daf Yomi cycle.
pub const DAF_EPOCH_1: i64 = -1_461_391_200;

/// Evening onset of June 24, 1975, the first day with the longer tractate
/// catalog (the ninth cycle, when Shekalim grew from 13 to 22 pages).
pub const DAF_EPOCH_2: i64 = 172_778_400;

/// Days in one Daf Yomi cycle under the first catalog.
pub const DAF_LEN_1: u64 = 2702;

/// Days in one Daf Yomi cycle under the second catalog.
pub const DAF_LEN_2: u64 = 2711;

/// Evening onset of April 29, 1984 (27 Nissan 5744), the first day of the
/// first Rambam study cycle, for both the one-chapter and the
/// three-chapter track.
pub const RAMBAM_EPOCH: i64 = 452_023_200;

/// Chapters of the Mishneh Torah, the length of the one-chapter track.
pub const RAMBAM_LEN_1: u64 = 1017;

/// Days of the three-chapter track (1017 divided by 3).
pub const RAMBAM_LEN_3: u64 = 339;

/// Evening onset of February 1, 1980: the day before the first day of
/// the first Yerushalmi Yomi cycle (15 Shvat 5740, February 2), so that
/// the first study day's offset is one.  Offset zero falls on the last
/// page of a cycle.
pub const YERUSHALMI_EPOCH: i64 = 318_189_600;

/// Days in one Yerushalmi Yomi cycle: 1563 pages minus the structurally
/// skipped days (five Yom Kippurs and four Tisha B'Avs per cycle).
pub const YERUSHALMI_LEN: u64 = 1563 - 5 - 4;

/// An instant at the 18:00 UTC evening onset of a civil day; every instant
/// the generators handle has this shape.
pub open spec fn aligned(ts: int) -> bool {
    ts % 86400 == 64800
}

/// Whole days elapsed from instant `epoch` to instant `ts`.
pub open spec fn days_from(epoch: int, ts: int) -> int {
    (ts - epoch) / 86400
}

/// The per-tractate day counts of the Daf Yomi catalog, in cycle order.
/// A tractate whose last page is n contributes n - 1 days (pages start at
/// 2); the one catalog difference between the historical cycles is
/// Shekalim, 12 days in the first and 21 in the second.
pub open spec fn spec_daf_counts(first_cycle: bool) -> Seq<int> {
    seq![
        63int, 156, 104, 120,
        if first_cycle { 12int } else { 21int },
        87, 55, 39, 34, 30, 31, 28, 26,
        121, 111, 90, 65, 48, 89, 81,
        118, 118, 175, 112, 23, 48, 75, 13,
        119, 109, 141, 60, 33, 33, 27, 36, 72,
    ]
}

/// Where a cycle offset lands in a catalog: the index of the containing
/// tractate and the page number (offsets map to pages starting at 2; a
/// catalog's counts sum to its cycle length, so an offset below that
/// length never reaches the clamp at the final tractate).
pub open spec fn spec_locate(counts: Seq<int>, offset: int) -> (int, int)
    decreases counts.len(),
{
    if counts.len() == 0 {
        (0, 0)
    } else if offset < counts[0] || counts.len() == 1 {
        (0, offset + 2)
    } else {
        let rest = spec_locate(counts.drop_first(), offset - counts[0]);
        (rest.0 + 1, rest.1)
    }
}

/// The day counts of the Daf Yomi catalog as a vector.
pub fn daf_counts(first_cycle: bool) -> (r: Vec<u16>)
    ensures
        r@.map_values(|x: u16| x as int) == spec_daf_counts(first_cycle),
{
    let shekalim: u16 = if first_cycle { 12 } else { 21 };
    let r: Vec<u16> = vec![
        63u16, 156, 104, 120,
        shekalim,
        87, 55, 39, 34, 30, 31, 28, 26,
        121, 111, 90, 65, 48, 89, 81,
        118, 118, 175, 112, 23, 48, 75, 13,
        119, 109, 141, 60, 33, 33, 27, 36, 72,
    ];
    proof {
        assert(r@.map_values(|x: u16| x as int) =~= spec_daf_counts(first_cycle));
    }
    r
}

/// Walks a catalog to the tractate containing `offset`.
pub fn locate(counts: &Vec<u16>, offset: u64) -> (r: (usize, u16))
    requires
        counts@.len() > 0,
        0 <= offset <= 60000,
    ensures
        (r.0 as int, r.1 as int)
            == spec_locate(counts@.map_values(|x: u16| x as int), offset as int),
        r.0 < counts@.len(),
{
    let ghost orig: Seq<int> = counts@.map_values(|x: u16| x as int);
    let mut i: usize = 0;
    let mut rem: u64 = offset;
    proof {
        assert(orig.skip(0) =~= orig);
    }
    loop
        invariant
            i < counts@.len(),
            0 <= rem <= offset <= 60000,
            orig == counts@.map_values(|x: u16| x as int),
            spec_locate(orig, offset as int) == {
                let rest = spec_locate(orig.skip(i as int), rem as int);
                (rest.0 + i, rest.1)
            },
        decreases counts@.len() - i,
    {
        let c = counts[i];
        proof {
            assert(orig.skip(i as int)[0] == orig[i as int]);
        }
        if rem < c as u64 || i == counts.len() - 1 {
            proof {
                assert(orig.skip(i as int).len() == 1 ==> i + 1 == counts@.len());
            }
            return (i, (rem as u16) + 2);
        }
        proof {
            assert(orig.skip(i as int).drop_first() =~= orig.skip(i as int + 1));
        }
        rem = rem - c as u64;
        i = i + 1;
    }
}

/// The Daf Yomi entry of the day beginning at `ts`, if the instant falls
/// in a cycle: no entry before the first epoch; from the second epoch on,
/// the second catalog governs.
#[verifier::opaque]
pub open spec fn spec_daf_for(ts: int) -> Option<StudyUnit> {
    if ts < DAF_EPOCH_1 as int {
        None
    } else if ts < DAF_EPOCH_2 as int {
        let off = days_from(DAF_EPOCH_1 as int, ts) % (DAF_LEN_1 as int);
        let loc = spec_locate(spec_daf_counts(true), off);
        Some(StudyUnit::Daf { cycle: 1, tractate: loc.0 as usize, page: loc.1 as u16 })
    } else {
        let off = days_from(DAF_EPOCH_2 as int, ts) % (DAF_LEN_2 as int);
        let loc = spec_locate(spec_daf_counts(false), off);
        Some(StudyUnit::Daf { cycle: 2, tractate: loc.0 as usize, page: loc.1 as u16 })
    }
}

/// Executable form of `spec_daf_for`.
pub fn daf_for(ts: i64) -> (r: Option<StudyUnit>)
    requires
        aligned(ts as int),
        ts <= calendar::TS_MAX,
    ensures
        r == spec_daf_for(ts as int),
{
    proof {
        reveal(spec_daf_for);
    }
    if ts < DAF_EPOCH_1 {
        None
    } else if ts < DAF_EPOCH_2 {
        let days = ((ts - DAF_EPOCH_1) as u64) / 86400;
        let off = days % DAF_LEN_1;
        let counts = daf_counts(true);
        let loc = locate(&counts, off);
        Some(StudyUnit::Daf { cycle: 1, tractate: loc.0, page: loc.1 })
    } else {
        let days = ((ts - DAF_EPOCH_2) as u64) / 86400;
        let off = days % DAF_LEN_2;
        let counts = daf_counts(false);
        let loc = locate(&counts, off);
        Some(StudyUnit::Daf { cycle: 2, tractate: loc.0, page: loc.1 })
    }
}

/// Which catalog governs the day beginning at `ts`: the cycle length of
/// the Daf Yomi cycle containing it.
pub open spec fn spec_daf_cycle_len(ts: int) -> int {
    if ts < DAF_EPOCH_2 as int {
        DAF_LEN_1 as int
    } else {
        DAF_LEN_2 as int
    }
}

/// The Daf Yomi cycle offset of the day beginning at `ts`: elapsed days
/// since the governing epoch, modulo the cycle length.
pub open spec fn spec_daf_offset(ts: int) -> int {
    if ts < DAF_EPOCH_2 as int {
        days_from(DAF_EPOCH_1 as int, ts) % (DAF_LEN_1 as int)
    } else {
        days_from(DAF_EPOCH_2 as int, ts) % (DAF_LEN_2 as int)
    }
}

/// The Daf Yomi entry of a day in a cycle is the catalog lookup of that
/// day's cycle offset.
pub proof fn lemma_daf_for_uses_offset(ts: int)
    requires
        DAF_EPOCH_1 as int <= ts,
    ensures
        ({
            let first = ts < DAF_EPOCH_2 as int;
            let loc = spec_locate(spec_daf_counts(first), spec_daf_offset(ts));
            spec_daf_for(ts) == Some(
                StudyUnit::Daf {
                    cycle: if first { 1u8 } else { 2u8 },
                    tractate: loc.0 as usize,
                    page: loc.1 as u16,
                },
            )
        }),
{
    reveal(spec_daf_for);
}

/// Daf Yomi offsets form a strict arithmetic progression modulo the
/// cycle length: on consecutive days governed by the same cycle, the
/// offset of the later day is the successor of the earlier one, modulo
/// that cycle's length.  (Only at the transition from the first to the
/// second historical cycle does the progression restart.)
pub proof fn lemma_daf_progression(ts: int)
    requires
        aligned(ts),
        DAF_EPOCH_1 as int <= ts,
        !(ts < DAF_EPOCH_2 as int && DAF_EPOCH_2 as int <= ts + 86400),
    ensures
        spec_daf_offset(ts + 86400) == (spec_daf_offset(ts) + 1) % spec_daf_cycle_len(ts),
{
    let e: int = if ts < DAF_EPOCH_2 as int {
        DAF_EPOCH_1 as int
    } else {
        DAF_EPOCH_2 as int
    };
    let len = spec_daf_cycle_len(ts);
    let a = ts - e;
    let n = a / 86400;
    vstd::arithmetic::div_mod::lemma_div_plus_one(a, 86400);
    assert(days_from(e, ts + 86400) == n + 1);
    vstd::arithmetic::div_mod::lemma_add_mod_noop(n, 1, len);
    vstd::arithmetic::div_mod::lemma_small_mod(1nat, len as nat);
    vstd::arithmetic::div_mod::lemma_mod_twice(n, len);
    assert((n + 1) % len == (n % len + 1) % len);
}

/// The one-chapter-a-day Rambam entry of the day beginning at `ts`.
#[verifier::opaque]
pub open spec fn spec_rambam_one_for(ts: int) -> Option<StudyUnit> {
    if ts < RAMBAM_EPOCH as int {
        None
    } else {
        Some(StudyUnit::RambamOne {
            chapter: (days_from(RAMBAM_EPOCH as int, ts) % (RAMBAM_LEN_1 as int)) as u16,
        })
    }
}

/// The three-chapter-a-day Rambam entry of the day beginning at `ts`.
#[verifier::opaque]
pub open spec fn spec_rambam_three_for(ts: int) -> Option<StudyUnit> {
    if ts < RAMBAM_EPOCH as int {
        None
    } else {
        Some(StudyUnit::RambamThree {
            chapter_set: (days_from(RAMBAM_EPOCH as int, ts) % (RAMBAM_LEN_3 as int)) as u16,
        })
    }
}

/// Executable form of `spec_rambam_one_for`.
pub fn rambam_one_for(ts: i64) -> (r: Option<StudyUnit>)
    requires
        aligned(ts as int),
        ts <= calendar::TS_MAX,
    ensures
        r == spec_rambam_one_for(ts as int),
{
    proof {
        reveal(spec_rambam_one_for);
    }
    if ts < RAMBAM_EPOCH {
        None
    } else {
        let days = ((ts - RAMBAM_EPOCH) as u64) / 86400;
        Some(StudyUnit::RambamOne { chapter: (days % RAMBAM_LEN_1) as u16 })
    }
}

/// Executable form of `spec_rambam_three_for`.
pub fn rambam_three_for(ts: i64) -> (r: Option<StudyUnit>)
    requires
        aligned(ts as int),
        ts <= calendar::TS_MAX,
    ensures
        r == spec_rambam_three_for(ts as int),
{
    proof {
        reveal(spec_rambam_three_for);
    }
    if ts < RAMBAM_EPOCH {
        None
    } else {
        let days = ((ts - RAMBAM_EPOCH) as u64) / 86400;
        Some(StudyUnit::RambamThree { chapter_set: (days % RAMBAM_LEN_3) as u16 })
    }
}

/// The instant of the observed Tisha B'Av among a year's weekday
/// readings: the first entry whose reading code is the calendar crate's
/// code for the Ninth of Av.
pub open spec fn spec_find_tb(s: Seq<(u8, u8, i64)>) -> Option<i64>
    decreases s.len(),
{
    if s.len() == 0 {
        None
    } else if s[0].1 == 38 {
        Some(s[0].2)
    } else {
        spec_find_tb(s.drop_first())
    }
}

/// Finds the observed Tisha B'Av in a list of weekday readings.
fn find_tb(v: &Vec<(u8, u8, i64)>) -> (r: Option<i64>)
    ensures
        r == spec_find_tb(v@),
{
    let mut i: usize = 0;
    proof {
        assert(v@.skip(0) =~= v@);
    }
    loop
        invariant
            i <= v@.len(),
            spec_find_tb(v@) == spec_find_tb(v@.skip(i as int)),
        decreases v@.len() - i,
    {
        if i == v.len() {
            return None;
        }
        proof {
            assert(v@.skip(i as int)[0] == v@[i as int]);
            assert(v@.skip(i as int).drop_first() =~= v@.skip(i as int + 1));
        }
        if v[i].1 == 38 {
            return Some(v[i].2);
        }
        i = i + 1;
    }
}

/// The Yerushalmi Yomi entry of the day beginning at `ts`, or nothing on
/// the structurally skipped days.  With `h` the Hebrew date containing
/// `ts` and `tb` the year's observed Tisha B'Av:
/// - nothing is emitted before the cycle epoch, on the 10th of Tishrei, or
///   on the observed Tisha B'Av;
/// - otherwise the page is the number of elapsed days minus every skipped
///   day so far, modulo the cycle length.  The count of skipped Yom
///   Kippurs is one per fully elapsed year plus one more once this year's
///   has passed; likewise for Tisha B'Av, whose count starts one higher
///   because the epoch follows Tishrei but precedes Av in its own year.
#[verifier::opaque]
pub open spec fn spec_yeru_for(ts: int) -> Option<StudyUnit> {
    let ehy = spec_civil_hebrew(YERUSHALMI_EPOCH as int).0;
    let h = spec_civil_hebrew(ts);
    let tb = spec_find_tb(spec_holidays(h.0, false, 1));
    if ts <= YERUSHALMI_EPOCH as int {
        None
    } else if h.0 > MAX_WRAPPER_YEAR as int {
        None
    } else if h.1 == 0 && h.2 == 10 {
        None
    } else if tb is Some && tb->0 == ts {
        None
    } else {
        let ds = days_from(YERUSHALMI_EPOCH as int, ts);
        let ye = h.0 - ehy;
        let yk_passed: int = if h.1 == 0 && h.2 < 10 { 0 } else { 1 };
        let tb_passed: int = if tb is Some && ts >= tb->0 { 1 } else { 0 };
        let total_yk: int = if ye == 0 { 0 } else if ye == 1 { yk_passed } else { ye - 1 + yk_passed };
        let total_tb: int = if ye == 0 { tb_passed } else if ye == 1 { tb_passed + 1 } else { ye + tb_passed };
        let page = (ds - total_tb - total_yk) % (YERUSHALMI_LEN as int);
        Some(StudyUnit::Yerushalmi { page: page as u16 })
    }
}

/// Executable form of `spec_yeru_for`: obtains the Hebrew date of the day
/// and the year's observed Tisha B'Av from the calendar, then applies the
/// skip-day accounting.
pub fn yeru_for(ts: i64) -> (r: Option<StudyUnit>)
    requires
        aligned(ts as int),
        TS_MIN <= ts <= TS_MAX,
    ensures
        r == spec_yeru_for(ts as int),
{
    proof {
        reveal(spec_yeru_for);
    }
    if ts <= YERUSHALMI_EPOCH {
        return None;
    }
    let eh = match civil_to_hebrew(YERUSHALMI_EPOCH) {
        Some(eh) => eh,
        None => { return None; },
    };
    let h = match civil_to_hebrew(ts) {
        Some(h) => h,
        None => { return None; },
    };
    if h.0 > MAX_WRAPPER_YEAR {
        return None;
    }
    let chol = fetch_holidays(h.0, false, 1);
    let tb = find_tb(&chol);
    if h.1 == 0 && h.2 == 10 {
        return None;
    }
    if let Some(tb_ts) = tb {
        if tb_ts == ts {
            return None;
        }
    }
    let ds = (ts - YERUSHALMI_EPOCH) / 86400;
    let ye = h.0 as i64 - eh.0 as i64;
    let yk_passed: i64 = if h.1 == 0 && h.2 < 10 { 0 } else { 1 };
    let tb_passed: i64 = match tb {
        Some(t) => if ts >= t { 1 } else { 0 },
        None => 0,
    };
    let total_yk: i64 = if ye == 0 { 0 } else if ye == 1 { yk_passed } else { ye - 1 + yk_passed };
    let total_tb: i64 = if ye == 0 { tb_passed } else if ye == 1 { tb_passed + 1 } else { ye + tb_passed };
    let adj = ds - total_tb - total_yk;
    let page = ((adj + 1554 * 100_000) as u64) % YERUSHALMI_LEN;
    proof {
        vstd::arithmetic::div_mod::lemma_mod_multiples_vanish(
            100_000,
            adj as int,
            YERUSHALMI_LEN as int,
        );
    }
    Some(StudyUnit::Yerushalmi { page: page as u16 })
}

/// Which study cycles are subscribed.
#[derive(Clone, Copy, Debug, PartialEq, Eq, Structural)]
pub struct StudySelection {
    pub daf_yomi: bool,
    pub rambam_one: bool,
    pub rambam_three: bool,
    pub yerushalmi: bool,
}

/// A study event: the entry of one cycle for the day beginning at `ts`,
/// never a candle-lighting eve.
pub open spec fn unit_event(ts: int, u: StudyUnit) -> Event {
    Event {
        instant: ts as i64,
        name: Name::StudyUnit(u),
        candle_lighting: CandleLighting::NotApplicable,
    }
}

/// The events one cycle contributes on one day: one if the cycle is
/// subscribed and defined on that day, none otherwise.
pub open spec fn unit_seq(ts: int, enabled: bool, u: Option<StudyUnit>) -> Seq<Event> {
    if enabled && u is Some {
        seq![unit_event(ts, u->0)]
    } else {
        Seq::empty()
    }
}

/// All study events of the day beginning at `ts`, in the fixed cycle
/// order: Daf Yomi, one-chapter Rambam, three-chapter Rambam, Yerushalmi.
pub open spec fn spec_day_study(ts: int, sel: StudySelection) -> Seq<Event> {
    unit_seq(ts, sel.daf_yomi, spec_daf_for(ts)) + unit_seq(
        ts,
        sel.rambam_one,
        spec_rambam_one_for(ts),
    ) + unit_seq(ts, sel.rambam_three, spec_rambam_three_for(ts)) + unit_seq(
        ts,
        sel.yerushalmi,
        spec_yeru_for(ts),
    )
}

/// The study events of `n` consecutive days starting at `start`.
pub open spec fn spec_study_scan(start: int, n: nat, sel: StudySelection) -> Seq<Event>
    decreases n,
{
    if n == 0 {
        Seq::empty()
    } else {
        spec_day_study(start, sel) + spec_study_scan(start + 86400, (n - 1) as nat, sel)
    }
}

/// How many civil days the inclusive range of instants covers.
pub open spec fn spec_num_days(start: int, end: int) -> int {
    if end < start {
        0
    } else {
        (end - start) / 86400 + 1
    }
}

/// Scanning one more day appends that day's events.
#[verifier::rlimit(100)]
proof fn lemma_scan_snoc(start: int, n: nat, sel: StudySelection)
    ensures
        spec_study_scan(start, n + 1, sel) == spec_study_scan(start, n, sel) + spec_day_study(
            start + 86400 * n,
            sel,
        ),
    decreases n,
{
    if n == 0 {
        assert(spec_study_scan(start + 86400, 0, sel) == Seq::<Event>::empty());
        assert(spec_study_scan(start, 1, sel) =~= spec_study_scan(start, 0, sel)
            + spec_day_study(start, sel));
    } else {
        lemma_scan_snoc(start + 86400, (n - 1) as nat, sel);
        assert(spec_study_scan(start, n + 1, sel) =~= spec_study_scan(start, n, sel)
            + spec_day_study(start + 86400 * n, sel));
    }
}

/// The day-by-day study-cycle calculator: walks every civil day of the
/// inclusive range and collects, in day order and fixed cycle order, the
/// entry of each subscribed cycle.
#[verifier::rlimit(100)]
pub fn study_events(start: i64, end: i64, sel: StudySelection) -> (r: Vec<Event>)
    requires
        aligned(start as int),
        TS_MIN <= start,
        end <= TS_MAX,
    ensures
        r@ == spec_study_scan(start as int, spec_num_days(start as int, end as int) as nat, sel),
        events_in_range(r@),
{
    let mut acc: Vec<Event> = Vec::new();
    if start > end {
        return acc;
    }
    let mut i: i64 = start;
    let ghost mut k: nat = 0nat;
    while i <= end
        invariant
            aligned(i as int),
            start <= i <= end + 86400,
            end <= TS_MAX,
            TS_MIN <= start,
            i as int == start + 86400 * (k as int),
            acc@ == spec_study_scan(start as int, k, sel),
            events_in_range(acc@),
        decreases end + 86400 - i,
    {
        let ghost pre = acc@;
        if sel.daf_yomi {
            if let Some(u) = daf_for(i) {
                acc.push(Event {
                    instant: i,
                    name: Name::StudyUnit(u),
                    candle_lighting: CandleLighting::NotApplicable,
                });
            }
        }
        proof {
            assert(acc@ =~= pre + unit_seq(i as int, sel.daf_yomi, spec_daf_for(i as int)));
        }
        let ghost pre1 = acc@;
        if sel.rambam_one {
            if let Some(u) = rambam_one_for(i) {
                acc.push(Event {
                    instant: i,
                    name: Name::StudyUnit(u),
                    candle_lighting: CandleLighting::NotApplicable,
                });
            }
        }
        proof {
            assert(acc@ =~= pre1 + unit_seq(i as int, sel.rambam_one, spec_rambam_one_for(i as int)));
        }
        let ghost pre2 = acc@;
        if sel.rambam_three {
            if let Some(u) = rambam_three_for(i) {
                acc.push(Event {
                    instant: i,
                    name: Name::StudyUnit(u),
                    candle_lighting: CandleLighting::NotApplicable,
                });
            }
        }
        proof {
            assert(acc@ =~= pre2 + unit_seq(
                i as int,
                sel.rambam_three,
                spec_rambam_three_for(i as int),
            ));
        }
        let ghost pre3 = acc@;
        if sel.yerushalmi {
            if let Some(u) = yeru_for(i) {
                acc.push(Event {
                    instant: i,
                    name: Name::StudyUnit(u),
                    candle_lighting: CandleLighting::NotApplicable,
                });
            }
        }
        proof {
            assert(acc@ =~= pre3 + unit_seq(i as int, sel.yerushalmi, spec_yeru_for(i as int)));
            assert(acc@ =~= pre + spec_day_study(i as int, sel));
            lemma_scan_snoc(start as int, k, sel);
            k = k + 1;
        }
        i = i + 86400;
    }
    proof {
        if end < start {
            assert(k == 0);
        } else {
            assert(i as int == start + 86400 * (k as int));
            assert(i > end);
            assert(start + 86400 * ((k - 1) as int) <= end);
            vstd::arithmetic::div_mod::lemma_fundamental_div_mod_converse(
                end as int - start as int,
                86400,
                k as int - 1,
                end as int - (start + 86400 * (k as int - 1)),
            );
            assert(spec_num_days(start as int, end as int) == k as int);
        }
    }
    acc
}

} // verus!
