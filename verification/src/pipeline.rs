//! The range planner and the aggregate/filter/sort pipeline: turns a
//! request (a Hebrew- or Gregorian-year span) into one ordered event list.

use vstd::prelude::*;

use crate::calendar::{
    MIN_YEAR, MAX_YEAR, MAX_WRAPPER_YEAR, event_in_range, events_in_range,
    lemma_events_in_range_concat, spec_civil_hebrew, spec_date_exists, spec_hebrew_ts,
    spec_jan1_ts, civil_to_hebrew, hebrew_to_civil, jan1_ts,
};
use crate::expand::{spec_expand_year, expand_year};
use crate::study::{
    StudySelection, spec_num_days, spec_study_scan, study_events,
};
use crate::types::{Event, EventError, Return, SelectionConfig, YearType};

verus! {

/// No event of the list carries a known candle-lighting time.  No
/// generator consults a sunset source, so everything a run produces
/// satisfies this; a known time can only be attached afterwards, by
/// re-classifying an event against a sunset lookup result.
pub open spec fn no_known_times(s: Seq<Event>) -> bool {
    forall|i: int|
        0 <= i < s.len() ==> !((#[trigger] s[i]).candle_lighting is ApplicableKnown)
}

/// A permutation of an in-range list is in range.
proof fn lemma_permutation_in_range(a: Seq<Event>, b: Seq<Event>)
    requires
        a.to_multiset() == b.to_multiset(),
        events_in_range(b),
    ensures
        events_in_range(a),
{
    broadcast use vstd::seq_lib::group_to_multiset_ensures;

    assert forall|i: int| 0 <= i < a.len() implies event_in_range(#[trigger] a[i]) by {
        assert(a.contains(a[i]));
        assert(b.to_multiset().count(a[i]) > 0);
        assert(b.contains(a[i]));
        let j = choose|j: int| 0 <= j < b.len() && b[j] == a[i];
        assert(event_in_range(b[j]));
    }
}

/// A permutation of a list without known times has none either.
proof fn lemma_permutation_no_known(a: Seq<Event>, b: Seq<Event>)
    requires
        a.to_multiset() == b.to_multiset(),
        no_known_times(b),
    ensures
        no_known_times(a),
{
    broadcast use vstd::seq_lib::group_to_multiset_ensures;

    assert forall|i: int|
        0 <= i < a.len() implies !((#[trigger] a[i]).candle_lighting is ApplicableKnown) by {
        assert(a.contains(a[i]));
        assert(b.to_multiset().count(a[i]) > 0);
        assert(b.contains(a[i]));
        let j = choose|j: int| 0 <= j < b.len() && b[j] == a[i];
        assert(!(b[j].candle_lighting is ApplicableKnown));
    }
}

/// Ascending order on instants, the order of the final output.
pub open spec fn sorted_by_instant(s: Seq<Event>) -> bool {
    forall|i: int, j: int| 0 <= i < j < s.len() ==> s[i].instant <= s[j].instant
}

/// The events of `n` consecutive Hebrew years starting at `start`, each
/// year expanded under the configuration, in year order.
pub open spec fn spec_years_concat(start: int, n: nat, cfg: SelectionConfig) -> Seq<Event>
    decreases n,
{
    if n == 0 {
        Seq::empty()
    } else {
        spec_expand_year(start, cfg) + spec_years_concat(start + 1, (n - 1) as nat, cfg)
    }
}

/// Which study cycles the configuration subscribes.
pub open spec fn spec_sel_of(cfg: SelectionConfig) -> StudySelection {
    StudySelection {
        daf_yomi: cfg.daf_yomi,
        rambam_one: cfg.rambam_one,
        rambam_three: cfg.rambam_three,
        yerushalmi: cfg.yerushalmi,
    }
}

/// The study-cycle events of the civil range spanned by the Hebrew years
/// `first..=last`: from the 1st of Tishrei of the first to the 29th of
/// Elul of the last, when that range is non-empty and both endpoints
/// resolve.
pub open spec fn spec_study_part(first: int, last: int, cfg: SelectionConfig) -> Seq<Event> {
    if first <= last && spec_date_exists(first, 0, 1) && spec_date_exists(last, 13, 29) {
        let ts1 = spec_hebrew_ts(first, 0, 1);
        let ts2 = spec_hebrew_ts(last, 13, 29);
        spec_study_scan(ts1, spec_num_days(ts1, ts2) as nat, spec_sel_of(cfg))
    } else {
        Seq::empty()
    }
}

/// The Hebrew-year span a Gregorian request covers: the year containing
/// the evening of December 31 before the request, and the year containing
/// the evening of January 1 after it.
pub open spec fn spec_greg_span(y: int, n: int) -> (int, int) {
    (
        spec_civil_hebrew(spec_jan1_ts(y) - 21600).0,
        spec_civil_hebrew(spec_jan1_ts(y + n + 1) + 64800).0,
    )
}

/// Whether both endpoints of a Gregorian request convert to supported
/// Hebrew years.
pub open spec fn spec_greg_span_ok(y: int, n: int) -> bool {
    let span = spec_greg_span(y, n);
    &&& spec_jan1_ts(y) - 21600 >= -62_049_391_200
    &&& spec_jan1_ts(y + n + 1) + 64800 >= -62_049_391_200
    &&& MIN_YEAR <= span.0
    &&& span.0 <= span.1
    &&& span.1 < MAX_WRAPPER_YEAR
}

/// Whether a request names only years the calendar supports; a run that
/// fails this check aborts before any generation work.
pub open spec fn spec_request_ok(year: YearType, n: int) -> bool {
    match year {
        YearType::Hebrew(y) => MIN_YEAR <= y && y + n <= MAX_YEAR,
        YearType::Gregorian(y) => 1 <= y && y + n <= MAX_YEAR && spec_greg_span_ok(y as int, n),
    }
}

/// Everything a valid request generates, before any sorting: for a
/// Hebrew request [y, y + n] every year of the span expanded, followed by
/// the study entries (whose range ends one year earlier); for a Gregorian
/// request the covering Hebrew span expanded in full, filtered to
/// instants strictly inside the requested civil window.
pub open spec fn spec_generated(year: YearType, n: int, cfg: SelectionConfig) -> Seq<Event> {
    match year {
        YearType::Hebrew(y) => spec_years_concat(y as int, (n + 1) as nat, cfg)
            + spec_study_part(y as int, y + n - 1, cfg),
        YearType::Gregorian(y) => {
            let span = spec_greg_span(y as int, n);
            let lo = spec_jan1_ts(y as int);
            let hi = spec_jan1_ts(y + n);
            spec_window(
                spec_years_concat(span.0, (span.1 - span.0 + 1) as nat, cfg) + spec_study_part(
                    span.0,
                    span.1,
                    cfg,
                ),
                lo,
                hi,
            )
        },
    }
}

/// Relies on `rayon`'s parallel iterators (`into_par_iter`, `map`,
/// `collect`): fans the per-year expansion out across a worker pool and
/// returns the years' results concatenated in year order.  Each year is
/// produced by the verified `expand_year`, whose contract gives each
/// element of the result; the parallel map reads only the shared
/// configuration and writes only its own year's list.  Both clauses
/// restate, over the concatenation, what `expand_year`'s own contract
/// gives for every year.
#[verifier::external_body]
fn par_expand_years(start: u64, n: u64, cfg: &SelectionConfig) -> (r: Vec<Event>)
    requires
        MIN_YEAR <= start,
        start + n <= MAX_WRAPPER_YEAR,
    ensures
        r@ == spec_years_concat(start as int, n as nat, *cfg),
        events_in_range(r@),
{
    let parts: Vec<Vec<Event>> = rayon::iter::ParallelIterator::collect(
        rayon::iter::ParallelIterator::map(
            rayon::iter::IntoParallelIterator::into_par_iter(0..n),
            |x| expand_year(start + x, cfg),
        ),
    );
    parts.into_iter().flatten().collect()
}

/// Relies on `rayon::slice::ParallelSliceMut::par_sort_unstable_by`: a
/// parallel comparison sort.  Sorting by the instant field rearranges the
/// list into ascending instant order; being a sort, it keeps exactly the
/// same multiset of events (equal instants in unspecified relative
/// order).
#[verifier::external_body]
fn par_sort_by_instant(v: &mut Vec<Event>)
    ensures
        sorted_by_instant(final(v)@),
        final(v)@.to_multiset() == old(v)@.to_multiset(),
{
    rayon::slice::ParallelSliceMut::par_sort_unstable_by(
        v.as_mut_slice(),
        |a: &Event, b: &Event| i64::cmp(&a.instant, &b.instant),
    );
}

/// The subsequence of events whose instant lies strictly inside the
/// window, in their original order.
pub open spec fn spec_window(s: Seq<Event>, lo: int, hi: int) -> Seq<Event>
    decreases s.len(),
{
    if s.len() == 0 {
        Seq::empty()
    } else {
        (if lo < s[0].instant < hi {
            seq![s[0]]
        } else {
            Seq::empty()
        }) + spec_window(s.drop_first(), lo, hi)
    }
}

/// Keeps the events whose instant lies strictly inside the window.
fn filter_window(v: Vec<Event>, lo: i64, hi: i64) -> (r: Vec<Event>)
    ensures
        r@ == spec_window(v@, lo as int, hi as int),
        events_in_range(v@) ==> events_in_range(r@),
{
    let mut acc: Vec<Event> = Vec::new();
    let mut i: usize = 0;
    proof {
        assert(v@.skip(0) =~= v@);
    }
    while i < v.len()
        invariant
            i <= v@.len(),
            spec_window(v@, lo as int, hi as int) == acc@ + spec_window(
                v@.skip(i as int),
                lo as int,
                hi as int,
            ),
            events_in_range(v@) ==> events_in_range(acc@),
        decreases v@.len() - i,
    {
        proof {
            assert(v@.skip(i as int)[0] == v@[i as int]);
            assert(v@.skip(i as int).drop_first() =~= v@.skip(i as int + 1));
        }
        let e = &v[i];
        if lo < e.instant && e.instant < hi {
            acc.push(v[i].clone_event());
        }
        proof {
            assert(spec_window(v@, lo as int, hi as int) =~= acc@ + spec_window(
                v@.skip(i as int + 1),
                lo as int,
                hi as int,
            ));
        }
        i = i + 1;
    }
    proof {
        assert(v@.skip(v@.len() as int) =~= Seq::<Event>::empty());
        assert(acc@ =~= spec_window(v@, lo as int, hi as int));
    }
    acc
}

/// The whole run: validates the requested span eagerly, expands every
/// covered Hebrew year, appends the study-cycle entries, restricts a
/// Gregorian request to its civil window, and sorts ascending by instant
/// unless sorting is disabled.
///
/// Exactly the requests that name an unsupported year are refused, with
/// no partial output; for the rest, the unsorted output is precisely
/// `spec_generated`, and the sorted output is a permutation of it in
/// ascending instant order.
pub fn run_list(year: YearType, amnt_years: u64, no_sort: bool, cfg: &SelectionConfig) -> (r:
    Result<Return, EventError>)
    ensures
        r is Err <==> !spec_request_ok(year, amnt_years as int),
        r matches Err(e) ==> e == EventError::InvalidYear,
        r matches Ok(v) ==> {
            let base = spec_generated(year, amnt_years as int, *cfg);
            if no_sort {
                v.list@ == base
            } else {
                sorted_by_instant(v.list@) && v.list@.to_multiset() == base.to_multiset()
            }
        },
        r matches Ok(v) ==> events_in_range(v.list@) && no_known_times(v.list@),
{
    let n = amnt_years;
    let mut events: Vec<Event>;
    match year {
        YearType::Hebrew(y) => {
            if y < MIN_YEAR || y > MAX_YEAR || n > MAX_YEAR || y + n > MAX_YEAR {
                return Err(EventError::InvalidYear);
            }
            events = par_expand_years(y, n + 1, cfg);
            if n >= 1 {
                let mut study = study_part(y, y + n - 1, cfg);
                proof {
                    lemma_events_in_range_concat(events@, study@);
                }
                events.append(&mut study);
            } else {
                proof {
                    assert(events@ + spec_study_part(y as int, y + n - 1, *cfg) =~= events@);
                }
            }
        },
        YearType::Gregorian(y) => {
            if y < 1 || y > MAX_YEAR || n > MAX_YEAR || y + n > MAX_YEAR {
                return Err(EventError::InvalidYear);
            }
            let lo_eve = jan1_ts(y) - 21600;
            let hi_eve = jan1_ts(y + n + 1) + 64800;
            let first = match civil_to_hebrew(lo_eve) {
                Some(h) => h.0,
                None => {
                    return Err(EventError::InvalidYear);
                },
            };
            let last = match civil_to_hebrew(hi_eve) {
                Some(h) => h.0,
                None => {
                    return Err(EventError::InvalidYear);
                },
            };
            if last >= MAX_WRAPPER_YEAR || first > last {
                return Err(EventError::InvalidYear);
            }
            let mut part = par_expand_years(first, last - first + 1, cfg);
            let mut study = study_part(first, last, cfg);
            proof {
                lemma_events_in_range_concat(part@, study@);
            }
            part.append(&mut study);
            let lo = jan1_ts(y);
            let hi = jan1_ts(y + n);
            events = filter_window(part, lo, hi);
        },
    }
    proof {
        crate::laws::lemma_generated_never_known(year, amnt_years as int, *cfg);
    }
    if !no_sort {
        let ghost pre = events@;
        par_sort_by_instant(&mut events);
        proof {
            lemma_permutation_in_range(events@, pre);
            lemma_permutation_no_known(events@, pre);
        }
    }
    Ok(Return { list: events })
}

/// The study entries of the civil range spanned by the Hebrew years
/// `first..=last`, per `spec_study_part`.
fn study_part(first: u64, last: u64, cfg: &SelectionConfig) -> (r: Vec<Event>)
    requires
        MIN_YEAR <= first,
        last <= MAX_WRAPPER_YEAR,
    ensures
        r@ == spec_study_part(first as int, last as int, *cfg),
        events_in_range(r@),
{
    if first > last {
        return Vec::new();
    }
    let a = match hebrew_to_civil(first, 0, 1) {
        Some(a) => a,
        None => {
            return Vec::new();
        },
    };
    let b = match hebrew_to_civil(last, 13, 29) {
        Some(b) => b,
        None => {
            return Vec::new();
        },
    };
    let sel = StudySelection {
        daf_yomi: cfg.daf_yomi,
        rambam_one: cfg.rambam_one,
        rambam_three: cfg.rambam_three,
        yerushalmi: cfg.yerushalmi,
    };
    study_events(a, b, sel)
}

} // verus!
