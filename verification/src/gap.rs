//! The gap detector: which calendar dates since the most recent entry
//! have no log entry.

use vstd::prelude::*;

use crate::date::{spec_parse_date, parse_date, Date};
use crate::entry::MoodEntry;

verus! {

/// The number of missing dates: how many days `today` lies after
/// `latest`, and zero when it does not lie after it at all.
pub open spec fn gap_of(latest: Date, today: Date) -> int {
    if today.day_index() > latest.day_index() {
        today.day_index() - latest.day_index()
    } else {
        0
    }
}

/// What the gap detector returns: one date per missing day, most recent
/// first, from `today` itself down to the day after `latest`.
pub open spec fn is_missing_dates(result: Seq<Date>, latest: Date, today: Date) -> bool {
    &&& result.len() == gap_of(latest, today)
    &&& forall|i: int|
        0 <= i < result.len() ==> (#[trigger] result[i]).valid() && result[i].day_index()
            == today.day_index() - i
}

/// The missing-dates description admits one sequence only: two sequences
/// both meeting it for the same `latest` and `today` are equal, so the
/// contract of the gap detector names its result uniquely.
pub proof fn lemma_missing_dates_unique(r1: Seq<Date>, r2: Seq<Date>, latest: Date, today: Date)
    requires
        is_missing_dates(r1, latest, today),
        is_missing_dates(r2, latest, today),
    ensures
        r1 == r2,
{
    assert forall|i: int| 0 <= i < r1.len() implies r1[i] == r2[i] by {
        crate::date::lemma_day_index_injective(r1[i], r2[i]);
    }
    assert(r1 =~= r2);
}

/// The gap computation could not start: there is no entry to read the
/// latest date from, or its date string names no valid date.
#[derive(Debug, Clone, Copy, PartialEq, Eq, Structural)]
pub enum GapError {
    /// The parsed entry sequence is empty.
    NoEntries,
    /// The first entry's `full_date` is not a valid date string.
    InvalidDate,
}

/// The dates from `today` back through the day after `latest`, most
/// recent first; empty when `today` is `latest` itself or earlier.
///
/// Were stepping back a day ever to leave the supported date range, the
/// accumulation would be abandoned and the empty sequence returned; with
/// a valid `latest` below the dates produced, that never fires.
pub fn missing_dates(latest: &Date, today: &Date) -> (r: Vec<Date>)
    requires
        latest.valid(),
        today.valid(),
    ensures
        is_missing_dates(r@, *latest, *today),
        *latest == *today ==> r@.len() == 0,
{
    let tn = today.day_number();
    let ln = latest.day_number();
    if tn <= ln {
        return Vec::new();
    }
    let gap = tn - ln;
    let mut result: Vec<Date> = Vec::new();
    let mut cur: Date = *today;
    let mut i: u32 = 0;
    while i < gap
        invariant
            latest.valid(),
            today.valid(),
            cur.valid(),
            gap == today.day_index() - latest.day_index(),
            0 <= i <= gap,
            result@.len() == i,
            cur.day_index() == today.day_index() - i,
            forall|j: int|
                0 <= j < i ==> (#[trigger] result@[j]).valid() && result@[j].day_index()
                    == today.day_index() - j,
        decreases gap - i,
    {
        let ghost old_result = result@;
        result.push(cur);
        proof {
            assert(result@ =~= old_result.push(cur));
            assert forall|j: int|
                0 <= j < i + 1 implies (#[trigger] result@[j]).valid() && result@[j].day_index()
                == today.day_index() - j by {
                if j < i {
                    assert(result@[j] == old_result[j]);
                    assert(old_result[j].valid() && old_result[j].day_index() == today.day_index()
                        - j);
                } else {
                    assert(result@[j] == cur);
                }
            }
        }
        match cur.prev_day() {
            Some(p) => {
                cur = p;
            },
            None => {
                proof {
                    crate::date::lemma_day_index_pos(*latest);
                }
                return Vec::new();
            },
        }
        i = i + 1;
    }
    result
}

/// Read the latest entry date from the parsed entries and report the
/// missing dates up to `today`. An empty entry sequence and an
/// unparseable latest date are reported as errors, each its own.
pub fn get_missing_entry_dates(entries: &Vec<MoodEntry>, today: &Date) -> (r: Result<
    Vec<Date>,
    GapError,
>)
    requires
        today.valid(),
    ensures
        entries@.len() == 0 <==> r == Result::<Vec<Date>, GapError>::Err(GapError::NoEntries),
        entries@.len() > 0 && spec_parse_date(entries@[0]@.full_date) is None <==> r
            == Result::<Vec<Date>, GapError>::Err(GapError::InvalidDate),
        entries@.len() > 0 && spec_parse_date(entries@[0]@.full_date) is Some ==> (r matches Result::Ok(v)
            && is_missing_dates(v@, spec_parse_date(entries@[0]@.full_date)->0, *today)),
    {
    if entries.len() == 0 {
        return Result::Err(GapError::NoEntries);
    }
    match parse_date(entries[0].full_date.as_str()) {
        Some(latest) => Result::Ok(missing_dates(&latest, today)),
        None => Result::Err(GapError::InvalidDate),
    }
}

} // verus!
