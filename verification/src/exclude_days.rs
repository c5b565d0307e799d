//! The excluded days: what the user wants left out when the daily goal is
//! recalculated.

use vstd::prelude::*;
use crate::calendar::{date_text, Date};
use crate::error::EngineError;
use crate::exclusions::{
    all_dated, entries_of, excluded_dates, is_stale_id, lemma_pruning_removes_the_stale,
    plan_exclusion, pruning_error, row_date, stale_entries, stale_ids, ExclusionRow,
    ExclusionWrite,
};

verus! {

/// The number of days for which an excluded day is kept: an older day no longer
/// lies among the days that the daily goal is taken from.
pub const DAY_RETENTION: u64 = 7;

/// The excluded days that the store holds, in its order and stale ones
/// included: reading prunes nothing. Where a row holds no date the result is
/// `MalformedDate`.
pub fn get_excluded_days(rows: &Vec<ExclusionRow>) -> (days: Result<Vec<Date>, EngineError>)
    ensures
        days is Ok <==> all_dated(rows@),
        days is Err ==> days == Err::<Vec<Date>, EngineError>(EngineError::MalformedDate),
        days matches Ok(found) ==> {
            &&& found@.len() == rows@.len()
            &&& forall|i: int|
                0 <= i < found@.len() ==> row_date(rows@[i]) == Some((#[trigger] found@[i])@)
        },
{
    excluded_dates(rows)
}

/// The rows to remove on the day `today`: the ids, in the order of the store,
/// of the excluded days dated strictly more than 7 days back.
///
/// The result is `DateOutOfRange` where the day 7 days before `today` lies
/// before the calendar, and otherwise `MalformedDate` where a row holds no
/// date.
pub fn remove_old_days(rows: &Vec<ExclusionRow>, today: &Date) -> (ids: Result<Vec<i32>, EngineError>)
    ensures
        match pruning_error(rows@, today@, DAY_RETENTION as int) {
            Some(error) => ids == Err::<Vec<i32>, EngineError>(error),
            None => ids matches Ok(found) && found@ == stale_ids(
                entries_of(rows@),
                today@ - DAY_RETENTION,
                rows@.len(),
            ),
        },
{
    stale_entries(rows, today, DAY_RETENTION)
}

/// What excluding the day `day` on the day `today` does to the store: `day` is
/// added, and then the excluded days dated strictly more than 7 days back are
/// removed, the one just added among them if it is that old itself. A row
/// dated exactly 7 days back stays, and so does every younger one.
///
/// The result is `DateOutOfRange` where the day 7 days before `today` lies
/// before the calendar, and otherwise `MalformedDate` where a row holds no
/// date.
pub fn exclude_day(rows: &Vec<ExclusionRow>, day: &Date, today: &Date) -> (write: Result<
    ExclusionWrite,
    EngineError,
>)
    ensures
        match pruning_error(rows@, today@, DAY_RETENTION as int) {
            Some(error) => write == Err::<ExclusionWrite, EngineError>(error),
            None => write matches Ok(w) && {
                &&& w.insert@ == date_text(day@)
                &&& w.delete@ == stale_ids(entries_of(rows@), today@ - DAY_RETENTION, rows@.len())
                &&& w.delete_inserted == (day@ < today@ - DAY_RETENTION)
                &&& forall|i: int|
                    0 <= i < rows@.len() && (#[trigger] entries_of(rows@)[i]).day < today@
                        - DAY_RETENTION ==> w.delete@.contains(rows@[i].id)
                &&& forall|j: int|
                    0 <= j < w.delete@.len() ==> is_stale_id(
                        entries_of(rows@),
                        today@ - DAY_RETENTION,
                        rows@.len(),
                        #[trigger] w.delete@[j],
                    )
            },
        },
{
    proof {
        lemma_pruning_removes_the_stale(entries_of(rows@), today@ - DAY_RETENTION, rows@.len());
    }
    plan_exclusion(rows, day, today, DAY_RETENTION)
}

} // verus!
