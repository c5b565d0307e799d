//! The excluded weeks: what the user wants left out when the weekly goal is
//! recalculated.

use vstd::prelude::*;
use crate::calendar::{date_format, date_from_text, date_text, days_since_monday, Date};
use crate::error::EngineError;
use crate::exclusions::{
    all_dated, entries_of, excluded_dates, is_stale_id, lemma_pruning_removes_the_stale,
    plan_exclusion, pruning_error, row_date, stale_entries, stale_ids, ExclusionRow,
    ExclusionWrite,
};

verus! {

/// The number of days for which an excluded week is kept: five weeks, after which
/// a week no longer lies among the weeks that the weekly goal is taken from.
pub const WEEK_RETENTION: u64 = 35;

/// The excluded weeks that the store holds, in its order and stale ones
/// included: reading prunes nothing. Where a row holds no date the result is
/// `MalformedDate`.
pub fn get_excluded_weeks(rows: &Vec<ExclusionRow>) -> (weeks: Result<Vec<Date>, EngineError>)
    ensures
        weeks is Ok <==> all_dated(rows@),
        weeks is Err ==> weeks == Err::<Vec<Date>, EngineError>(EngineError::MalformedDate),
        weeks matches Ok(found) ==> {
            &&& found@.len() == rows@.len()
            &&& forall|i: int|
                0 <= i < found@.len() ==> row_date(rows@[i]) == Some((#[trigger] found@[i])@)
        },
{
    excluded_dates(rows)
}

/// The rows to remove on the day `today`: the ids, in the order of the store,
/// of the excluded weeks dated strictly more than 35 days back.
///
/// The result is `DateOutOfRange` where the day 35 days before `today` lies
/// before the calendar, and otherwise `MalformedDate` where a row holds no
/// date.
pub fn remove_old_weeks(rows: &Vec<ExclusionRow>, today: &Date) -> (ids: Result<Vec<i32>, EngineError>)
    ensures
        match pruning_error(rows@, today@, WEEK_RETENTION as int) {
            Some(error) => ids == Err::<Vec<i32>, EngineError>(error),
            None => ids matches Ok(found) && found@ == stale_ids(
                entries_of(rows@),
                today@ - WEEK_RETENTION,
                rows@.len(),
            ),
        },
{
    stale_entries(rows, today, WEEK_RETENTION)
}

/// What excluding the week that starts on the Monday `week` on the day `today` does to the store: `week` is
/// added, and then the excluded weeks dated strictly more than 35 days back are
/// removed, the one just added among them if it is that old itself. A row
/// dated exactly 35 days back stays, and so does every younger one.
///
/// The result is `DateOutOfRange` where the day 35 days before `today` lies
/// before the calendar, and otherwise `MalformedDate` where a row holds no
/// date.
pub fn exclude_week(rows: &Vec<ExclusionRow>, week: &Date, today: &Date) -> (write: Result<
    ExclusionWrite,
    EngineError,
>)
    ensures
        match pruning_error(rows@, today@, WEEK_RETENTION as int) {
            Some(error) => write == Err::<ExclusionWrite, EngineError>(error),
            None => write matches Ok(w) && {
                &&& w.insert@ == date_text(week@)
                &&& w.delete@ == stale_ids(entries_of(rows@), today@ - WEEK_RETENTION, rows@.len())
                &&& w.delete_inserted == (week@ < today@ - WEEK_RETENTION)
                &&& forall|i: int|
                    0 <= i < rows@.len() && (#[trigger] entries_of(rows@)[i]).day < today@
                        - WEEK_RETENTION ==> w.delete@.contains(rows@[i].id)
                &&& forall|j: int|
                    0 <= j < w.delete@.len() ==> is_stale_id(
                        entries_of(rows@),
                        today@ - WEEK_RETENTION,
                        rows@.len(),
                        #[trigger] w.delete@[j],
                    )
            },
        },
{
    proof {
        lemma_pruning_removes_the_stale(entries_of(rows@), today@ - WEEK_RETENTION, rows@.len());
    }
    plan_exclusion(rows, week, today, WEEK_RETENTION)
}

/// Reads the date that the user gave for a week to exclude. A week is named by
/// the Monday it starts on: the result is `MalformedDate` where the text is
/// no date, and `NotAMonday` where the date is another day of the week.
pub fn week_to_exclude(text: &str) -> (week: Result<Date, EngineError>)
    ensures
        match date_from_text(text@, date_format()) {
            None => week == Err::<Date, EngineError>(EngineError::MalformedDate),
            Some(day) => if days_since_monday(day) == 0 {
                week matches Ok(monday) && monday@ == day
            } else {
                week == Err::<Date, EngineError>(EngineError::NotAMonday)
            },
        },
{
    match Date::parse(text) {
        Ok(day) => {
            if day.is_monday() {
                Ok(day)
            } else {
                Err(EngineError::NotAMonday)
            }
        },
        Err(_) => Err(EngineError::MalformedDate),
    }
}

} // verus!
