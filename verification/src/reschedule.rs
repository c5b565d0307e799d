//! Rescheduling: the new due date of a task that is postponed by some days or
//! pulled forward to today.
//!
//! A due date with a time keeps its time of day exactly and is written with
//! its time; a due date without one is written as a day. The language and the
//! display text of the due date go along unchanged.

use vstd::prelude::*;
use crate::calendar::{date_text, date_time_text, format_date_time, Date};
use crate::due::{due_date_time_from_text, due_from_text, has_char, parse_due, parse_due_date_time};
use crate::error::EngineError;
use crate::filter_tasks::Task;
use crate::update_task::{due_update_for, is_update_of, DueUpdate};

verus! {

/// The text of the due date `text` postponed by `days` days, or why there is
/// none: the text holds no due date, or the days are fewer than none, or the
/// new day lies beyond the calendar.
pub open spec fn postponed_text(text: Seq<char>, days: int) -> Result<Seq<char>, EngineError> {
    match due_from_text(text) {
        None => Err(EngineError::MalformedDate),
        Some(due) => if days < 0 {
            Err(EngineError::DateOutOfRange)
        } else {
            match due.plus_days(days) {
                None => Err(EngineError::DateOutOfRange),
                Some(later) => Ok(later.text()),
            }
        },
    }
}

/// The text of the due date `text` pulled to the day `today`, or
/// `MalformedDate` where the text should hold a time and does not. A due date
/// without a time becomes today, whatever its text held.
pub open spec fn pulled_text(text: Seq<char>, today: int) -> Result<Seq<char>, EngineError> {
    if text.contains('T') {
        match due_date_time_from_text(text) {
            None => Err(EngineError::MalformedDate),
            Some((_, secs, nano)) => Ok(date_time_text(today, secs, nano)),
        }
    } else {
        Ok(date_text(today))
    }
}

/// Whether `update` is the outcome `wanted` for `task`: the same refusal, or
/// an update of the task to the due date wanted.
pub open spec fn is_outcome_for(
    update: Result<DueUpdate, EngineError>,
    task: Task,
    wanted: Result<Seq<char>, EngineError>,
) -> bool {
    match wanted {
        Ok(due_date) => update matches Ok(u) && is_update_of(u, task, due_date),
        Err(error) => update == Err::<DueUpdate, EngineError>(error),
    }
}

/// Postpones a task by `days` days: the update that moves its due date that
/// many days on. See [`postponed_text`] for the new due date, and for the
/// tasks that cannot be postponed.
pub fn postpone_task_by_days(t: &Task, days: i8) -> (update: Result<DueUpdate, EngineError>)
    ensures
        is_outcome_for(update, *t, postponed_text(t.due.date@, days as int)),
{
    let due = match parse_due(&t.due.date) {
        Ok(due) => due,
        Err(_) => {
            return Err(EngineError::MalformedDate);
        },
    };
    if days < 0 {
        return Err(EngineError::DateOutOfRange);
    }
    match due.checked_add_days(days as u64) {
        Some(later) => Ok(due_update_for(t, later.to_text())),
        None => Err(EngineError::DateOutOfRange),
    }
}

/// Postpones a task to the day after its due date.
pub fn postpone_task_to_tomorrow(t: &Task) -> (update: Result<DueUpdate, EngineError>)
    ensures
        is_outcome_for(update, *t, postponed_text(t.due.date@, 1)),
{
    postpone_task_by_days(t, 1)
}

/// Pulls a task to `today`: the update that puts its due date on that day.
/// No days are counted: whatever day the task was due, it is due today. See
/// [`pulled_text`] for the new due date.
pub fn pull_task_to_today(t: &Task, today: &Date) -> (update: Result<DueUpdate, EngineError>)
    ensures
        is_outcome_for(update, *t, pulled_text(t.due.date@, today@)),
{
    if has_char(t.due.date.as_str(), 'T') {
        match parse_due_date_time(&t.due.date) {
            Ok((_, time)) => Ok(due_update_for(t, format_date_time(today, &time))),
            Err(_) => Err(EngineError::MalformedDate),
        }
    } else {
        Ok(due_update_for(t, today.to_text()))
    }
}

/// Pulls every overdue task to `today`: for each task, in the order of the
/// list, the update that [`pull_task_to_today`] gives, or why it gives none.
pub fn overdue(overdue_tasks: &Vec<Task>, today: &Date) -> (updates: Vec<
    Result<DueUpdate, EngineError>,
>)
    ensures
        updates@.len() == overdue_tasks@.len(),
        forall|i: int|
            0 <= i < updates@.len() ==> is_outcome_for(
                #[trigger] updates@[i],
                overdue_tasks@[i],
                pulled_text(overdue_tasks@[i].due.date@, today@),
            ),
{
    let mut updates: Vec<Result<DueUpdate, EngineError>> = Vec::new();
    let mut i: usize = 0;
    while i < overdue_tasks.len()
        invariant
            i <= overdue_tasks.len(),
            updates@.len() == i,
            forall|j: int|
                0 <= j < i ==> is_outcome_for(
                    #[trigger] updates@[j],
                    overdue_tasks@[j],
                    pulled_text(overdue_tasks@[j].due.date@, today@),
                ),
        decreases overdue_tasks.len() - i,
    {
        updates.push(pull_task_to_today(&overdue_tasks[i], today));
        i = i + 1;
    }
    updates
}

} // verus!
