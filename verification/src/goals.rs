//! Goal recalculation: the daily and weekly goal that recent completion
//! counts recommend.
//!
//! A goal is recalculated from the periods of a snapshot (days or weeks)
//! other than the current one and those the user has excluded. The lowest
//! count among them is the recommended goal; among equal counts the first
//! period of the snapshot wins.

use vstd::prelude::*;
use crate::calendar::{date_text, monday_of, Date};
use crate::completed_fetch::{CompletedStats, DayItem, WeekItem};
use crate::error::EngineError;

verus! {

/// A period of the statistics: a label that says which day or week it is, and
/// the number of tasks completed in it.
pub trait Completed {
    /// The text that names the period.
    spec fn label_of(&self) -> Seq<char>;

    /// The number of tasks completed in the period.
    spec fn count_of(&self) -> int;

    /// The text that names the period.
    fn label(&self) -> (text: &String)
        ensures
            text@ == self.label_of(),
    ;

    /// The number of tasks completed in the period.
    fn count(&self) -> (count: i32)
        ensures
            count == self.count_of(),
    ;
}

impl Completed for DayItem {
    open spec fn label_of(&self) -> Seq<char> {
        self.date@
    }

    open spec fn count_of(&self) -> int {
        self.total_completed as int
    }

    fn label(&self) -> (text: &String) {
        &self.date
    }

    fn count(&self) -> (count: i32) {
        self.total_completed
    }
}

impl Completed for WeekItem {
    open spec fn label_of(&self) -> Seq<char> {
        self.from@
    }

    open spec fn count_of(&self) -> int {
        self.total_completed as int
    }

    fn label(&self) -> (text: &String) {
        &self.from
    }

    fn count(&self) -> (count: i32) {
        self.total_completed
    }
}

/// The texts held by a sequence of strings.
pub open spec fn texts_of(strings: Seq<String>) -> Seq<Seq<char>> {
    strings.map_values(|s: String| s@)
}

/// The texts of a sequence of dates, each written as year, month and day.
pub open spec fn date_texts(dates: Seq<Date>) -> Seq<Seq<char>> {
    dates.map_values(|d: Date| date_text(d@))
}

/// Whether period `i` counts towards the goal: it is neither the current
/// period nor an excluded one.
pub open spec fn is_eligible<T: Completed>(
    items: Seq<T>,
    current: Seq<char>,
    excluded: Seq<Seq<char>>,
    i: int,
) -> bool {
    &&& 0 <= i < items.len()
    &&& items[i].label_of() != current
    &&& !excluded.contains(items[i].label_of())
}

/// Whether period `k` is the one the goal is taken from: it counts towards
/// the goal, no period that counts has a lower count, and every period before
/// it that counts has a higher one.
pub open spec fn is_first_lowest<T: Completed>(
    items: Seq<T>,
    current: Seq<char>,
    excluded: Seq<Seq<char>>,
    k: int,
) -> bool {
    &&& is_eligible(items, current, excluded, k)
    &&& forall|i: int| #[trigger]
        is_eligible(items, current, excluded, i) ==> items[k].count_of() <= items[i].count_of()
    &&& forall|i: int|
        i < k && #[trigger] is_eligible(items, current, excluded, i) ==> items[k].count_of()
            < items[i].count_of()
}

/// Whether no period counts towards the goal.
pub open spec fn none_eligible<T: Completed>(
    items: Seq<T>,
    current: Seq<char>,
    excluded: Seq<Seq<char>>,
) -> bool {
    forall|i: int| !#[trigger] is_eligible(items, current, excluded, i)
}

/// What the recalculation says of a goal.
#[derive(Clone, Debug, PartialEq, Eq)]
pub enum GoalAdvice {
    /// Every period is the current one or excluded: nothing to go by.
    AllExcluded,
    /// The lowest count is the goal already.
    GoalCorrect,
    /// The goal should become `goal`, the count of the period `from`.
    NewGoal { goal: i32, from: String },
}

/// Whether `advice` is what the periods `items` say of the goal `goal`.
pub open spec fn is_advice_for<T: Completed>(
    items: Seq<T>,
    current: Seq<char>,
    excluded: Seq<Seq<char>>,
    goal: int,
    advice: GoalAdvice,
) -> bool {
    match advice {
        GoalAdvice::AllExcluded => none_eligible(items, current, excluded),
        GoalAdvice::GoalCorrect => exists|k: int|
            #[trigger] is_first_lowest(items, current, excluded, k) && items[k].count_of() == goal,
        GoalAdvice::NewGoal { goal: new_goal, from } => exists|k: int|
            #[trigger] is_first_lowest(items, current, excluded, k) && items[k].count_of()
                == new_goal && new_goal != goal && from@ == items[k].label_of(),
    }
}

/// The period that a goal is taken from is unique: the same snapshot, current
/// period and exclusions always lead to the same period, also where several
/// periods share the lowest count.
pub proof fn lemma_first_lowest_is_unique<T: Completed>(
    items: Seq<T>,
    current: Seq<char>,
    excluded: Seq<Seq<char>>,
    k1: int,
    k2: int,
)
    requires
        is_first_lowest(items, current, excluded, k1),
        is_first_lowest(items, current, excluded, k2),
    ensures
        k1 == k2,
{
}

/// The period that a goal is taken from holds the true minimum of the counts
/// that take part, and a period exists to take the goal from exactly when
/// some period takes part.
pub proof fn lemma_first_lowest_is_minimum<T: Completed>(
    items: Seq<T>,
    current: Seq<char>,
    excluded: Seq<Seq<char>>,
    k: int,
    i: int,
)
    requires
        is_first_lowest(items, current, excluded, k),
        is_eligible(items, current, excluded, i),
    ensures
        items[k].count_of() <= items[i].count_of(),
        !none_eligible(items, current, excluded),
{
}

/// Whether `text` is one of `texts`.
pub fn is_listed(texts: &Vec<String>, text: &String) -> (listed: bool)
    ensures
        listed == texts_of(texts@).contains(text@),
{
    let mut i: usize = 0;
    while i < texts.len()
        invariant
            i <= texts.len(),
            forall|j: int| 0 <= j < i ==> texts_of(texts@)[j] != text@,
        decreases texts.len() - i,
    {
        if texts[i] == *text {
            assert(texts_of(texts@)[i as int] == text@);
            return true;
        }
        i = i + 1;
    }
    false
}

/// Finds the period that the goal is taken from: the first of the periods
/// with the lowest count among those that are neither `current` nor
/// `excluded`.
pub fn find_first_lowest<T: Completed>(items: &Vec<T>, current: &String, excluded: &Vec<String>)
    -> (found: Option<usize>)
    ensures
        found is None <==> none_eligible(items@, current@, texts_of(excluded@)),
        found matches Some(k) ==> is_first_lowest(items@, current@, texts_of(excluded@), k as int),
{
    let mut best: Option<usize> = None;
    let mut i: usize = 0;
    while i < items.len()
        invariant
            i <= items.len(),
            best is None ==> forall|j: int|
                j < i ==> !#[trigger] is_eligible(items@, current@, texts_of(excluded@), j),
            best matches Some(k) ==> {
                &&& k < i
                &&& is_eligible(items@, current@, texts_of(excluded@), k as int)
                &&& forall|j: int|
                    j < i && #[trigger] is_eligible(items@, current@, texts_of(excluded@), j)
                        ==> items@[k as int].count_of() <= items@[j].count_of()
                &&& forall|j: int|
                    j < k && #[trigger] is_eligible(items@, current@, texts_of(excluded@), j)
                        ==> items@[k as int].count_of() < items@[j].count_of()
            },
        decreases items.len() - i,
    {
        let label = items[i].label();
        if !(*label == *current) && !is_listed(excluded, label) {
            match best {
                None => {
                    best = Some(i);
                },
                Some(k) => {
                    if items[i].count() < items[k].count() {
                        best = Some(i);
                    }
                },
            }
        }
        i = i + 1;
    }
    best
}

/// The advice on a goal that stands at `goal`, from the periods `items`.
fn advise<T: Completed>(items: &Vec<T>, current: &String, excluded: &Vec<String>, goal: i32) -> (advice:
    GoalAdvice)
    ensures
        is_advice_for(items@, current@, texts_of(excluded@), goal as int, advice),
{
    match find_first_lowest(items, current, excluded) {
        None => GoalAdvice::AllExcluded,
        Some(k) => {
            let lowest: i32 = items[k].count();
            if lowest == goal {
                GoalAdvice::GoalCorrect
            } else {
                GoalAdvice::NewGoal { goal: lowest, from: items[k].label().clone() }
            }
        },
    }
}

/// The advice on the daily goal. `today` is today's date as the statistics
/// write it; `excluded_days` are the days to leave out, written the same way.
///
/// Today and the excluded days take no part. Where no day is left the advice
/// is `AllExcluded`. Otherwise the goal is compared with the lowest count of
/// the remaining days, taken from the first day that has it.
pub fn daily_goal_advice(stats: &CompletedStats, today: &String, excluded_days: &Vec<String>) -> (advice:
    GoalAdvice)
    ensures
        is_advice_for(
            stats.days_items@,
            today@,
            texts_of(excluded_days@),
            stats.goals.daily_goal as int,
            advice,
        ),
{
    advise(&stats.days_items, today, excluded_days, stats.goals.daily_goal)
}

/// The advice on the weekly goal. `week_start` is the Monday of the current
/// week as the statistics write it; `excluded_weeks` are the Mondays of the
/// weeks to leave out.
///
/// The current week and the excluded weeks take no part. Where no week is
/// left there is nothing to compare the goal with, and the result is
/// `NoWeekLeft`. Otherwise the goal is compared with the lowest count of the
/// remaining weeks, taken from the first week that has it.
pub fn weekly_goal_advice(stats: &CompletedStats, week_start: &String, excluded_weeks: &Vec<String>)
    -> (advice: Result<GoalAdvice, EngineError>)
    ensures
        advice is Err <==> none_eligible(stats.week_items@, week_start@, texts_of(excluded_weeks@)),
        advice is Err ==> advice == Err::<GoalAdvice, EngineError>(EngineError::NoWeekLeft),
        advice matches Ok(a) ==> a != GoalAdvice::AllExcluded && is_advice_for(
            stats.week_items@,
            week_start@,
            texts_of(excluded_weeks@),
            stats.goals.weekly_goal as int,
            a,
        ),
{
    let advice = advise(&stats.week_items, week_start, excluded_weeks, stats.goals.weekly_goal);
    match advice {
        GoalAdvice::AllExcluded => Err(EngineError::NoWeekLeft),
        _ => Ok(advice),
    }
}

/// Writes each date as year, month and day.
pub fn dates_to_texts(dates: &Vec<Date>) -> (texts: Vec<String>)
    ensures
        texts_of(texts@) == date_texts(dates@),
{
    let mut texts: Vec<String> = Vec::new();
    let mut i: usize = 0;
    while i < dates.len()
        invariant
            i <= dates.len(),
            texts.len() == i,
            forall|j: int| 0 <= j < i ==> texts@[j]@ == date_text(dates@[j]@),
        decreases dates.len() - i,
    {
        texts.push(dates[i].to_text());
        i = i + 1;
    }
    assert(texts_of(texts@) =~= date_texts(dates@));
    texts
}

/// The advice on the daily goal for the day `today`, leaving out the days
/// `excluded_days`. The dates are compared with those of the statistics in
/// their written form.
pub fn recommend_daily_goal(stats: &CompletedStats, today: &Date, excluded_days: &Vec<Date>) -> (advice:
    GoalAdvice)
    ensures
        is_advice_for(
            stats.days_items@,
            date_text(today@),
            date_texts(excluded_days@),
            stats.goals.daily_goal as int,
            advice,
        ),
{
    let today_text = today.to_text();
    let excluded = dates_to_texts(excluded_days);
    daily_goal_advice(stats, &today_text, &excluded)
}

/// The advice on the weekly goal in the week of `today`, leaving out the weeks
/// that start on the Mondays `excluded_weeks`.
///
/// The result is `DateOutOfRange` where the Monday of the current week lies
/// before the calendar, and `NoWeekLeft` where every week is the current one
/// or excluded.
pub fn recommend_weekly_goal(stats: &CompletedStats, today: &Date, excluded_weeks: &Vec<Date>)
    -> (advice: Result<GoalAdvice, EngineError>)
    ensures
        monday_of(today@) is None ==> advice == Err::<GoalAdvice, EngineError>(
            EngineError::DateOutOfRange,
        ),
        monday_of(today@) matches Some(monday) ==> {
            &&& advice is Err <==> none_eligible(
                stats.week_items@,
                date_text(monday),
                date_texts(excluded_weeks@),
            )
            &&& advice is Err ==> advice == Err::<GoalAdvice, EngineError>(EngineError::NoWeekLeft)
            &&& advice matches Ok(a) ==> a != GoalAdvice::AllExcluded && is_advice_for(
                stats.week_items@,
                date_text(monday),
                date_texts(excluded_weeks@),
                stats.goals.weekly_goal as int,
                a,
            )
        },
{
    match today.week_start() {
        None => Err(EngineError::DateOutOfRange),
        Some(monday) => {
            let week_start = monday.to_text();
            let excluded = dates_to_texts(excluded_weeks);
            weekly_goal_advice(stats, &week_start, &excluded)
        },
    }
}

/// Whether `k` is the first day of `days` whose date is written `today`.
pub open spec fn is_entry_of_today(days: Seq<DayItem>, today: Seq<char>, k: int) -> bool {
    &&& 0 <= k < days.len()
    &&& days[k].date@ == today
    &&& forall|i: int| 0 <= i < k ==> days[i].date@ != today
}

/// The number of tasks completed today: the count of the first day of the
/// statistics whose date is `today`. A snapshot without such a day breaks the
/// service's promise, and the result is `MissingToday`.
pub fn done_today(stats: &CompletedStats, today: &String) -> (done: Result<i32, EngineError>)
    ensures
        done is Err <==> forall|i: int|
            0 <= i < stats.days_items@.len() ==> stats.days_items@[i].date@ != today@,
        done is Err ==> done == Err::<i32, EngineError>(EngineError::MissingToday),
        done matches Ok(count) ==> exists|k: int| #[trigger]
            is_entry_of_today(stats.days_items@, today@, k) && count
                == stats.days_items@[k].total_completed,
{
    let mut i: usize = 0;
    while i < stats.days_items.len()
        invariant
            i <= stats.days_items.len(),
            forall|j: int| 0 <= j < i ==> stats.days_items@[j].date@ != today@,
        decreases stats.days_items.len() - i,
    {
        if stats.days_items[i].date == *today {
            assert(is_entry_of_today(stats.days_items@, today@, i as int));
            return Ok(stats.days_items[i].total_completed);
        }
        i = i + 1;
    }
    Err(EngineError::MissingToday)
}

} // verus!
