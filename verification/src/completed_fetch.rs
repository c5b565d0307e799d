//! Completion statistics as the task service reports them.

use vstd::prelude::*;
use crate::error::EngineError;

verus! {

/// The goals currently configured.
#[derive(Clone, Copy, Debug, PartialEq, Eq, Structural)]
pub struct Goals {
    pub daily_goal: i32,
    pub weekly_goal: i32,
}

/// The number of tasks completed on one day. `date` is written as
/// `2024-01-15`.
#[derive(Clone, Debug, PartialEq, Eq)]
pub struct DayItem {
    pub date: String,
    pub total_completed: i32,
}

/// The number of tasks completed in the week that starts on the Monday
/// `from`.
#[derive(Clone, Debug, PartialEq, Eq)]
pub struct WeekItem {
    pub from: String,
    pub total_completed: i32,
}

/// One snapshot of the statistics. The days come in no particular order.
#[derive(Clone, Debug, PartialEq, Eq)]
pub struct CompletedStats {
    pub days_items: Vec<DayItem>,
    pub week_items: Vec<WeekItem>,
    pub goals: Goals,
}

/// The number of tasks completed over the first `n` days of `days`.
pub open spec fn completed_over(days: Seq<DayItem>, n: nat) -> int
    decreases n,
{
    if n == 0 {
        0
    } else {
        completed_over(days, (n - 1) as nat) + days[n - 1].total_completed
    }
}

/// The progress on the floating week: the number of tasks completed over all
/// the days of the snapshot, whichever calendar week they fall in.
pub open spec fn floating_week_progress(days: Seq<DayItem>) -> int {
    completed_over(days, days.len())
}

/// The sum over any number of days stays within 32 bits per day.
proof fn lemma_completed_over_bounds(days: Seq<DayItem>, n: nat)
    requires
        n <= days.len(),
    ensures
        n * (i32::MIN as int) <= completed_over(days, n) <= n * (i32::MAX as int),
    decreases n,
{
    if n > 0 {
        lemma_completed_over_bounds(days, (n - 1) as nat);
        assert((n - 1) * (i32::MIN as int) + (i32::MIN as int) == n * (i32::MIN as int))
            by (nonlinear_arith);
        assert((n - 1) * (i32::MAX as int) + (i32::MAX as int) == n * (i32::MAX as int))
            by (nonlinear_arith);
    }
}

/// The progress on the floating week, or `CountOverflow` where the sum does
/// not fit in 32 bits.
pub fn calculate_progress_on_floating_week(stats: &CompletedStats) -> (progress: Result<
    i32,
    EngineError,
>)
    ensures
        progress is Ok <==> i32::MIN <= floating_week_progress(stats.days_items@) <= i32::MAX,
        progress matches Ok(sum) ==> sum == floating_week_progress(stats.days_items@),
        progress is Err ==> progress == Err::<i32, EngineError>(EngineError::CountOverflow),
{
    let mut sum: i128 = 0;
    let mut i: usize = 0;
    while i < stats.days_items.len()
        invariant
            i <= stats.days_items.len(),
            sum == completed_over(stats.days_items@, i as nat),
            i * (i32::MIN as int) <= sum <= i * (i32::MAX as int),
        decreases stats.days_items.len() - i,
    {
        proof {
            lemma_completed_over_bounds(stats.days_items@, (i + 1) as nat);
            assert(i * (i32::MIN as int) >= (usize::MAX as int) * (i32::MIN as int))
                by (nonlinear_arith)
                requires
                    0 <= i <= usize::MAX,
            ;
            assert(i * (i32::MAX as int) <= (usize::MAX as int) * (i32::MAX as int))
                by (nonlinear_arith)
                requires
                    0 <= i <= usize::MAX,
            ;
        }
        sum = sum + stats.days_items[i].total_completed as i128;
        i = i + 1;
    }
    if sum < i32::MIN as i128 || sum > i32::MAX as i128 {
        Err(EngineError::CountOverflow)
    } else {
        Ok(sum as i32)
    }
}

} // verus!
