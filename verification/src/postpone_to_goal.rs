//! Postponing to the goal: how many of today's tasks to move to tomorrow so
//! that today carries what the week still needs, and no more.

use vstd::prelude::*;
use crate::completed_fetch::{
    calculate_progress_on_floating_week, floating_week_progress, CompletedStats,
};
use crate::error::EngineError;
use crate::filter_tasks::Task;
use crate::goals::{done_today, is_entry_of_today};

verus! {

/// The number of tasks that today should carry: what the week still needs,
/// but no more than a seventh of the weekly goal, rounded down, so that a dry
/// spell does not pile the whole week onto one day.
pub open spec fn remaining_for_week(progress: int, weekly_goal: int) -> int {
    if weekly_goal - progress <= weekly_goal / 7 {
        weekly_goal - progress
    } else {
        weekly_goal / 7
    }
}

/// The number of tasks that today should carry; see [`remaining_for_week`].
pub fn remaining_tasks_for_week(progress: i32, weekly_goal: i32) -> (remaining: i64)
    ensures
        remaining == remaining_for_week(progress as int, weekly_goal as int),
{
    let needed: i64 = weekly_goal as i64 - progress as i64;
    let share: i64 = if weekly_goal >= 0 {
        weekly_goal as i64 / 7
    } else {
        -((6 - weekly_goal as i64) / 7)
    };
    if needed <= share {
        needed
    } else {
        share
    }
}

/// The positions of the movable tasks among the first `n` of `tasks`, in the
/// order of the list.
pub open spec fn movable_positions(tasks: Seq<Task>, n: nat) -> Seq<int>
    decreases n,
{
    if n == 0 {
        Seq::empty()
    } else if tasks[n - 1].is_movable() {
        movable_positions(tasks, (n - 1) as nat).push(n - 1)
    } else {
        movable_positions(tasks, (n - 1) as nat)
    }
}

/// What to do with today's movable tasks.
#[derive(Clone, Copy, Debug, PartialEq, Eq, Structural)]
pub enum Postponement {
    /// Today's load does not exceed what the week needs: nothing moves.
    Nothing,
    /// The tasks that stay anyway cover what the week needs, or the week
    /// needs nothing more: every movable task moves.
    AllMovable,
    /// Only the first so many movable tasks move; the rest stay to fill the
    /// day.
    First(usize),
}

/// The number of tasks to move on a day with `total` tasks, `low` of them
/// movable, when today should carry `remaining` tasks: none while the day
/// holds no more than it should carry; all the movable ones where the week
/// needs nothing more, or where the tasks that cannot move cover what the day
/// should carry; else as many as the day holds too many.
pub open spec fn postponed_count(total: int, low: int, remaining: int) -> int {
    if remaining >= total {
        0
    } else if remaining <= 0 || remaining <= total - low {
        low
    } else {
        total - remaining
    }
}

/// The decision for a day with `total` tasks, `low` of them movable, when
/// today should carry `remaining` tasks; it moves [`postponed_count`] tasks.
pub open spec fn postponement_for(total: int, low: int, remaining: int) -> Postponement {
    if remaining >= total {
        Postponement::Nothing
    } else if remaining <= 0 || remaining <= total - low {
        Postponement::AllMovable
    } else {
        Postponement::First((total - remaining) as usize)
    }
}

/// The positions of the tasks to move tomorrow, in the order of the list: the
/// first [`postponed_count`] of the movable ones.
pub open spec fn postponed_positions(tasks: Seq<Task>, remaining: int) -> Seq<int> {
    let movable = movable_positions(tasks, tasks.len());
    movable.take(postponed_count(tasks.len() as int, movable.len() as int, remaining))
}

/// The positions of a plan as numbers.
pub open spec fn positions_of(positions: Seq<usize>) -> Seq<int> {
    positions.map_values(|p: usize| p as int)
}

/// The movable positions are positions of movable tasks, in rising order, and
/// there are at most as many as there are tasks.
pub proof fn lemma_movable_positions(tasks: Seq<Task>, n: nat)
    requires
        n <= tasks.len(),
    ensures
        movable_positions(tasks, n).len() <= n,
        forall|j: int|
            0 <= j < movable_positions(tasks, n).len() ==> {
                &&& 0 <= #[trigger] movable_positions(tasks, n)[j] < n
                &&& tasks[movable_positions(tasks, n)[j]].is_movable()
            },
        forall|i: int, j: int|
            0 <= i < j < movable_positions(tasks, n).len() ==> movable_positions(tasks, n)[i]
                < movable_positions(tasks, n)[j],
        forall|p: int|
            0 <= p < n && tasks[p].is_movable() ==> movable_positions(tasks, n).contains(p),
    decreases n,
{
    if n > 0 {
        let before = movable_positions(tasks, (n - 1) as nat);
        lemma_movable_positions(tasks, (n - 1) as nat);
        let now = movable_positions(tasks, n);
        assert forall|p: int| 0 <= p < n && tasks[p].is_movable() implies now.contains(p) by {
            if p < n - 1 {
                assert(before.contains(p));
                let j = choose|j: int| 0 <= j < before.len() && before[j] == p;
                assert(now[j] == p);
            } else {
                assert(now[now.len() - 1] == p);
            }
        }
    }
}

/// A decision never moves more tasks than are movable, nor fewer than none.
pub proof fn lemma_postponed_count_bounds(total: int, low: int, remaining: int)
    requires
        0 <= low <= total,
    ensures
        0 <= postponed_count(total, low, remaining) <= low,
{
}

/// Where today's load does not exceed what the week needs, nothing moves: a
/// run that finds this leaves the tasks as they are, and so does every run
/// after it on the same tasks.
pub proof fn lemma_nothing_to_postpone(tasks: Seq<Task>, remaining: int)
    requires
        remaining >= tasks.len(),
    ensures
        postponed_positions(tasks, remaining) == Seq::<int>::empty(),
{
    let movable = movable_positions(tasks, tasks.len());
    assert(movable.take(0) =~= Seq::<int>::empty());
}

/// Postponing settles the day: once the tasks of a decision have moved, the
/// day has that many fewer tasks and movable tasks, and the decision for what
/// is left is to move nothing more.
pub proof fn lemma_postponing_settles(total: int, low: int, remaining: int)
    requires
        0 <= low <= total,
    ensures
        postponed_count(
            total - postponed_count(total, low, remaining),
            low - postponed_count(total, low, remaining),
            remaining,
        ) == 0,
{
}

/// The first `n` of `tasks` without those at the positions `moved`, in the
/// order of the list: what is left for today once the tasks at those
/// positions have moved to tomorrow.
pub open spec fn left_for_today(tasks: Seq<Task>, moved: Seq<int>, n: nat) -> Seq<Task>
    decreases n,
{
    if n == 0 {
        Seq::empty()
    } else if moved.contains(n - 1) {
        left_for_today(tasks, moved, (n - 1) as nat)
    } else {
        left_for_today(tasks, moved, (n - 1) as nat).push(tasks[n - 1])
    }
}

/// The movable positions among the first tasks of a list do not depend on
/// the tasks that follow.
proof fn lemma_movable_positions_of_prefix(tasks: Seq<Task>, longer: Seq<Task>, n: nat)
    requires
        n <= tasks.len() <= longer.len(),
        forall|i: int| 0 <= i < tasks.len() ==> tasks[i] == longer[i],
    ensures
        movable_positions(longer, n) == movable_positions(tasks, n),
    decreases n,
{
    if n > 0 {
        lemma_movable_positions_of_prefix(tasks, longer, (n - 1) as nat);
    }
}

/// The movable positions among the first `n` tasks open the list of those
/// among the first `m`, for `n` up to `m`.
proof fn lemma_movable_positions_grow(tasks: Seq<Task>, n: nat, m: nat)
    requires
        n <= m <= tasks.len(),
    ensures
        movable_positions(tasks, n).len() <= movable_positions(tasks, m).len(),
        forall|j: int|
            0 <= j < movable_positions(tasks, n).len() ==> movable_positions(tasks, m)[j]
                == #[trigger] movable_positions(tasks, n)[j],
        forall|j: int|
            movable_positions(tasks, n).len() <= j < movable_positions(tasks, m).len() ==> n
                <= #[trigger] movable_positions(tasks, m)[j],
    decreases m,
{
    if n < m {
        lemma_movable_positions_grow(tasks, n, (m - 1) as nat);
    }
}

/// A position is among the first `count` movable positions exactly when its
/// task is movable and fewer than `count` movable tasks stand before it.
proof fn lemma_position_is_moved(tasks: Seq<Task>, count: int, p: int)
    requires
        0 <= p < tasks.len(),
        0 <= count <= movable_positions(tasks, tasks.len()).len(),
    ensures
        movable_positions(tasks, tasks.len()).take(count).contains(p) <==> (tasks[p].is_movable()
            && movable_positions(tasks, p as nat).len() < count),
{
    let all = movable_positions(tasks, tasks.len());
    let before = movable_positions(tasks, p as nat);
    let upto = movable_positions(tasks, (p + 1) as nat);
    lemma_movable_positions(tasks, tasks.len());
    lemma_movable_positions(tasks, p as nat);
    lemma_movable_positions_grow(tasks, p as nat, tasks.len());
    lemma_movable_positions_grow(tasks, (p + 1) as nat, tasks.len());
    if all.take(count).contains(p) {
        let j = choose|j: int| 0 <= j < all.take(count).len() && all.take(count)[j] == p;
        assert(all[j] == p);
        assert(tasks[all[j]].is_movable());
        if j < before.len() {
            assert(all[j] == before[j]);
            assert(before[j] < p);
        }
        assert(before.len() <= j);
    }
    if tasks[p].is_movable() && before.len() < count {
        assert(upto == before.push(p));
        assert(upto[before.len() as int] == p);
        assert(all[before.len() as int] == p);
        assert(all.take(count)[before.len() as int] == p);
    }
}

/// What is left once the first `count` movable tasks have moved: that many
/// tasks fewer, and that many movable tasks fewer.
proof fn lemma_left_for_today_counts(tasks: Seq<Task>, count: int, n: nat)
    requires
        n <= tasks.len(),
        0 <= count <= movable_positions(tasks, tasks.len()).len(),
    ensures
        ({
            let moved = movable_positions(tasks, tasks.len()).take(count);
            let left = left_for_today(tasks, moved, n);
            let low = movable_positions(tasks, n).len();
            let gone = if count <= low {
                count
            } else {
                low as int
            };
            &&& left.len() == n - gone
            &&& movable_positions(left, left.len()).len() == low - gone
        }),
    decreases n,
{
    if n > 0 {
        let moved = movable_positions(tasks, tasks.len()).take(count);
        let before = left_for_today(tasks, moved, (n - 1) as nat);
        let left = left_for_today(tasks, moved, n);
        lemma_left_for_today_counts(tasks, count, (n - 1) as nat);
        lemma_position_is_moved(tasks, count, n - 1);
        if !moved.contains(n - 1) {
            assert(left == before.push(tasks[n - 1]));
            assert(left.len() == before.len() + 1);
            assert(left[before.len() as int] == tasks[n - 1]);
            lemma_movable_positions_of_prefix(before, left, before.len());
        }
    }
}

/// Postponing settles the day, whatever the tasks: once the tasks of a plan
/// have moved to tomorrow, the plan for the tasks that are left moves none. A
/// second run on what the first one left postpones nothing.
pub proof fn lemma_second_run_postpones_nothing(tasks: Seq<Task>, remaining: int)
    ensures
        postponed_positions(
            left_for_today(tasks, postponed_positions(tasks, remaining), tasks.len()),
            remaining,
        ) == Seq::<int>::empty(),
{
    let movable = movable_positions(tasks, tasks.len());
    let count = postponed_count(tasks.len() as int, movable.len() as int, remaining);
    let left = left_for_today(tasks, movable.take(count), tasks.len());
    lemma_movable_positions(tasks, tasks.len());
    lemma_postponed_count_bounds(tasks.len() as int, movable.len() as int, remaining);
    lemma_left_for_today_counts(tasks, count, tasks.len());
    lemma_postponing_settles(tasks.len() as int, movable.len() as int, remaining);
    assert(movable_positions(left, left.len()).take(0) =~= Seq::<int>::empty());
}

/// The decision for a day with `total` tasks, `low` of them movable, when
/// today should carry `remaining` tasks.
pub fn choose_postponement(total: usize, low: usize, remaining: i64) -> (decision: Postponement)
    ensures
        decision == postponement_for(total as int, low as int, remaining as int),
{
    if remaining >= 0 && remaining as u64 >= total as u64 {
        Postponement::Nothing
    } else if remaining <= 0 || (low <= total && remaining as u64 <= (total - low) as u64) {
        Postponement::AllMovable
    } else {
        Postponement::First(total - remaining as usize)
    }
}

/// The positions of the movable tasks of `tasks`, in the order of the list.
pub fn movable_tasks(tasks: &Vec<Task>) -> (positions: Vec<usize>)
    ensures
        positions_of(positions@) == movable_positions(tasks@, tasks@.len()),
{
    let mut positions: Vec<usize> = Vec::new();
    let mut i: usize = 0;
    while i < tasks.len()
        invariant
            i <= tasks.len(),
            positions_of(positions@) =~= movable_positions(tasks@, i as nat),
        decreases tasks.len() - i,
    {
        if tasks[i].movable() {
            positions.push(i);
        }
        i = i + 1;
    }
    positions
}

/// The plan for today's tasks.
#[derive(Clone, Debug, PartialEq, Eq)]
pub struct PostponePlan {
    /// The number of tasks that today should carry.
    pub remaining: i64,
    /// What to do with the movable tasks.
    pub decision: Postponement,
    /// The positions, in the list of today's tasks, of the tasks to move to
    /// tomorrow.
    pub positions: Vec<usize>,
}

/// Plans the day for `todays_tasks` when today should carry `remaining`
/// tasks.
///
/// Nothing moves while the day holds no more tasks than it should carry.
/// Otherwise only movable tasks move, those of the lowest priority without a
/// duration: all of them where the other tasks alone cover what the day
/// should carry, or where it should carry nothing; else the first of them in
/// the list, as many as the day holds too many.
pub fn plan_postponement(todays_tasks: &Vec<Task>, remaining: i64) -> (plan: PostponePlan)
    ensures
        plan.remaining == remaining,
        plan.decision == postponement_for(
            todays_tasks@.len() as int,
            movable_positions(todays_tasks@, todays_tasks@.len()).len() as int,
            remaining as int,
        ),
        positions_of(plan.positions@) == postponed_positions(todays_tasks@, remaining as int),
{
    let mut positions = movable_tasks(todays_tasks);
    proof {
        lemma_movable_positions(todays_tasks@, todays_tasks@.len());
    }
    let ghost movable = positions_of(positions@);
    let low: usize = positions.len();
    let decision = choose_postponement(todays_tasks.len(), low, remaining);
    match decision {
        Postponement::Nothing => {
            positions.truncate(0);
        },
        Postponement::AllMovable => {},
        Postponement::First(count) => {
            positions.truncate(count);
        },
    }
    assert(positions_of(positions@) =~= movable.take(
        postponed_count(todays_tasks@.len() as int, low as int, remaining as int),
    ));
    PostponePlan { remaining, decision, positions }
}

/// Plans the day from the statistics: today should carry what
/// [`remaining_for_week`] gives for the progress on the floating week and the
/// weekly goal. The result is `CountOverflow` where that progress does not
/// fit in 32 bits.
pub fn postpone_to_goal(todays_tasks: &Vec<Task>, stats: &CompletedStats) -> (plan: Result<
    PostponePlan,
    EngineError,
>)
    ensures
        plan is Ok <==> i32::MIN <= floating_week_progress(stats.days_items@) <= i32::MAX,
        plan is Err ==> plan == Err::<PostponePlan, EngineError>(EngineError::CountOverflow),
        plan matches Ok(p) ==> {
            let remaining = remaining_for_week(
                floating_week_progress(stats.days_items@),
                stats.goals.weekly_goal as int,
            );
            &&& p.remaining == remaining
            &&& p.decision == postponement_for(
                todays_tasks@.len() as int,
                movable_positions(todays_tasks@, todays_tasks@.len()).len() as int,
                remaining,
            )
            &&& positions_of(p.positions@) == postponed_positions(todays_tasks@, remaining)
        },
{
    match calculate_progress_on_floating_week(stats) {
        Err(_) => Err(EngineError::CountOverflow),
        Ok(progress) => {
            let remaining = remaining_tasks_for_week(progress, stats.goals.weekly_goal);
            Ok(plan_postponement(todays_tasks, remaining))
        },
    }
}

/// The daily goal to set once the day is planned.
#[derive(Clone, Copy, Debug, PartialEq, Eq, Structural)]
pub enum GoalForToday {
    /// The week needs nothing more from today: the goal is 1, so that the
    /// day never asks for no work or less.
    AtTarget,
    /// The number of tasks to aim for today.
    AimFor(i32),
}

impl GoalForToday {
    /// The daily goal that this stands for.
    pub open spec fn value(self) -> int {
        match self {
            GoalForToday::AtTarget => 1,
            GoalForToday::AimFor(goal) => goal as int,
        }
    }

    /// The daily goal to send to the service.
    pub fn goal(&self) -> (goal: i32)
        ensures
            goal == self.value(),
    {
        match self {
            GoalForToday::AtTarget => 1,
            GoalForToday::AimFor(goal) => *goal,
        }
    }
}

/// The daily goal to set once the day is planned: what today should still
/// carry and what is already done today, together; at the target where that
/// is nothing or less, and no goal at all where it does not fit in 32 bits.
pub open spec fn goal_for_today(remaining: int, done_today: int) -> Result<
    GoalForToday,
    EngineError,
> {
    if remaining + done_today <= 0 {
        Ok(GoalForToday::AtTarget)
    } else if remaining + done_today <= i32::MAX {
        Ok(GoalForToday::AimFor((remaining + done_today) as i32))
    } else {
        Err(EngineError::CountOverflow)
    }
}

/// The daily goal to set once the day is planned; see [`goal_for_today`].
pub fn daily_goal_for_today(remaining: i64, done_today: i32) -> (goal: Result<
    GoalForToday,
    EngineError,
>)
    ensures
        goal == goal_for_today(remaining as int, done_today as int),
{
    if remaining <= -(done_today as i64) {
        Ok(GoalForToday::AtTarget)
    } else if remaining > i32::MAX as i64 - done_today as i64 {
        Err(EngineError::CountOverflow)
    } else {
        Ok(GoalForToday::AimFor((remaining + done_today as i64) as i32))
    }
}

/// The daily goal never drops below 1, and above 1 it is what today should
/// still carry and what is already done today, together.
pub proof fn lemma_goal_for_today_is_positive(remaining: int, done_today: int)
    ensures
        goal_for_today(remaining, done_today) matches Ok(goal) ==> goal.value() >= 1 && (
        goal.value() == 1 || goal.value() == remaining + done_today),
{
}

/// The daily goal to set after planning the day with `plan`, from the number
/// of tasks that the statistics report as done on the day written `today`:
/// the count of the first such day. The result is `MissingToday` where the
/// statistics hold no such day.
pub fn daily_goal_after_postponing(stats: &CompletedStats, today: &String, plan: &PostponePlan) -> (goal:
    Result<GoalForToday, EngineError>)
    ensures
        (forall|i: int| 0 <= i < stats.days_items@.len() ==> stats.days_items@[i].date@ != today@)
            ==> goal == Err::<GoalForToday, EngineError>(EngineError::MissingToday),
        forall|k: int| #[trigger]
            is_entry_of_today(stats.days_items@, today@, k) ==> goal == goal_for_today(
                plan.remaining as int,
                stats.days_items@[k].total_completed as int,
            ),
{
    match done_today(stats, today) {
        Err(_) => Err(EngineError::MissingToday),
        Ok(done) => {
            proof {
                let k0 = choose|k: int| #[trigger]
                    is_entry_of_today(stats.days_items@, today@, k) && done
                        == stats.days_items@[k].total_completed;
                assert forall|k: int| #[trigger]
                    is_entry_of_today(stats.days_items@, today@, k) implies k == k0 by {}
            }
            daily_goal_for_today(plan.remaining, done)
        },
    }
}

} // verus!
