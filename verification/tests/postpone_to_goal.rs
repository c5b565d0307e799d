use todoist_productivity_tracker::completed_fetch::{CompletedStats, DayItem, Goals};
use todoist_productivity_tracker::error::EngineError;
use todoist_productivity_tracker::filter_tasks::{Due, Duration, Task};
use todoist_productivity_tracker::postpone_to_goal::{
    choose_postponement, daily_goal_after_postponing, daily_goal_for_today, movable_tasks,
    plan_postponement, postpone_to_goal, remaining_tasks_for_week, GoalForToday, PostponePlan,
    Postponement,
};

fn task(id: usize, priority: i32, timed: bool) -> Task {
    Task {
        id: format!("{}", id),
        due: Due { date: "2024-01-11".to_string(), string: None, lang: None },
        content: format!("task {}", id),
        priority,
        duration: if timed { Some(Duration { amount: 30, unit: "minute".to_string() }) } else { None },
    }
}

// Ten tasks; the movable ones stand at positions 1, 2, 4, 5, 7 and 9.
fn ten_tasks() -> Vec<Task> {
    vec![
        task(0, 4, false),
        task(1, 1, false),
        task(2, 1, false),
        task(3, 1, true),
        task(4, 1, false),
        task(5, 1, false),
        task(6, 2, false),
        task(7, 1, false),
        task(8, 3, true),
        task(9, 1, false),
    ]
}

fn stats_with(progress: &[i32], weekly_goal: i32) -> CompletedStats {
    CompletedStats {
        days_items: progress
            .iter()
            .enumerate()
            .map(|(i, c)| DayItem { date: format!("2024-01-{:02}", 11 - i), total_completed: *c })
            .collect(),
        week_items: vec![],
        goals: Goals { daily_goal: 5, weekly_goal },
    }
}

#[test]
fn remaining_is_the_lesser_of_need_and_daily_share() {
    assert_eq!(remaining_tasks_for_week(12, 20), 2);
    assert_eq!(remaining_tasks_for_week(19, 20), 1);
    assert_eq!(remaining_tasks_for_week(18, 20), 2);
    assert_eq!(remaining_tasks_for_week(0, 20), 2);
    assert_eq!(remaining_tasks_for_week(20, 20), 0);
    assert_eq!(remaining_tasks_for_week(25, 20), -5);
    assert_eq!(remaining_tasks_for_week(0, 21), 3);
    assert_eq!(remaining_tasks_for_week(0, 6), 0);
    assert_eq!(remaining_tasks_for_week(0, 7), 1);
    assert_eq!(remaining_tasks_for_week(0, 0), 0);
}

#[test]
fn remaining_at_the_limits_of_the_integers() {
    assert_eq!(remaining_tasks_for_week(i32::MIN, i32::MAX), (i32::MAX / 7) as i64);
    assert_eq!(remaining_tasks_for_week(i32::MAX, i32::MIN), i32::MIN as i64 - i32::MAX as i64);
    assert_eq!(remaining_tasks_for_week(0, -1), -1);
    assert_eq!(remaining_tasks_for_week(-10, -8), -2);
    assert_eq!(remaining_tasks_for_week(-10, -7), -1);
    assert_eq!(remaining_tasks_for_week(-100, -15), -3);
}

#[test]
fn movable_tasks_have_lowest_priority_and_no_duration() {
    assert_eq!(movable_tasks(&ten_tasks()), vec![1, 2, 4, 5, 7, 9]);
    assert_eq!(movable_tasks(&vec![]), Vec::<usize>::new());
    assert_eq!(movable_tasks(&vec![task(0, 1, true), task(1, 2, false)]), Vec::<usize>::new());
    assert!(task(0, 1, false).movable());
    assert!(!task(0, 1, true).movable());
    assert!(!task(0, 2, false).movable());
    assert!(!task(0, 0, false).movable());
}

#[test]
fn ten_tasks_six_movable_and_two_remaining_postpone_all_six() {
    let stats = stats_with(&[3, 4, 5], 20);
    let plan = postpone_to_goal(&ten_tasks(), &stats).unwrap();
    assert_eq!(plan.remaining, 2);
    assert_eq!(plan.decision, Postponement::AllMovable);
    assert_eq!(plan.positions, vec![1, 2, 4, 5, 7, 9]);
    assert_eq!(ten_tasks().len() - plan.positions.len(), 4);
}

#[test]
fn nothing_is_postponed_when_the_day_carries_no_more_than_needed() {
    let two = vec![task(0, 1, false), task(1, 1, false)];
    let plan = plan_postponement(&two, 2);
    assert_eq!(plan, PostponePlan { remaining: 2, decision: Postponement::Nothing, positions: vec![] });
    let plan = plan_postponement(&two, 3);
    assert_eq!(plan.decision, Postponement::Nothing);
    assert!(plan.positions.is_empty());
    let plan = plan_postponement(&vec![], 0);
    assert_eq!(plan.decision, Postponement::Nothing);
    assert!(plan.positions.is_empty());
}

#[test]
fn a_second_run_after_nothing_was_postponed_postpones_nothing() {
    let tasks = vec![task(0, 1, false), task(1, 1, false), task(2, 4, false)];
    let first = plan_postponement(&tasks, 3);
    assert!(first.positions.is_empty());
    let second = plan_postponement(&tasks, 3);
    assert!(second.positions.is_empty());
    assert_eq!(first, second);
}

#[test]
fn a_second_run_on_what_is_left_postpones_nothing() {
    for remaining in -2..12 {
        let tasks = ten_tasks();
        let first = plan_postponement(&tasks, remaining);
        let left: Vec<Task> = tasks
            .iter()
            .enumerate()
            .filter(|(i, _)| !first.positions.contains(i))
            .map(|(_, t)| t.clone())
            .collect();
        let second = plan_postponement(&left, remaining);
        assert!(second.positions.is_empty());
    }
}

#[test]
fn all_movable_tasks_go_when_nothing_more_is_needed() {
    let plan = plan_postponement(&ten_tasks(), 0);
    assert_eq!(plan.decision, Postponement::AllMovable);
    assert_eq!(plan.positions, vec![1, 2, 4, 5, 7, 9]);
    let plan = plan_postponement(&ten_tasks(), -5);
    assert_eq!(plan.decision, Postponement::AllMovable);
    assert_eq!(plan.positions, vec![1, 2, 4, 5, 7, 9]);
}

#[test]
fn all_movable_tasks_go_when_the_others_cover_the_need() {
    let plan = plan_postponement(&ten_tasks(), 4);
    assert_eq!(plan.decision, Postponement::AllMovable);
    assert_eq!(plan.positions, vec![1, 2, 4, 5, 7, 9]);
}

#[test]
fn only_the_first_movable_tasks_go_when_some_must_stay() {
    let plan = plan_postponement(&ten_tasks(), 5);
    assert_eq!(plan.decision, Postponement::First(5));
    assert_eq!(plan.positions, vec![1, 2, 4, 5, 7]);
    let plan = plan_postponement(&ten_tasks(), 7);
    assert_eq!(plan.decision, Postponement::First(3));
    assert_eq!(plan.positions, vec![1, 2, 4]);
    let plan = plan_postponement(&ten_tasks(), 9);
    assert_eq!(plan.decision, Postponement::First(1));
    assert_eq!(plan.positions, vec![1]);
    let plan = plan_postponement(&ten_tasks(), 10);
    assert_eq!(plan.decision, Postponement::Nothing);
    assert!(plan.positions.is_empty());
}

#[test]
fn nothing_moves_when_no_task_is_movable() {
    let fixed = vec![task(0, 4, false), task(1, 1, true), task(2, 2, false)];
    let plan = plan_postponement(&fixed, 1);
    assert_eq!(plan.decision, Postponement::AllMovable);
    assert!(plan.positions.is_empty());
}

#[test]
fn choose_postponement_follows_the_three_branches() {
    assert_eq!(choose_postponement(10, 6, 10), Postponement::Nothing);
    assert_eq!(choose_postponement(10, 6, 11), Postponement::Nothing);
    assert_eq!(choose_postponement(10, 6, 0), Postponement::AllMovable);
    assert_eq!(choose_postponement(10, 6, -1), Postponement::AllMovable);
    assert_eq!(choose_postponement(10, 6, 2), Postponement::AllMovable);
    assert_eq!(choose_postponement(10, 6, 4), Postponement::AllMovable);
    assert_eq!(choose_postponement(10, 6, 5), Postponement::First(5));
    assert_eq!(choose_postponement(10, 6, 9), Postponement::First(1));
    assert_eq!(choose_postponement(0, 0, 0), Postponement::Nothing);
    assert_eq!(choose_postponement(0, 0, -1), Postponement::AllMovable);
    assert_eq!(choose_postponement(usize::MAX, 0, i64::MAX), Postponement::AllMovable);
    assert_eq!(choose_postponement(3, 3, i64::MIN), Postponement::AllMovable);
}

#[test]
fn postpone_to_goal_uses_the_floating_week_progress() {
    let plan = postpone_to_goal(&ten_tasks(), &stats_with(&[5, 5, 5, 3], 20)).unwrap();
    assert_eq!(plan.remaining, 2);
    let plan = postpone_to_goal(&ten_tasks(), &stats_with(&[5, 5, 5, 4], 20)).unwrap();
    assert_eq!(plan.remaining, 1);
    let plan = postpone_to_goal(&ten_tasks(), &stats_with(&[10, 10, 10], 20)).unwrap();
    assert_eq!(plan.remaining, -10);
    assert_eq!(plan.positions, vec![1, 2, 4, 5, 7, 9]);
    let plan = postpone_to_goal(&ten_tasks(), &stats_with(&[], 70)).unwrap();
    assert_eq!(plan.remaining, 10);
    assert_eq!(plan.decision, Postponement::Nothing);
    let plan = postpone_to_goal(&ten_tasks(), &stats_with(&[], 56)).unwrap();
    assert_eq!(plan.remaining, 8);
    assert_eq!(plan.decision, Postponement::First(2));
    assert_eq!(plan.positions, vec![1, 2]);
}

#[test]
fn postpone_to_goal_refuses_progress_that_does_not_fit() {
    assert_eq!(
        postpone_to_goal(&ten_tasks(), &stats_with(&[i32::MAX, i32::MAX], 20)),
        Err(EngineError::CountOverflow)
    );
}

#[test]
fn goal_for_today_adds_what_is_done_and_never_drops_below_one() {
    assert_eq!(daily_goal_for_today(2, 3), Ok(GoalForToday::AimFor(5)));
    assert_eq!(daily_goal_for_today(2, 0), Ok(GoalForToday::AimFor(2)));
    assert_eq!(daily_goal_for_today(0, 0), Ok(GoalForToday::AtTarget));
    assert_eq!(daily_goal_for_today(-5, 3), Ok(GoalForToday::AtTarget));
    assert_eq!(daily_goal_for_today(-3, 3), Ok(GoalForToday::AtTarget));
    assert_eq!(daily_goal_for_today(-3, 4), Ok(GoalForToday::AimFor(1)));
    assert_eq!(daily_goal_for_today(-3, 5), Ok(GoalForToday::AimFor(2)));
    assert_eq!(daily_goal_for_today(1, i32::MAX - 1), Ok(GoalForToday::AimFor(i32::MAX)));
    assert_eq!(daily_goal_for_today(1, i32::MAX), Err(EngineError::CountOverflow));
    assert_eq!(daily_goal_for_today(i64::MAX, i32::MAX), Err(EngineError::CountOverflow));
    assert_eq!(daily_goal_for_today(i64::MIN, i32::MIN), Ok(GoalForToday::AtTarget));
    assert_eq!(daily_goal_for_today(i64::MIN, i32::MAX), Ok(GoalForToday::AtTarget));
}

#[test]
fn goal_at_target_is_one() {
    assert_eq!(GoalForToday::AtTarget.goal(), 1);
    assert_eq!(GoalForToday::AimFor(7).goal(), 7);
    assert_eq!(GoalForToday::AimFor(1).goal(), 1);
}

#[test]
fn goal_after_postponing_counts_what_is_done_today() {
    let stats = stats_with(&[3, 4, 5], 20);
    let plan = postpone_to_goal(&ten_tasks(), &stats).unwrap();
    assert_eq!(
        daily_goal_after_postponing(&stats, &"2024-01-11".to_string(), &plan),
        Ok(GoalForToday::AimFor(5))
    );
    assert_eq!(
        daily_goal_after_postponing(&stats, &"2024-01-10".to_string(), &plan),
        Ok(GoalForToday::AimFor(6))
    );
    assert_eq!(
        daily_goal_after_postponing(&stats, &"2024-01-12".to_string(), &plan),
        Err(EngineError::MissingToday)
    );
    let done = stats_with(&[3, 10, 10], 20);
    let plan = postpone_to_goal(&ten_tasks(), &done).unwrap();
    assert_eq!(plan.remaining, -3);
    assert_eq!(
        daily_goal_after_postponing(&done, &"2024-01-11".to_string(), &plan),
        Ok(GoalForToday::AtTarget)
    );
}
