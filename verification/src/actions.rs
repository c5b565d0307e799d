//! What one run is asked to do: the single action that the options of a run
//! select, and the combinations that are refused before anything happens.

use vstd::prelude::*;
use crate::error::EngineError;

verus! {

/// The options of one run, as the user gave them.
#[derive(Clone, Debug, PartialEq, Eq)]
pub struct Request {
    /// Show the progress, the mode and the goals that the statistics
    /// recommend.
    pub status: bool,
    /// Send the goals that come out to the service.
    pub update_goals: bool,
    /// Move today's tasks to tomorrow.
    pub postpone: bool,
    /// Move as many of today's tasks to tomorrow as the weekly goal allows.
    pub postpone_to_goal: bool,
    /// Move tomorrow's movable tasks on by this many days.
    pub postpone_by_days: Option<i8>,
    /// Pull the overdue tasks to today.
    pub overdue: bool,
    /// A day to leave out of the daily goal.
    pub exclude_day: Option<String>,
    /// Leave out the day that the recommended daily goal came from.
    pub exclude_day_shown: bool,
    /// A week, by its Monday, to leave out of the weekly goal.
    pub exclude_week: Option<String>,
    /// Leave out the week that the recommended weekly goal came from.
    pub exclude_week_shown: bool,
    /// Forget every excluded day and week.
    pub purge: bool,
}

/// The action of a run.
#[derive(Clone, Copy, Debug, PartialEq, Eq, Structural)]
pub enum Action {
    /// Show the status; the flags say what to do with what it recommends.
    Status { update_goals: bool, exclude_day_shown: bool, exclude_week_shown: bool },
    /// Move all of today's tasks to tomorrow.
    Postpone,
    /// Postpone to the goal, and set the daily goal after it if asked.
    PostponeToGoal { update_goals: bool },
    /// Move tomorrow's movable tasks on by so many days.
    PostponeByDays(i8),
    /// Pull the overdue tasks to today.
    Overdue,
    /// Exclude the day given.
    ExcludeDay,
    /// Exclude the week given.
    ExcludeWeek,
    /// Forget every excluded day and week.
    Purge,
    /// Nothing was asked for.
    Nothing,
}

impl Request {
    /// Whether the options ask to update the goals and, in the same run, to
    /// exclude the day or week that a recommendation came from. Together
    /// with the status these cannot both be done.
    pub open spec fn is_conflicting(self) -> bool {
        self.status && self.update_goals && (self.exclude_day_shown || self.exclude_week_shown)
    }

    /// The action that the options select: the first that is asked for, in
    /// the order status, postpone, postpone to goal, postpone by days,
    /// overdue, exclude day, exclude week, purge.
    pub open spec fn selected(self) -> Action {
        if self.status {
            Action::Status {
                update_goals: self.update_goals,
                exclude_day_shown: self.exclude_day_shown,
                exclude_week_shown: self.exclude_week_shown,
            }
        } else if self.postpone {
            Action::Postpone
        } else if self.postpone_to_goal {
            Action::PostponeToGoal { update_goals: self.update_goals }
        } else if self.postpone_by_days is Some {
            Action::PostponeByDays(self.postpone_by_days->0)
        } else if self.overdue {
            Action::Overdue
        } else if self.exclude_day is Some {
            Action::ExcludeDay
        } else if self.exclude_week is Some {
            Action::ExcludeWeek
        } else if self.purge {
            Action::Purge
        } else {
            Action::Nothing
        }
    }

    /// Selects the action of the run, or refuses the options with
    /// `ConflictingOptions` where they cannot be carried out together.
    pub fn select_action(&self) -> (action: Result<Action, EngineError>)
        ensures
            action == if self.is_conflicting() {
                Err::<Action, EngineError>(EngineError::ConflictingOptions)
            } else {
                Ok::<Action, EngineError>(self.selected())
            },
    {
        if self.status {
            if self.update_goals && (self.exclude_day_shown || self.exclude_week_shown) {
                Err(EngineError::ConflictingOptions)
            } else {
                Ok(
                    Action::Status {
                        update_goals: self.update_goals,
                        exclude_day_shown: self.exclude_day_shown,
                        exclude_week_shown: self.exclude_week_shown,
                    },
                )
            }
        } else if self.postpone {
            Ok(Action::Postpone)
        } else if self.postpone_to_goal {
            Ok(Action::PostponeToGoal { update_goals: self.update_goals })
        } else if let Some(days) = self.postpone_by_days {
            Ok(Action::PostponeByDays(days))
        } else if self.overdue {
            Ok(Action::Overdue)
        } else if self.exclude_day.is_some() {
            Ok(Action::ExcludeDay)
        } else if self.exclude_week.is_some() {
            Ok(Action::ExcludeWeek)
        } else if self.purge {
            Ok(Action::Purge)
        } else {
            Ok(Action::Nothing)
        }
    }
}

} // verus!
