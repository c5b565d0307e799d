//! Adaptive goal and rescheduling engine for a personal task tracker.
//!
//! The engine recomputes daily and weekly completion goals from recent
//! completion counts, classifies the current productivity mode, and decides
//! which tasks to move so that the workload follows a rolling weekly quota.
//! Every function is pure: callers fetch the data, hand it over as plain
//! values, and carry out the decisions that come back.

pub mod actions;
pub mod calendar;
pub mod completed_fetch;
pub mod due;
pub mod error;
pub mod exclude_days;
pub mod exclude_weeks;
pub mod exclusions;
pub mod filter_tasks;
pub mod goals;
pub mod postpone_to_goal;
pub mod productivity_mode;
pub mod reschedule;
pub mod update_goals;
pub mod update_task;
