//! Classification of the current operating mode from weekly and daily progress.

use vstd::prelude::*;

verus! {

/// What kind of work today is best spent on.
#[derive(Clone, Copy, Debug, PartialEq, Eq, Structural)]
pub enum ProductivityMode {
    /// The week has more than a day of slack: low-value work is safe today.
    Chores,
    /// The weekly target is met, or today's work is needed to reach it.
    Meaningful,
}

/// The mode for a floating-week `progress`, the two goals and the number of
/// tasks already completed today.
///
/// The weekly target being met gives `Meaningful`. Otherwise the progress
/// without today's share is compared with the weekly goal less one daily goal:
/// strictly below gives `Chores`, anything else `Meaningful`.
pub open spec fn mode_for(progress: int, weekly_goal: int, daily_goal: int, done_today: int)
    -> ProductivityMode
{
    if progress >= weekly_goal {
        ProductivityMode::Meaningful
    } else if progress - done_today < weekly_goal - daily_goal {
        ProductivityMode::Chores
    } else {
        ProductivityMode::Meaningful
    }
}

/// Classifies the current mode. The differences are taken in 64 bits, so every
/// combination of 32-bit inputs is classified without overflow.
pub fn calculate_mode(sum_of_tasks: i32, weekly_goal: i32, daily_goal: i32, done_today: i32)
    -> (mode: ProductivityMode)
    ensures
        mode == mode_for(sum_of_tasks as int, weekly_goal as int, daily_goal as int, done_today as int),
{
    if sum_of_tasks >= weekly_goal {
        ProductivityMode::Meaningful
    } else {
        let before_today: i64 = sum_of_tasks as i64 - done_today as i64;
        let threshold: i64 = weekly_goal as i64 - daily_goal as i64;
        if before_today < threshold {
            ProductivityMode::Chores
        } else {
            ProductivityMode::Meaningful
        }
    }
}

impl ProductivityMode {
    /// The name of the mode as shown to the user.
    pub open spec fn name(self) -> Seq<char> {
        match self {
            ProductivityMode::Chores => "Chores"@,
            ProductivityMode::Meaningful => "Meaningful"@,
        }
    }

    /// The mode's name, `"Chores"` or `"Meaningful"`.
    pub fn label(&self) -> (text: String)
        ensures
            text@ == self.name(),
    {
        match self {
            ProductivityMode::Chores => String::from_str("Chores"),
            ProductivityMode::Meaningful => String::from_str("Meaningful"),
        }
    }
}

/// Once the weekly goal is reached the mode is `Meaningful`, whatever the
/// daily goal and however much was done today.
pub proof fn lemma_weekly_goal_met_is_meaningful(
    progress: int,
    weekly_goal: int,
    daily_goal: int,
    done_today: int,
)
    requires
        progress >= weekly_goal,
    ensures
        mode_for(progress, weekly_goal, daily_goal, done_today) == ProductivityMode::Meaningful,
{
}

/// Work completed today shields the mode: while the weekly goal is not
/// reached, completing `extra` more tasks today raises the progress and
/// today's count together and leaves the mode as it was.
pub proof fn lemma_done_today_keeps_mode(
    progress: int,
    weekly_goal: int,
    daily_goal: int,
    done_today: int,
    extra: int,
)
    requires
        extra >= 0,
        progress + extra < weekly_goal,
    ensures
        mode_for(progress + extra, weekly_goal, daily_goal, done_today + extra) == mode_for(
            progress,
            weekly_goal,
            daily_goal,
            done_today,
        ),
{
}

/// At the boundary, where the progress without today's share equals the
/// weekly goal less one daily goal, the mode is `Meaningful`.
pub proof fn lemma_boundary_is_meaningful(
    progress: int,
    weekly_goal: int,
    daily_goal: int,
    done_today: int,
)
    requires
        progress - done_today == weekly_goal - daily_goal,
    ensures
        mode_for(progress, weekly_goal, daily_goal, done_today) == ProductivityMode::Meaningful,
{
}

} // verus!
