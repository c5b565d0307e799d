//! Tasks as the task service reports them.

use vstd::prelude::*;

verus! {

/// When a task is due. `date` holds a day (`2024-01-15`) or a day with a
/// time (`2024-01-15T09:30:00`, possibly followed by `Z`); `string` and `lang`
/// say how the service shows the due date to the user.
#[derive(Clone, Debug, PartialEq, Eq)]
pub struct Due {
    pub date: String,
    pub string: Option<String>,
    pub lang: Option<String>,
}

/// A fixed length of time set aside for a task.
#[derive(Clone, Debug, PartialEq, Eq)]
pub struct Duration {
    pub amount: i32,
    pub unit: String,
}

/// A pending task. `priority` runs from 1, the lowest, to 4.
#[derive(Clone, Debug, PartialEq, Eq)]
pub struct Task {
    pub id: String,
    pub due: Due,
    pub content: String,
    pub priority: i32,
    pub duration: Option<Duration>,
}

/// The lowest priority a task can have.
pub const LOWEST_PRIORITY: i32 = 1;

impl Task {
    /// Whether the engine may move the task on its own: it has the lowest
    /// priority and no time set aside for it.
    pub open spec fn is_movable(self) -> bool {
        self.priority == LOWEST_PRIORITY && self.duration is None
    }

    /// Whether the task has the lowest priority and no duration.
    pub fn movable(&self) -> (movable: bool)
        ensures
            movable == self.is_movable(),
    {
        self.priority == LOWEST_PRIORITY && self.duration.is_none()
    }
}

/// The text held by an optional string.
pub open spec fn optional_text(value: Option<String>) -> Option<Seq<char>> {
    match value {
        Some(text) => Some(text@),
        None => None,
    }
}

/// A copy of an optional string.
pub fn copy_optional_text(value: &Option<String>) -> (copy: Option<String>)
    ensures
        optional_text(copy) == optional_text(*value),
{
    match value {
        Some(text) => Some(text.clone()),
        None => None,
    }
}

} // verus!
