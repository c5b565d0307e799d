//! Commands that set the goals at the task service.

use vstd::prelude::*;
use uuid::Uuid;

verus! {

/// The goal that a command sets, and the number it sets it to.
#[derive(Clone, Copy, Debug, PartialEq, Eq, Structural)]
pub enum Args {
    /// The daily goal.
    Daily { daily_goal: i32 },
    /// The weekly goal.
    Weekly { weekly_goal: i32 },
}

/// One command to the service: its kind, an identifier of its own by which the
/// service tells commands apart, and what it sets.
#[derive(Clone, Debug, PartialEq, Eq)]
pub struct Command {
    pub name: String,
    pub uuid: String,
    pub args: Args,
}

/// The kind of a command that sets a goal.
pub open spec fn update_goals_name() -> Seq<char> {
    "update_goals"@
}

/// `uuid::Uuid::new_v4`, written out with `to_string`: a fresh identifier,
/// drawn at random. Nothing is promised of it.
#[verifier::external_body]
fn new_uuid() -> (uuid: String) {
    Uuid::new_v4().to_string()
}

/// The command with the identifier `uuid` that sets a goal as `args` says.
pub fn update_goals_command(uuid: String, args: Args) -> (command: Command)
    ensures
        command.name@ == update_goals_name(),
        command.uuid == uuid,
        command.args == args,
{
    Command { name: String::from_str("update_goals"), uuid, args }
}

/// A command, with a fresh identifier, that sets the daily goal to
/// `daily_goal`.
pub fn update_daily_goal(daily_goal: &i32) -> (command: Command)
    ensures
        command.name@ == update_goals_name(),
        command.args == (Args::Daily { daily_goal: *daily_goal }),
{
    update_goals_command(new_uuid(), Args::Daily { daily_goal: *daily_goal })
}

/// A command, with a fresh identifier, that sets the weekly goal to
/// `weekly_goal`.
pub fn update_weekly_goal(weekly_goal: &i32) -> (command: Command)
    ensures
        command.name@ == update_goals_name(),
        command.args == (Args::Weekly { weekly_goal: *weekly_goal }),
{
    update_goals_command(new_uuid(), Args::Weekly { weekly_goal: *weekly_goal })
}

} // verus!
