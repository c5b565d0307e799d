//! The ways in which the engine can refuse an input.

use vstd::prelude::*;

verus! {

/// Why the engine could not come to a decision.
#[derive(Clone, Copy, Debug, PartialEq, Eq, Structural)]
pub enum EngineError {
    /// A text that should hold a date, or a date and a time, does not.
    MalformedDate,
    /// A date computation left the range of the calendar.
    DateOutOfRange,
    /// The statistics hold no entry for today.
    MissingToday,
    /// No week is left to derive a weekly goal from.
    NoWeekLeft,
    /// A count does not fit in 32 bits.
    CountOverflow,
    /// A week to exclude was named by a day that is not a Monday.
    NotAMonday,
    /// The options of a run ask for things that cannot be done together.
    ConflictingOptions,
}

} // verus!
