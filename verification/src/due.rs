//! Due values: what the text of a due date says, decided once when it is
//! read.
//!
//! A due date names a day, or a day and a time of day. A text with the letter
//! `T` in it is read as a day and a time, and one that also holds the letter
//! `Z` as ending in a zone letter; any other text is read as a day.

use vstd::prelude::*;
use crate::calendar::{
    date_format, date_from_text, date_text, date_time_format, date_time_from_text, date_time_text,
    format_date_time, is_day_number, is_time_of_day, minus_days, parse_date_time, plus_days,
    zoned_date_time_format, Date, TimeOfDay,
};
use crate::error::EngineError;

verus! {

/// A due date as it was read.
#[derive(Clone, Copy, Debug, PartialEq, Eq, Structural)]
pub enum DueValue {
    /// A day, with no time on it.
    DateOnly(Date),
    /// A day and a time of day; `zoned` says whether the text ended in the
    /// zone letter.
    DateTime { date: Date, time: TimeOfDay, zoned: bool },
}

/// What a due date says, in numbers: the day number, and for a day with a time
/// the seconds after midnight and the nanoseconds.
pub enum DueModel {
    DateOnly(int),
    DateTime { day: int, secs: int, nano: int, zoned: bool },
}

impl View for DueValue {
    type V = DueModel;

    open spec fn view(&self) -> DueModel {
        match *self {
            DueValue::DateOnly(date) => DueModel::DateOnly(date@),
            DueValue::DateTime { date, time, zoned } => DueModel::DateTime {
                day: date@,
                secs: time@.0,
                nano: time@.1,
                zoned,
            },
        }
    }
}

impl DueModel {
    /// The day that the due date falls on.
    pub open spec fn day(self) -> int {
        match self {
            DueModel::DateOnly(day) => day,
            DueModel::DateTime { day, .. } => day,
        }
    }

    /// The same due date on another day: the time of day, where there is one,
    /// stays as it is.
    pub open spec fn on_day(self, day: int) -> DueModel {
        match self {
            DueModel::DateOnly(_) => DueModel::DateOnly(day),
            DueModel::DateTime { secs, nano, zoned, .. } => DueModel::DateTime {
                day,
                secs,
                nano,
                zoned,
            },
        }
    }

    /// Whether the numbers are those of a day of the calendar and a time of
    /// day.
    pub open spec fn is_valid(self) -> bool {
        match self {
            DueModel::DateOnly(day) => is_day_number(day),
            DueModel::DateTime { day, secs, nano, .. } => is_day_number(day) && is_time_of_day(
                secs,
                nano,
            ),
        }
    }

    /// The due date `count` days later, where the calendar reaches it.
    pub open spec fn plus_days(self, count: int) -> Option<DueModel> {
        match plus_days(self.day(), count) {
            Some(day) => Some(self.on_day(day)),
            None => None,
        }
    }

    /// The due date `count` days earlier, where the calendar reaches it.
    pub open spec fn minus_days(self, count: int) -> Option<DueModel> {
        match minus_days(self.day(), count) {
            Some(day) => Some(self.on_day(day)),
            None => None,
        }
    }

    /// The text of the due date: a day is written as year, month and day, a
    /// day with a time as both with a `T` between them and no zone letter.
    pub open spec fn text(self) -> Seq<char> {
        match self {
            DueModel::DateOnly(day) => date_text(day),
            DueModel::DateTime { day, secs, nano, .. } => date_time_text(day, secs, nano),
        }
    }
}

/// The day and time that the text of a due date with a time holds: the text is
/// read with a trailing `Z` where the letter `Z` occurs in it, and without
/// one where it does not.
pub open spec fn due_date_time_from_text(text: Seq<char>) -> Option<(int, int, int)> {
    if text.contains('Z') {
        date_time_from_text(text, zoned_date_time_format())
    } else {
        date_time_from_text(text, date_time_format())
    }
}

/// What the text of a due date says, or `None` where it says nothing: a text
/// with a `T` in it is a day and a time, any other a day.
pub open spec fn due_from_text(text: Seq<char>) -> Option<DueModel> {
    if text.contains('T') {
        match due_date_time_from_text(text) {
            Some((day, secs, nano)) => Some(
                DueModel::DateTime { day, secs, nano, zoned: text.contains('Z') },
            ),
            None => None,
        }
    } else {
        match date_from_text(text, date_format()) {
            Some(day) => Some(DueModel::DateOnly(day)),
            None => None,
        }
    }
}

/// Whether the character `wanted` occurs in `text`.
pub fn has_char(text: &str, wanted: char) -> (found: bool)
    ensures
        found == text@.contains(wanted),
{
    let mut found = false;
    for c in it: text.chars()
        invariant
            it.seq() == text@,
            found == exists|i: int| 0 <= i < it.index() && text@[i] == wanted,
    {
        if c == wanted {
            found = true;
        }
    }
    found
}

/// Reads the day and the time of a due date that holds both. The result is
/// `MalformedDate` where the text does not hold them.
pub fn parse_due_date_time(due: &String) -> (moment: Result<(Date, TimeOfDay), EngineError>)
    ensures
        moment is Ok <==> due_date_time_from_text(due@) is Some,
        moment matches Ok(m) ==> due_date_time_from_text(due@) == Some((m.0@, m.1@.0, m.1@.1)),
        moment is Err ==> moment == Err::<(Date, TimeOfDay), EngineError>(
            EngineError::MalformedDate,
        ),
{
    let zoned = has_char(due.as_str(), 'Z');
    parse_date_time(due.as_str(), zoned)
}

/// Reads a due date. The result is `MalformedDate` where the text holds
/// neither a day nor a day and a time.
pub fn parse_due(text: &String) -> (due: Result<DueValue, EngineError>)
    ensures
        due is Ok <==> due_from_text(text@) is Some,
        due matches Ok(value) ==> due_from_text(text@) == Some(value@),
        due is Err ==> due == Err::<DueValue, EngineError>(EngineError::MalformedDate),
{
    if has_char(text.as_str(), 'T') {
        let zoned = has_char(text.as_str(), 'Z');
        match parse_due_date_time(text) {
            Ok((date, time)) => Ok(DueValue::DateTime { date, time, zoned }),
            Err(_) => Err(EngineError::MalformedDate),
        }
    } else {
        match Date::parse(text.as_str()) {
            Ok(date) => Ok(DueValue::DateOnly(date)),
            Err(_) => Err(EngineError::MalformedDate),
        }
    }
}

impl DueValue {
    /// The day that the due date falls on.
    pub fn date(&self) -> (date: Date)
        ensures
            date@ == self@.day(),
    {
        match self {
            DueValue::DateOnly(date) => *date,
            DueValue::DateTime { date, .. } => *date,
        }
    }

    /// The same due date on the day `day`: the time of day, where there is
    /// one, stays exactly as it is.
    pub fn on_day(&self, day: &Date) -> (moved: DueValue)
        ensures
            moved@ == self@.on_day(day@),
    {
        match self {
            DueValue::DateOnly(_) => DueValue::DateOnly(*day),
            DueValue::DateTime { time, zoned, .. } => DueValue::DateTime {
                date: *day,
                time: *time,
                zoned: *zoned,
            },
        }
    }

    /// The due date `count` days later, or `None` beyond the end of the
    /// calendar.
    pub fn checked_add_days(&self, count: u64) -> (later: Option<DueValue>)
        ensures
            later is Some <==> self@.plus_days(count as int) is Some,
            later matches Some(value) ==> self@.plus_days(count as int) == Some(value@),
    {
        match self.date().checked_add_days(count) {
            Some(day) => Some(self.on_day(&day)),
            None => None,
        }
    }

    /// The due date `count` days earlier, or `None` before the start of the
    /// calendar.
    pub fn checked_sub_days(&self, count: u64) -> (earlier: Option<DueValue>)
        ensures
            earlier is Some <==> self@.minus_days(count as int) is Some,
            earlier matches Some(value) ==> self@.minus_days(count as int) == Some(value@),
    {
        match self.date().checked_sub_days(count) {
            Some(day) => Some(self.on_day(&day)),
            None => None,
        }
    }

    /// Writes the due date: a day as `2024-01-15`, a day with a time as
    /// `2024-01-15T09:30:00`, without zone letter.
    pub fn to_text(&self) -> (text: String)
        ensures
            text@ == self@.text(),
    {
        match self {
            DueValue::DateOnly(date) => date.to_text(),
            DueValue::DateTime { date, time, .. } => format_date_time(date, time),
        }
    }
}

/// Shifting a due date forward by some days and then back by as many gives
/// the due date it started from, day and time of day.
pub proof fn lemma_due_shift_there_and_back(due: DueModel, count: int)
    requires
        due.is_valid(),
        count >= 0,
        due.plus_days(count) is Some,
    ensures
        due.plus_days(count)->0.minus_days(count) == Some(due),
{
}

/// Shifting a due date that has a time keeps the time of day exactly, and
/// moves the day by the number of days given.
pub proof fn lemma_due_shift_keeps_time(due: DueModel, count: int)
    requires
        due is DateTime,
        due.plus_days(count) is Some,
    ensures
        due.plus_days(count)->0 is DateTime,
        due.plus_days(count)->0->secs == due->secs,
        due.plus_days(count)->0->nano == due->nano,
        due.plus_days(count)->0->zoned == due->zoned,
        due.plus_days(count)->0.day() == due.day() + count,
{
}

} // verus!
