//! Calendar dates and times of day as plain numbers.
//!
//! A [`Date`] is a day number in the proleptic Gregorian calendar, counted so
//! that 1 January of year 1 is day 1. Comparing and shifting dates is integer
//! arithmetic on day numbers; reading and writing their text, and finding the
//! day of the week, is left to `chrono`.

use vstd::prelude::*;
use chrono::{Datelike, Days, NaiveDate, NaiveDateTime, NaiveTime, Timelike, Weekday};
use crate::error::EngineError;

verus! {

/// The day number of the earliest date of the calendar, 1 January -262143.
pub const MIN_DAY_NUMBER: i32 = -95_746_129;

/// The day number of the latest date of the calendar, 31 December 262142.
pub const MAX_DAY_NUMBER: i32 = 95_745_399;

/// The form in which a date is written and read.
pub open spec fn date_format() -> Seq<char> {
    "%Y-%m-%d"@
}

/// The form in which a date with a time is written, and read when its text
/// has no trailing zone letter.
pub open spec fn date_time_format() -> Seq<char> {
    "%Y-%m-%dT%H:%M:%S"@
}

/// The form in which a date with a time and a trailing `Z` is read.
pub open spec fn zoned_date_time_format() -> Seq<char> {
    "%Y-%m-%dT%H:%M:%SZ"@
}

/// Whether `n` is the day number of a date of the calendar.
pub open spec fn is_day_number(n: int) -> bool {
    MIN_DAY_NUMBER <= n <= MAX_DAY_NUMBER
}

/// Whether `secs` seconds after midnight and `nano` nanoseconds are a time of
/// day. A leap second is written as a nanosecond count of a billion or more,
/// and may only follow the last second of a minute.
pub open spec fn is_time_of_day(secs: int, nano: int) -> bool {
    &&& 0 <= secs < 86_400
    &&& 0 <= nano < 2_000_000_000
    &&& (nano >= 1_000_000_000 ==> secs % 60 == 59)
}

/// `chrono::ParseError`, the reason that `chrono` gives when it rejects a
/// text. Nothing is known of what it holds.
#[verifier::external_type_specification]
#[verifier::external_body]
pub struct ExParseError(chrono::ParseError);

/// The day number that `chrono` reads from `text` in the form `format`, or
/// `None` where it rejects the text.
pub uninterp spec fn date_from_text(text: Seq<char>, format: Seq<char>) -> Option<int>;

/// The day number, seconds after midnight and nanoseconds that `chrono` reads
/// from `text` in the form `format`, or `None` where it rejects the text.
pub uninterp spec fn date_time_from_text(text: Seq<char>, format: Seq<char>) -> Option<(int, int, int)>;

/// The text that `chrono` writes for a day number in the form `%Y-%m-%d`.
pub uninterp spec fn date_text(day_number: int) -> Seq<char>;

/// The text that `chrono` writes for a day number and a time of day in the
/// form `%Y-%m-%dT%H:%M:%S`.
pub uninterp spec fn date_time_text(day_number: int, secs: int, nano: int) -> Seq<char>;

/// The number of days from the Monday on or before a day to that day, as
/// `chrono` finds it.
pub uninterp spec fn days_since_monday(day_number: int) -> int;

/// `chrono::NaiveDate::parse_from_str`, with the date handed back as its day
/// number (`Datelike::num_days_from_ce`). The result is the date named by
/// [`date_from_text`]; a date that `chrono` accepts lies within the range of
/// its calendar.
#[verifier::external_body]
fn parse_naive_date(text: &str, format: &str) -> (parsed: Result<i32, chrono::ParseError>)
    ensures
        parsed is Ok <==> date_from_text(text@, format@) is Some,
        parsed matches Ok(n) ==> date_from_text(text@, format@) == Some(n as int) && is_day_number(
            n as int,
        ),
{
    match NaiveDate::parse_from_str(text, format) {
        Ok(date) => Ok(date.num_days_from_ce()),
        Err(error) => Err(error),
    }
}

/// `chrono::NaiveDateTime::parse_from_str`, with the result handed back as
/// day number, seconds after midnight and nanoseconds. The result is the one
/// named by [`date_time_from_text`]; what `chrono` accepts is a date of its
/// calendar and a time of day.
#[verifier::external_body]
fn parse_naive_date_time(text: &str, format: &str) -> (parsed: Result<
    (i32, u32, u32),
    chrono::ParseError,
>)
    ensures
        parsed is Ok <==> date_time_from_text(text@, format@) is Some,
        parsed matches Ok(t) ==> date_time_from_text(text@, format@) == Some(
            (t.0 as int, t.1 as int, t.2 as int),
        ) && is_day_number(t.0 as int) && is_time_of_day(t.1 as int, t.2 as int),
{
    match NaiveDateTime::parse_from_str(text, format) {
        Ok(moment) => Ok(
            (
                moment.date().num_days_from_ce(),
                moment.time().num_seconds_from_midnight(),
                moment.time().nanosecond(),
            ),
        ),
        Err(error) => Err(error),
    }
}

/// `chrono::NaiveDate::format` with the form `%Y-%m-%d`, on the date with the
/// given day number. The text is the one named by [`date_text`].
#[verifier::external_body]
fn format_naive_date(day_number: i32) -> (text: String)
    requires
        is_day_number(day_number as int),
    ensures
        text@ == date_text(day_number as int),
{
    NaiveDate::from_num_days_from_ce_opt(day_number).unwrap().format("%Y-%m-%d").to_string()
}

/// `chrono::NaiveDateTime::format` with the form `%Y-%m-%dT%H:%M:%S`, on the
/// given day and time of day. The text is the one named by
/// [`date_time_text`].
#[verifier::external_body]
fn format_naive_date_time(day_number: i32, secs: u32, nano: u32) -> (text: String)
    requires
        is_day_number(day_number as int),
        is_time_of_day(secs as int, nano as int),
    ensures
        text@ == date_time_text(day_number as int, secs as int, nano as int),
{
    let date = NaiveDate::from_num_days_from_ce_opt(day_number).unwrap();
    let time = NaiveTime::from_num_seconds_from_midnight_opt(secs, nano).unwrap();
    date.and_time(time).format("%Y-%m-%dT%H:%M:%S").to_string()
}

/// `chrono::NaiveDate::checked_add_days`: the date `count` days after the
/// given one, or `None` where that date lies beyond the calendar.
#[verifier::external_body]
fn naive_date_add_days(day_number: i32, count: u64) -> (shifted: Option<i32>)
    requires
        is_day_number(day_number as int),
    ensures
        shifted is Some <==> day_number + count <= MAX_DAY_NUMBER,
        shifted matches Some(n) ==> n == day_number + count,
{
    let date = NaiveDate::from_num_days_from_ce_opt(day_number).unwrap();
    match date.checked_add_days(Days::new(count)) {
        Some(later) => Some(later.num_days_from_ce()),
        None => None,
    }
}

/// `chrono::NaiveDate::checked_sub_days`: the date `count` days before the
/// given one, or `None` where that date lies beyond the calendar.
#[verifier::external_body]
fn naive_date_sub_days(day_number: i32, count: u64) -> (shifted: Option<i32>)
    requires
        is_day_number(day_number as int),
    ensures
        shifted is Some <==> day_number - count >= MIN_DAY_NUMBER,
        shifted matches Some(n) ==> n == day_number - count,
{
    let date = NaiveDate::from_num_days_from_ce_opt(day_number).unwrap();
    match date.checked_sub_days(Days::new(count)) {
        Some(earlier) => Some(earlier.num_days_from_ce()),
        None => None,
    }
}

/// `chrono::Datelike::weekday` followed by `Weekday::num_days_from_monday`:
/// the day of the week as a number from 0 for Monday to 6 for Sunday, named
/// by [`days_since_monday`].
#[verifier::external_body]
fn naive_date_weekday(day_number: i32) -> (index: u32)
    requires
        is_day_number(day_number as int),
    ensures
        index == days_since_monday(day_number as int),
        index < 7,
{
    NaiveDate::from_num_days_from_ce_opt(day_number).unwrap().weekday().num_days_from_monday()
}

/// `chrono::NaiveWeek::checked_first_day` of the week that starts on Monday:
/// the given date moved back by its [`days_since_monday`], or `None` where
/// that Monday lies before the calendar. What comes back is a date of the
/// calendar.
#[verifier::external_body]
fn naive_week_first_day(day_number: i32) -> (first: Option<i32>)
    requires
        is_day_number(day_number as int),
    ensures
        first is Some <==> day_number - days_since_monday(day_number as int) >= MIN_DAY_NUMBER,
        first matches Some(n) ==> n == day_number - days_since_monday(day_number as int)
            && is_day_number(n as int),
{
    let date = NaiveDate::from_num_days_from_ce_opt(day_number).unwrap();
    match date.week(Weekday::Mon).checked_first_day() {
        Some(monday) => Some(monday.num_days_from_ce()),
        None => None,
    }
}

/// The day number `count` days after day `n`, where the calendar reaches it.
pub open spec fn plus_days(n: int, count: int) -> Option<int> {
    if n + count <= MAX_DAY_NUMBER {
        Some(n + count)
    } else {
        None
    }
}

/// The day number `count` days before day `n`, where the calendar reaches it.
pub open spec fn minus_days(n: int, count: int) -> Option<int> {
    if n - count >= MIN_DAY_NUMBER {
        Some(n - count)
    } else {
        None
    }
}

/// The day number of the Monday on or before day `n`, where the calendar
/// reaches it.
pub open spec fn monday_of(n: int) -> Option<int> {
    minus_days(n, days_since_monday(n))
}

/// A date of the calendar, held as its day number.
#[derive(Clone, Copy, Debug, PartialEq, Eq, Structural, PartialOrd, Ord, Hash)]
pub struct Date {
    day_number: i32,
}

impl View for Date {
    type V = int;

    closed spec fn view(&self) -> int {
        self.day_number as int
    }
}

impl Date {
    /// Every date lies within the calendar.
    #[verifier::type_invariant]
    pub closed spec fn in_calendar(self) -> bool {
        is_day_number(self@)
    }

    /// The date with day number `n`, if the calendar has one.
    pub fn from_day_number(n: i32) -> (date: Option<Date>)
        ensures
            date is Some <==> is_day_number(n as int),
            date matches Some(d) ==> d@ == n,
    {
        if MIN_DAY_NUMBER <= n && n <= MAX_DAY_NUMBER {
            Some(Date { day_number: n })
        } else {
            None
        }
    }

    /// The day number of the date.
    pub fn day_number(&self) -> (n: i32)
        ensures
            n == self@,
            is_day_number(n as int),
    {
        proof {
            use_type_invariant(self);
        }
        self.day_number
    }

    /// Reads a date written as year, month and day, as in `2024-01-15`.
    pub fn parse(text: &str) -> (date: Result<Date, EngineError>)
        ensures
            date is Ok <==> date_from_text(text@, date_format()) is Some,
            date matches Ok(d) ==> date_from_text(text@, date_format()) == Some(d@),
            date is Err ==> date == Err::<Date, EngineError>(EngineError::MalformedDate),
    {
        match parse_naive_date(text, "%Y-%m-%d") {
            Ok(n) => Ok(Date { day_number: n }),
            Err(_) => Err(EngineError::MalformedDate),
        }
    }

    /// Writes the date as year, month and day.
    pub fn to_text(&self) -> (text: String)
        ensures
            text@ == date_text(self@),
    {
        proof {
            use_type_invariant(self);
        }
        format_naive_date(self.day_number)
    }

    /// The date `count` days later, or `None` beyond the end of the calendar.
    pub fn checked_add_days(&self, count: u64) -> (later: Option<Date>)
        ensures
            later is Some <==> plus_days(self@, count as int) is Some,
            later matches Some(d) ==> plus_days(self@, count as int) == Some(d@),
    {
        proof {
            use_type_invariant(self);
        }
        match naive_date_add_days(self.day_number, count) {
            Some(n) => Some(Date { day_number: n }),
            None => None,
        }
    }

    /// The date `count` days earlier, or `None` before the start of the
    /// calendar.
    pub fn checked_sub_days(&self, count: u64) -> (earlier: Option<Date>)
        ensures
            earlier is Some <==> minus_days(self@, count as int) is Some,
            earlier matches Some(d) ==> minus_days(self@, count as int) == Some(d@),
    {
        proof {
            use_type_invariant(self);
        }
        match naive_date_sub_days(self.day_number, count) {
            Some(n) => Some(Date { day_number: n }),
            None => None,
        }
    }

    /// The number of days since the Monday on or before the date: 0 on a
    /// Monday, 6 on a Sunday.
    pub fn days_since_monday(&self) -> (index: u32)
        ensures
            index == days_since_monday(self@),
            index < 7,
    {
        proof {
            use_type_invariant(self);
        }
        naive_date_weekday(self.day_number)
    }

    /// Whether the date is a Monday.
    pub fn is_monday(&self) -> (monday: bool)
        ensures
            monday == (days_since_monday(self@) == 0),
    {
        self.days_since_monday() == 0
    }

    /// The Monday that starts the date's week, or `None` where it lies before
    /// the start of the calendar.
    pub fn week_start(&self) -> (monday: Option<Date>)
        ensures
            monday is Some <==> monday_of(self@) is Some,
            monday matches Some(d) ==> monday_of(self@) == Some(d@),
    {
        proof {
            use_type_invariant(self);
        }
        match naive_week_first_day(self.day_number) {
            Some(n) => Some(Date { day_number: n }),
            None => None,
        }
    }

    /// Whether the date lies strictly before `other`.
    pub fn is_before(&self, other: &Date) -> (before: bool)
        ensures
            before == (self@ < other@),
    {
        self.day_number < other.day_number
    }
}

/// Shifting a date forward and then back by the same number of days gives
/// the date it started from.
pub proof fn lemma_shift_there_and_back(n: int, count: int)
    requires
        is_day_number(n),
        count >= 0,
        plus_days(n, count) is Some,
    ensures
        minus_days(plus_days(n, count)->0, count) == Some(n),
{
}

/// A time of day, held as whole seconds after midnight and nanoseconds.
#[derive(Clone, Copy, Debug, PartialEq, Eq, Structural, PartialOrd, Ord, Hash)]
pub struct TimeOfDay {
    secs: u32,
    nano: u32,
}

impl View for TimeOfDay {
    type V = (int, int);

    closed spec fn view(&self) -> (int, int) {
        (self.secs as int, self.nano as int)
    }
}

impl TimeOfDay {
    /// Every value is a time of day.
    #[verifier::type_invariant]
    pub closed spec fn in_day(self) -> bool {
        is_time_of_day(self@.0, self@.1)
    }

    /// The time `secs` seconds and `nano` nanoseconds after midnight, if that
    /// is a time of day.
    pub fn new(secs: u32, nano: u32) -> (time: Option<TimeOfDay>)
        ensures
            time is Some <==> is_time_of_day(secs as int, nano as int),
            time matches Some(t) ==> t@ == (secs as int, nano as int),
    {
        if secs < 86_400 && nano < 2_000_000_000 && (nano < 1_000_000_000 || secs % 60 == 59) {
            Some(TimeOfDay { secs, nano })
        } else {
            None
        }
    }

    /// Whole seconds since midnight.
    pub fn seconds_from_midnight(&self) -> (secs: u32)
        ensures
            secs == self@.0,
    {
        self.secs
    }

    /// Nanoseconds since the last whole second; a billion or more within a
    /// leap second.
    pub fn nanosecond(&self) -> (nano: u32)
        ensures
            nano == self@.1,
            is_time_of_day(self@.0, self@.1),
    {
        proof {
            use_type_invariant(self);
        }
        self.nano
    }
}

/// Reads a date with a time, as in `2024-01-15T09:30:00`; with `zoned`, the
/// text must end in the zone letter `Z`.
pub fn parse_date_time(text: &str, zoned: bool) -> (moment: Result<(Date, TimeOfDay), EngineError>)
    ensures
        moment is Ok <==> date_time_from_text(
            text@,
            if zoned {
                zoned_date_time_format()
            } else {
                date_time_format()
            },
        ) is Some,
        moment matches Ok(m) ==> date_time_from_text(
            text@,
            if zoned {
                zoned_date_time_format()
            } else {
                date_time_format()
            },
        ) == Some((m.0@, m.1@.0, m.1@.1)),
        moment is Err ==> moment == Err::<(Date, TimeOfDay), EngineError>(
            EngineError::MalformedDate,
        ),
{
    let parsed = if zoned {
        parse_naive_date_time(text, "%Y-%m-%dT%H:%M:%SZ")
    } else {
        parse_naive_date_time(text, "%Y-%m-%dT%H:%M:%S")
    };
    match parsed {
        Ok((day_number, secs, nano)) => Ok((Date { day_number }, TimeOfDay { secs, nano })),
        Err(_) => Err(EngineError::MalformedDate),
    }
}

/// Writes a date with a time, as in `2024-01-15T09:30:00`.
pub fn format_date_time(date: &Date, time: &TimeOfDay) -> (text: String)
    ensures
        text@ == date_time_text(date@, time@.0, time@.1),
{
    proof {
        use_type_invariant(date);
        use_type_invariant(time);
    }
    format_naive_date_time(date.day_number, time.secs, time.nano)
}

} // verus!
