//! Days, weekdays and the alignment of weeks.
//!
//! A [`Date`] is a position on the day line of the proleptic Gregorian
//! calendar. Adding and subtracting days is integer arithmetic; which weekday
//! a day falls on is asked of `chrono`.

use vstd::prelude::*;

verus! {

/// A day of the week.
#[derive(Clone, Copy, Debug, PartialEq, Eq, Structural)]
pub enum Weekday {
    Mon,
    Tue,
    Wed,
    Thu,
    Fri,
    Sat,
    Sun,
}

impl Weekday {
    /// The number of days from Monday to this weekday, `0` for Monday up to
    /// `6` for Sunday.
    pub open spec fn index(self) -> int {
        match self {
            Weekday::Mon => 0,
            Weekday::Tue => 1,
            Weekday::Wed => 2,
            Weekday::Thu => 3,
            Weekday::Fri => 4,
            Weekday::Sat => 5,
            Weekday::Sun => 6,
        }
    }

    /// The number of days from Monday to this weekday.
    pub fn num_days_from_monday(self) -> (n: u8)
        ensures
            n == self.index(),
    {
        match self {
            Weekday::Mon => 0,
            Weekday::Tue => 1,
            Weekday::Wed => 2,
            Weekday::Thu => 3,
            Weekday::Fri => 4,
            Weekday::Sat => 5,
            Weekday::Sun => 6,
        }
    }
}

/// A calendar day, held as its number in the proleptic Gregorian calendar:
/// day 1 is 1 January of the year 1, day 0 the day before it.
#[derive(Clone, Copy, Debug, PartialEq, Eq, Structural)]
pub struct Date {
    days: i32,
}

impl View for Date {
    type V = int;

    /// The day's number.
    closed spec fn view(&self) -> int {
        self.days as int
    }
}

impl Date {
    /// The day with the given number.
    pub fn from_days_from_ce(days: i32) -> (date: Date)
        ensures
            date@ == days,
    {
        Date { days }
    }

    /// The day's number.
    pub fn days_from_ce(&self) -> (days: i32)
        ensures
            days == self@,
    {
        self.days
    }

    /// The weekday on which the day falls, or `None` for a day outside the
    /// calendar that `chrono` covers.
    pub fn weekday(&self) -> (weekday: Option<Weekday>)
        ensures
            weekday == weekday_on(self@),
    {
        weekday_of(self.days)
    }
}

/// The weekday that `chrono` gives to the day with the given number, `None`
/// where its calendar does not reach that day.
pub uninterp spec fn weekday_on(days_from_ce: int) -> Option<Weekday>;

/// Calls `chrono::NaiveDate::from_num_days_from_ce_opt` and, on the date it
/// returns, `chrono::Datelike::weekday`.
///
/// Trusted: the result is what those two give for `days`, which depends on
/// `days` alone. Nothing is claimed about which weekday that is.
#[verifier::external_body]
fn weekday_of(days: i32) -> (weekday: Option<Weekday>)
    ensures
        weekday == weekday_on(days as int),
{
    let date = chrono::NaiveDate::from_num_days_from_ce_opt(days)?;
    Some(match chrono::Datelike::weekday(&date) {
        chrono::Weekday::Mon => Weekday::Mon,
        chrono::Weekday::Tue => Weekday::Tue,
        chrono::Weekday::Wed => Weekday::Wed,
        chrono::Weekday::Thu => Weekday::Thu,
        chrono::Weekday::Fri => Weekday::Fri,
        chrono::Weekday::Sat => Weekday::Sat,
        chrono::Weekday::Sun => Weekday::Sun,
    })
}

/// How many days a day that falls on `weekday` lies past the start of its
/// week, when weeks begin on `first`.
pub open spec fn days_into_week(weekday: Weekday, first: Weekday) -> int {
    (weekday.index() - first.index() + 7) % 7
}

/// The first day of the week that holds `day`, a day that falls on `weekday`,
/// when weeks begin on `first`.
pub open spec fn week_start(day: int, weekday: Weekday, first: Weekday) -> int {
    day - days_into_week(weekday, first)
}

/// Computes how far into its week a day that falls on `weekday` lies.
pub fn offset_in_week(weekday: Weekday, first: Weekday) -> (offset: u8)
    ensures
        offset == days_into_week(weekday, first),
        offset < 7,
        weekday == first ==> offset == 0,
{
    let from: u8 = first.num_days_from_monday();
    let to: u8 = weekday.num_days_from_monday();
    (to + 7 - from) % 7
}

/// A week starts on or before each of its days, less than seven days back,
/// and on the day itself where that falls on the first weekday.
pub proof fn lemma_week_start_bounds(day: int, weekday: Weekday, first: Weekday)
    ensures
        week_start(day, weekday, first) <= day < week_start(day, weekday, first) + 7,
        weekday == first ==> week_start(day, weekday, first) == day,
{
}

} // verus!
