//! Civil dates and wall-clock times as plain numbers, with the calendar
//! arithmetic delegated to `chrono`.

use vstd::prelude::*;

verus! {

/// A day named by year, month and day of month.
#[derive(Clone, Copy, Debug, PartialEq, Eq, Structural)]
pub struct CalendarDate {
    pub year: i32,
    pub month: u32,
    pub day: u32,
}

/// A wall-clock reading: a day and the time of day down to the nanosecond.
#[derive(Clone, Copy, Debug, PartialEq, Eq, Structural)]
pub struct Moment {
    pub date: CalendarDate,
    pub hour: u32,
    pub minute: u32,
    pub second: u32,
    pub nanosecond: u32,
}

/// The day after `date` as `chrono::NaiveDate::succ_opt` gives it; `None`
/// where `date` is no day that `chrono` can represent or is the last one.
pub uninterp spec fn next_calendar_date(date: CalendarDate) -> Option<CalendarDate>;

/// The whole seconds that `chrono` counts from `from` to `to`, negative where
/// `to` is the earlier one; `None` where either is no reading that `chrono`
/// can represent.
pub uninterp spec fn whole_seconds_between(from: Moment, to: Moment) -> Option<i64>;

impl CalendarDate {
    /// Chronological order, read off the three numbers.
    pub open spec fn is_before(self, other: CalendarDate) -> bool {
        self.year < other.year || (self.year == other.year && (self.month < other.month || (
        self.month == other.month && self.day < other.day)))
    }

    /// The day after this one, or `None` where the calendar of `chrono` has none.
    ///
    /// Trusted: calls `chrono::NaiveDate::from_ymd_opt` and
    /// `chrono::NaiveDate::succ_opt`. The contract names the result and adds
    /// that the next calendar date is a later one.
    #[verifier::external_body]
    pub(crate) fn following(&self) -> (next: Option<CalendarDate>)
        ensures
            next == next_calendar_date(*self),
            next matches Some(n) ==> self.is_before(n),
    {
        let today = chrono::NaiveDate::from_ymd_opt(self.year, self.month, self.day)?;
        let next = today.succ_opt()?;
        Some(
            CalendarDate {
                year: chrono::Datelike::year(&next),
                month: chrono::Datelike::month(&next),
                day: chrono::Datelike::day(&next),
            },
        )
    }
}

impl Moment {
    /// The reading `hour:minute:00` on `date`.
    pub open spec fn spec_at(date: CalendarDate, hour: u32, minute: u32) -> Moment {
        Moment { date, hour, minute, second: 0, nanosecond: 0 }
    }

    /// Chronological order: by day, then by time of day.
    pub open spec fn is_before(self, other: Moment) -> bool {
        self.date.is_before(other.date) || (self.date == other.date && (self.hour < other.hour || (
        self.hour == other.hour && (self.minute < other.minute || (self.minute == other.minute && (
        self.second < other.second || (self.second == other.second && self.nanosecond
            < other.nanosecond)))))))
    }

    /// The reading `hour:minute:00` on `date`.
    pub fn at(date: CalendarDate, hour: u32, minute: u32) -> (moment: Moment)
        ensures
            moment == Moment::spec_at(date, hour, minute),
    {
        Moment { date, hour, minute, second: 0, nanosecond: 0 }
    }

    /// Whole seconds from `self` to `later`, truncated toward zero.
    ///
    /// Trusted: builds both readings with `chrono::NaiveDate::from_ymd_opt`
    /// and `chrono::NaiveDate::and_hms_nano_opt`, subtracts them as
    /// `chrono::NaiveDateTime` and takes `chrono::TimeDelta::num_seconds`.
    /// The contract only names the result.
    #[verifier::external_body]
    pub(crate) fn seconds_until(&self, later: &Moment) -> (seconds: Option<i64>)
        ensures
            seconds == whole_seconds_between(*self, *later),
    {
        let from = chrono::NaiveDate::from_ymd_opt(self.date.year, self.date.month, self.date.day)?
            .and_hms_nano_opt(self.hour, self.minute, self.second, self.nanosecond)?;
        let to = chrono::NaiveDate::from_ymd_opt(later.date.year, later.date.month, later.date.day)?
            .and_hms_nano_opt(later.hour, later.minute, later.second, later.nanosecond)?;
        Some((to - from).num_seconds())
    }
}

} // verus!
