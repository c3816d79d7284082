//! When the daily backup check runs and how long to sleep until the next one.

use crate::calendar::{next_calendar_date, whole_seconds_between, CalendarDate, Moment};
use vstd::prelude::*;

verus! {

/// The hour of day by which the nightly backup is expected to exist.
pub const BACKUP_TIME: u32 = 5;

/// The minute past the deadline hour at which the check is scheduled.
pub const CHECK_MINUTE: u32 = 1;

/// Why no cycle could be planned.
#[derive(Clone, Copy, Debug, PartialEq, Eq, Structural)]
pub enum PlanError {
    /// The deadline is no hour of the day.
    InvalidDeadline,
    /// The clock reading, or the day after it, lies outside the calendar.
    OutOfCalendar,
}

/// One cycle of the backup monitor, decided from a single clock reading.
#[derive(Clone, Copy, Debug, PartialEq, Eq, Structural)]
pub struct CyclePlan {
    /// Whether the backup is checked in this cycle.
    pub check_due: bool,
    /// When the monitor wakes next.
    pub next_check: Moment,
    /// How long it sleeps until then.
    pub sleep_seconds: u64,
}

/// The check is due once the deadline hour has begun.
pub open spec fn check_is_due(now: Moment, deadline_hour: u32) -> bool {
    now.hour >= deadline_hour
}

/// One minute past the deadline hour: today while the deadline is still
/// ahead, tomorrow once it has passed. `tomorrow` is the day after `now`,
/// where the calendar has one.
pub open spec fn next_check_time(
    now: Moment,
    deadline_hour: u32,
    tomorrow: Option<CalendarDate>,
) -> Result<Moment, PlanError> {
    if deadline_hour >= 24 {
        Err(PlanError::InvalidDeadline)
    } else if check_is_due(now, deadline_hour) {
        match tomorrow {
            Some(day) => Ok(Moment::spec_at(day, deadline_hour, CHECK_MINUTE)),
            None => Err(PlanError::OutOfCalendar),
        }
    } else {
        Ok(Moment::spec_at(now.date, deadline_hour, CHECK_MINUTE))
    }
}

/// A span of seconds as a sleep: a negative span means no sleep at all.
pub open spec fn clamped_seconds(span: int) -> int {
    if span < 0 {
        0
    } else {
        span
    }
}

/// The plan for a cycle whose next check is `next_check`, given the span of
/// seconds from now until then, where the calendar can tell it.
pub open spec fn plan_until(check_due: bool, next_check: Moment, span: Option<i64>) -> Result<
    CyclePlan,
    PlanError,
> {
    match span {
        None => Err(PlanError::OutOfCalendar),
        Some(seconds) => Ok(
            CyclePlan {
                check_due,
                next_check,
                sleep_seconds: clamped_seconds(seconds as int) as u64,
            },
        ),
    }
}

/// The plan that a clock reading and a deadline hour determine.
pub open spec fn planned(now: Moment, deadline_hour: u32) -> Result<CyclePlan, PlanError> {
    match next_check_time(now, deadline_hour, next_calendar_date(now.date)) {
        Err(error) => Err(error),
        Ok(next_check) => plan_until(
            check_is_due(now, deadline_hour),
            next_check,
            whole_seconds_between(now, next_check),
        ),
    }
}

/// Turns a signed span of seconds into a sleep, waking at once where the
/// target already lies in the past.
pub fn sleep_duration(span: i64) -> (seconds: u64)
    ensures
        seconds == clamped_seconds(span as int),
{
    if span < 0 {
        0
    } else {
        span as u64
    }
}

/// When the monitor wakes next, given the day after `now`. Before the
/// deadline hour that is today's check and `tomorrow` plays no part.
pub fn next_check(now: &Moment, deadline_hour: u32, tomorrow: Option<CalendarDate>) -> (next:
    Result<Moment, PlanError>)
    ensures
        next == next_check_time(*now, deadline_hour, tomorrow),
{
    if deadline_hour >= 24 {
        Err(PlanError::InvalidDeadline)
    } else if now.hour >= deadline_hour {
        match tomorrow {
            Some(day) => Ok(Moment::at(day, deadline_hour, CHECK_MINUTE)),
            None => Err(PlanError::OutOfCalendar),
        }
    } else {
        Ok(Moment::at(now.date, deadline_hour, CHECK_MINUTE))
    }
}

/// Completes a plan from the span of seconds until its next check.
pub fn cycle_plan(check_due: bool, next_check: Moment, span: Option<i64>) -> (plan: Result<
    CyclePlan,
    PlanError,
>)
    ensures
        plan == plan_until(check_due, next_check, span),
{
    match span {
        None => Err(PlanError::OutOfCalendar),
        Some(seconds) => Ok(
            CyclePlan { check_due, next_check, sleep_seconds: sleep_duration(seconds) },
        ),
    }
}

/// Decides one cycle from the clock reading `now`: whether the backup is
/// checked now, when the monitor wakes next, and how long it sleeps.
///
/// The next wake-up always lies after `now`.
pub fn plan_cycle(now: &Moment, deadline_hour: u32) -> (plan: Result<CyclePlan, PlanError>)
    ensures
        plan == planned(*now, deadline_hour),
        plan matches Ok(p) ==> now.is_before(p.next_check),
{
    let check_due = now.hour >= deadline_hour;
    let tomorrow = if check_due {
        now.date.following()
    } else {
        None
    };
    match next_check(now, deadline_hour, tomorrow) {
        Err(error) => Err(error),
        Ok(next_check) => cycle_plan(check_due, next_check, now.seconds_until(&next_check)),
    }
}

/// The wake-up that a plan schedules falls into the deadline hour: a monitor
/// that wakes on time finds the check due, so that no day goes by without
/// one.
pub proof fn waking_on_time_finds_the_check_due(now: Moment, deadline_hour: u32)
    requires
        planned(now, deadline_hour) is Ok,
    ensures
        check_is_due(planned(now, deadline_hour)->Ok_0.next_check, deadline_hour),
{
}

} // verus!
