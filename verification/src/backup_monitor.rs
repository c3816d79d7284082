//! The backup monitor: once a day, after the deadline, it has the backup
//! directory probed and raises an alert where the backup is stale.
//!
//! Like the endpoint monitor it is a state machine that a driver feeds with
//! events and that answers with the next action.

use crate::calendar::Moment;
use crate::check_backup::{Freshness, ProbeError};
use crate::schedule::{plan_cycle, planned, CyclePlan, PlanError};
use vstd::prelude::*;

verus! {

/// The alert for a missing backup.
pub open spec fn stale_backup_alert() -> Seq<char> {
    "The database was not backed up today."@
}

/// Writes the alert for a missing backup.
pub fn compose_stale_backup_alert() -> (message: String)
    ensures
        message@ == stale_backup_alert(),
{
    String::from_str("The database was not backed up today.")
}

/// Where in its cycle the backup monitor stands: what it is waiting for.
#[derive(Clone, Copy, Debug, PartialEq, Eq, Structural)]
pub enum BackupPhase {
    /// The clock is being read to plan the cycle.
    ReadingClock,
    /// The backup directory is being probed.
    Checking { plan: CyclePlan },
    /// The alert is being delivered.
    Notifying { plan: CyclePlan },
    /// The sleep until the next check.
    Sleeping,
}

/// What the driver reports back.
#[derive(Clone, Copy, Debug, PartialEq, Eq)]
pub enum BackupEvent {
    /// The local time now.
    Clock(Moment),
    /// The freshness probe ended with this result.
    Checked(Result<Freshness, ProbeError>),
    /// The delivery of the alert ended, well or not.
    Notified { delivered: bool },
    /// The sleep is over.
    Woke,
}

/// What the driver is to do next.
#[derive(Debug, PartialEq, Eq)]
pub enum BackupAction {
    /// Read the local time.
    ReadClock,
    /// Probe the backup directory.
    CheckBackup,
    /// Deliver this alert.
    Notify(String),
    /// Sleep for `seconds`, which ends at `until`.
    Sleep { seconds: u64, until: Moment },
}

/// An action, with text as a sequence of characters.
pub enum BackupActionView {
    ReadClock,
    CheckBackup,
    Notify(Seq<char>),
    Sleep { seconds: u64, until: Moment },
}

impl View for BackupAction {
    type V = BackupActionView;

    open spec fn view(&self) -> BackupActionView {
        match self {
            BackupAction::ReadClock => BackupActionView::ReadClock,
            BackupAction::CheckBackup => BackupActionView::CheckBackup,
            BackupAction::Notify(message) => BackupActionView::Notify(message@),
            BackupAction::Sleep { seconds, until } => BackupActionView::Sleep {
                seconds: *seconds,
                until: *until,
            },
        }
    }
}

/// The sleep that ends a cycle.
pub open spec fn sleep_of(plan: CyclePlan) -> BackupActionView {
    BackupActionView::Sleep { seconds: plan.sleep_seconds, until: plan.next_check }
}

/// The cycle. A clock reading before the deadline hour leads straight to the
/// sleep until today's check; one from the deadline hour on has the backup
/// probed first and the sleep last until tomorrow's check. Only a stale
/// backup raises an alert: a probe without a verdict does not. A clock
/// reading that no cycle can be planned from, and an event that the phase is
/// not waiting for, have no transition.
pub open spec fn transition(deadline_hour: u32, phase: BackupPhase, event: BackupEvent) -> Option<
    (BackupPhase, BackupActionView),
> {
    match (phase, event) {
        (BackupPhase::ReadingClock, BackupEvent::Clock(now)) => match planned(now, deadline_hour) {
            Ok(plan) => if plan.check_due {
                Some((BackupPhase::Checking { plan }, BackupActionView::CheckBackup))
            } else {
                Some((BackupPhase::Sleeping, sleep_of(plan)))
            },
            Err(_) => None,
        },
        (BackupPhase::Checking { plan }, BackupEvent::Checked(Ok(Freshness::Stale))) => Some(
            (BackupPhase::Notifying { plan }, BackupActionView::Notify(stale_backup_alert())),
        ),
        (BackupPhase::Checking { plan }, BackupEvent::Checked(_)) => Some(
            (BackupPhase::Sleeping, sleep_of(plan)),
        ),
        (BackupPhase::Notifying { plan }, BackupEvent::Notified { .. }) => Some(
            (BackupPhase::Sleeping, sleep_of(plan)),
        ),
        (BackupPhase::Sleeping, BackupEvent::Woke) => Some(
            (BackupPhase::ReadingClock, BackupActionView::ReadClock),
        ),
        _ => None,
    }
}

/// The monitor of the backup directory.
#[derive(Debug, PartialEq, Eq)]
pub struct BackupMonitor {
    backup_path: String,
    deadline_hour: u32,
    phase: BackupPhase,
}

/// A backup monitor as its directory, its deadline hour and its phase.
pub struct BackupState {
    pub backup_path: Seq<char>,
    pub deadline_hour: u32,
    pub phase: BackupPhase,
}

impl View for BackupMonitor {
    type V = BackupState;

    closed spec fn view(&self) -> BackupState {
        BackupState {
            backup_path: self.backup_path@,
            deadline_hour: self.deadline_hour,
            phase: self.phase,
        }
    }
}

impl BackupMonitor {
    /// A monitor for the directory `backup_path` with the given deadline
    /// hour, together with its first action: it reads the clock at once. A
    /// deadline that is no hour of the day is refused.
    pub fn start(backup_path: String, deadline_hour: u32) -> (started: Result<
        (BackupMonitor, BackupAction),
        PlanError,
    >)
        ensures
            started is Ok <==> deadline_hour < 24,
            started matches Ok(pair) ==> {
                &&& pair.0@ == (BackupState {
                    backup_path: backup_path@,
                    deadline_hour,
                    phase: BackupPhase::ReadingClock,
                })
                &&& pair.1@ == BackupActionView::ReadClock
            },
            started matches Err(error) ==> error == PlanError::InvalidDeadline,
    {
        if deadline_hour >= 24 {
            Err(PlanError::InvalidDeadline)
        } else {
            Ok(
                (
                    BackupMonitor { backup_path, deadline_hour, phase: BackupPhase::ReadingClock },
                    BackupAction::ReadClock,
                ),
            )
        }
    }

    /// The directory that is watched.
    pub fn backup_path(&self) -> (path: &str)
        ensures
            path@ == self@.backup_path,
    {
        self.backup_path.as_str()
    }

    /// The hour of day by which the backup is expected.
    pub fn deadline_hour(&self) -> (hour: u32)
        ensures
            hour == self@.deadline_hour,
    {
        self.deadline_hour
    }

    /// What the monitor is waiting for.
    pub fn phase(&self) -> (phase: BackupPhase)
        ensures
            phase == self@.phase,
    {
        self.phase
    }

    /// Takes the event that ends the current phase and gives the next
    /// action. An event without a transition is refused with `None` and
    /// changes nothing.
    pub fn step(&mut self, event: BackupEvent) -> (action: Option<BackupAction>)
        ensures
            final(self)@.backup_path == old(self)@.backup_path,
            final(self)@.deadline_hour == old(self)@.deadline_hour,
            match transition(old(self)@.deadline_hour, old(self)@.phase, event) {
                Some((phase, expected)) => {
                    &&& final(self)@.phase == phase
                    &&& action matches Some(a)
                    &&& a@ == expected
                },
                None => final(self)@.phase == old(self)@.phase && action is None,
            },
    {
        match self.phase {
            BackupPhase::ReadingClock => match event {
                BackupEvent::Clock(now) => match plan_cycle(&now, self.deadline_hour) {
                    Ok(plan) => {
                        if plan.check_due {
                            self.phase = BackupPhase::Checking { plan };
                            Some(BackupAction::CheckBackup)
                        } else {
                            self.phase = BackupPhase::Sleeping;
                            Some(sleep_until(&plan))
                        }
                    },
                    Err(_) => None,
                },
                _ => None,
            },
            BackupPhase::Checking { plan } => match event {
                BackupEvent::Checked(Ok(Freshness::Stale)) => {
                    self.phase = BackupPhase::Notifying { plan };
                    Some(BackupAction::Notify(compose_stale_backup_alert()))
                },
                BackupEvent::Checked(_) => {
                    self.phase = BackupPhase::Sleeping;
                    Some(sleep_until(&plan))
                },
                _ => None,
            },
            BackupPhase::Notifying { plan } => match event {
                BackupEvent::Notified { .. } => {
                    self.phase = BackupPhase::Sleeping;
                    Some(sleep_until(&plan))
                },
                _ => None,
            },
            BackupPhase::Sleeping => match event {
                BackupEvent::Woke => {
                    self.phase = BackupPhase::ReadingClock;
                    Some(BackupAction::ReadClock)
                },
                _ => None,
            },
        }
    }
}

fn sleep_until(plan: &CyclePlan) -> (action: BackupAction)
    ensures
        action@ == sleep_of(*plan),
{
    BackupAction::Sleep { seconds: plan.sleep_seconds, until: plan.next_check }
}

/// An alert is raised for a stale backup and for nothing else: not for a
/// fresh one, and not where the probe gave no verdict.
pub proof fn alert_only_for_a_stale_backup(
    deadline_hour: u32,
    phase: BackupPhase,
    event: BackupEvent,
)
    ensures
        match transition(deadline_hour, phase, event) {
            Some((_, BackupActionView::Notify(message))) => {
                &&& phase is Checking
                &&& event == BackupEvent::Checked(Ok(Freshness::Stale))
                &&& message == stale_backup_alert()
            },
            _ => !(phase is Checking && event == BackupEvent::Checked(Ok(Freshness::Stale))),
        },
{
}

/// The backup is probed in a cycle exactly when the clock reading that
/// opened it shows the deadline hour or a later one.
pub proof fn probe_only_from_the_deadline_on(deadline_hour: u32, now: Moment)
    requires
        planned(now, deadline_hour) is Ok,
    ensures
        match transition(deadline_hour, BackupPhase::ReadingClock, BackupEvent::Clock(now)) {
            Some((_, action)) => {
                &&& action is CheckBackup <==> now.hour >= deadline_hour
                &&& action is Sleep <==> now.hour < deadline_hour
            },
            None => false,
        },
{
}

} // verus!
