use watchdog::backup_monitor::{
    compose_stale_backup_alert, BackupAction, BackupEvent, BackupMonitor, BackupPhase,
};
use watchdog::calendar::{CalendarDate, Moment};
use watchdog::check_backup::{Freshness, ProbeError};
use watchdog::schedule::{CyclePlan, PlanError};

fn at(day: u32, hour: u32, minute: u32) -> Moment {
    let date = CalendarDate { year: 2024, month: 3, day };
    Moment { date, hour, minute, second: 0, nanosecond: 0 }
}

fn started() -> BackupMonitor {
    BackupMonitor::start(String::from("/var/backups/db"), 5).unwrap().0
}

fn checking_at_five() -> (BackupMonitor, CyclePlan) {
    let mut monitor = started();
    assert_eq!(monitor.step(BackupEvent::Clock(at(10, 5, 0))), Some(BackupAction::CheckBackup));
    let plan = CyclePlan { check_due: true, next_check: at(11, 5, 1), sleep_seconds: 86_460 };
    assert_eq!(monitor.phase(), BackupPhase::Checking { plan });
    (monitor, plan)
}

#[test]
fn the_alert_text() {
    assert_eq!(compose_stale_backup_alert(), "The database was not backed up today.");
}

#[test]
fn a_monitor_reads_the_clock_at_once() {
    let (monitor, first) = BackupMonitor::start(String::from("/var/backups/db"), 5).unwrap();
    assert_eq!(first, BackupAction::ReadClock);
    assert_eq!(monitor.phase(), BackupPhase::ReadingClock);
    assert_eq!(monitor.backup_path(), "/var/backups/db");
    assert_eq!(monitor.deadline_hour(), 5);
}

#[test]
fn a_deadline_that_is_no_hour_starts_no_monitor() {
    assert_eq!(BackupMonitor::start(String::from("/b"), 24), Err(PlanError::InvalidDeadline));
    assert!(BackupMonitor::start(String::from("/b"), 23).is_ok());
    assert!(BackupMonitor::start(String::from("/b"), 0).is_ok());
}

#[test]
fn before_the_deadline_hour_nothing_is_probed() {
    let mut monitor = started();
    assert_eq!(
        monitor.step(BackupEvent::Clock(at(10, 4, 59))),
        Some(BackupAction::Sleep { seconds: 120, until: at(10, 5, 1) })
    );
    assert_eq!(monitor.phase(), BackupPhase::Sleeping);
    assert_eq!(monitor.step(BackupEvent::Woke), Some(BackupAction::ReadClock));
    assert_eq!(monitor.phase(), BackupPhase::ReadingClock);
}

#[test]
fn a_stale_backup_raises_the_alert_and_then_sleeps_until_tomorrow() {
    let (mut monitor, plan) = checking_at_five();
    assert_eq!(
        monitor.step(BackupEvent::Checked(Ok(Freshness::Stale))),
        Some(BackupAction::Notify(String::from("The database was not backed up today.")))
    );
    assert_eq!(monitor.phase(), BackupPhase::Notifying { plan });
    assert_eq!(
        monitor.step(BackupEvent::Notified { delivered: true }),
        Some(BackupAction::Sleep { seconds: 86_460, until: at(11, 5, 1) })
    );
    assert_eq!(monitor.phase(), BackupPhase::Sleeping);
    assert_eq!(monitor.step(BackupEvent::Woke), Some(BackupAction::ReadClock));
}

#[test]
fn a_failed_delivery_does_not_stop_the_backup_monitor() {
    let (mut monitor, _) = checking_at_five();
    monitor.step(BackupEvent::Checked(Ok(Freshness::Stale))).unwrap();
    assert_eq!(
        monitor.step(BackupEvent::Notified { delivered: false }),
        Some(BackupAction::Sleep { seconds: 86_460, until: at(11, 5, 1) })
    );
}

#[test]
fn a_fresh_backup_raises_no_alert() {
    let (mut monitor, _) = checking_at_five();
    assert_eq!(
        monitor.step(BackupEvent::Checked(Ok(Freshness::FreshToday))),
        Some(BackupAction::Sleep { seconds: 86_460, until: at(11, 5, 1) })
    );
    assert_eq!(monitor.phase(), BackupPhase::Sleeping);
}

#[test]
fn a_probe_without_a_verdict_raises_no_alert() {
    let (mut monitor, _) = checking_at_five();
    assert_eq!(
        monitor.step(BackupEvent::Checked(Err(ProbeError::NotFound))),
        Some(BackupAction::Sleep { seconds: 86_460, until: at(11, 5, 1) })
    );
    let (mut monitor, _) = checking_at_five();
    assert_eq!(
        monitor.step(BackupEvent::Checked(Err(ProbeError::Unreadable))),
        Some(BackupAction::Sleep { seconds: 86_460, until: at(11, 5, 1) })
    );
}

#[test]
fn the_sleep_is_counted_from_the_clock_reading_that_opened_the_cycle() {
    let mut monitor = started();
    assert_eq!(monitor.step(BackupEvent::Clock(at(10, 17, 30))), Some(BackupAction::CheckBackup));
    assert_eq!(
        monitor.step(BackupEvent::Checked(Ok(Freshness::FreshToday))),
        Some(BackupAction::Sleep {
            seconds: 6 * 3600 + 30 * 60 + 5 * 3600 + 60,
            until: at(11, 5, 1)
        })
    );
}

#[test]
fn one_check_per_day_over_three_days() {
    let mut monitor = started();
    let mut checks = 0;
    let mut day = 10;
    // The process starts in the afternoon; afterwards it wakes at the
    // scheduled minute of each morning.
    let mut now = at(day, 15, 0);
    while day < 13 {
        match monitor.step(BackupEvent::Clock(now)).unwrap() {
            BackupAction::CheckBackup => {
                checks += 1;
                let action = monitor.step(BackupEvent::Checked(Ok(Freshness::FreshToday))).unwrap();
                day += 1;
                match action {
                    BackupAction::Sleep { until, .. } => {
                        assert_eq!(until, at(day, 5, 1));
                        now = until;
                    }
                    other => panic!("expected a sleep, got {:?}", other),
                }
            }
            other => panic!("expected a check, got {:?}", other),
        }
        assert_eq!(monitor.step(BackupEvent::Woke), Some(BackupAction::ReadClock));
    }
    assert_eq!(checks, 3);
}

#[test]
fn a_backup_event_out_of_turn_is_refused() {
    let mut monitor = started();
    assert_eq!(monitor.step(BackupEvent::Woke), None);
    assert_eq!(monitor.step(BackupEvent::Checked(Ok(Freshness::Stale))), None);
    assert_eq!(monitor.step(BackupEvent::Notified { delivered: true }), None);
    assert_eq!(monitor.phase(), BackupPhase::ReadingClock);

    let (mut monitor, plan) = checking_at_five();
    assert_eq!(monitor.step(BackupEvent::Clock(at(10, 5, 0))), None);
    assert_eq!(monitor.step(BackupEvent::Woke), None);
    assert_eq!(monitor.step(BackupEvent::Notified { delivered: true }), None);
    assert_eq!(monitor.phase(), BackupPhase::Checking { plan });

    monitor.step(BackupEvent::Checked(Ok(Freshness::Stale))).unwrap();
    assert_eq!(monitor.step(BackupEvent::Checked(Ok(Freshness::Stale))), None);
    assert_eq!(monitor.step(BackupEvent::Woke), None);
    assert_eq!(monitor.phase(), BackupPhase::Notifying { plan });

    monitor.step(BackupEvent::Notified { delivered: true }).unwrap();
    assert_eq!(monitor.step(BackupEvent::Clock(at(10, 5, 0))), None);
    assert_eq!(monitor.step(BackupEvent::Notified { delivered: true }), None);
    assert_eq!(monitor.phase(), BackupPhase::Sleeping);
}

#[test]
fn a_clock_reading_outside_the_calendar_is_refused() {
    let mut monitor = started();
    let no_such_day = Moment {
        date: CalendarDate { year: 2023, month: 2, day: 30 },
        hour: 6,
        minute: 0,
        second: 0,
        nanosecond: 0,
    };
    assert_eq!(monitor.step(BackupEvent::Clock(no_such_day)), None);
    assert_eq!(monitor.phase(), BackupPhase::ReadingClock);
    assert_eq!(monitor.step(BackupEvent::Clock(at(10, 6, 0))), Some(BackupAction::CheckBackup));
}
