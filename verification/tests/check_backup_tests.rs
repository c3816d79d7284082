use watchdog::calendar::CalendarDate;
use watchdog::check_backup::{
    backup_done_today, get_file_modification_time, get_newer_file_in_directory, FileRecord,
    Freshness, Modified, ProbeError,
};

const DAY_NS: i128 = 86_400_000_000_000;

fn day(d: u32) -> CalendarDate {
    CalendarDate { year: 2024, month: 3, day: d }
}

fn file_on(d: u32) -> FileRecord {
    FileRecord {
        is_file: true,
        modified: Some(Modified { instant: d as i128 * DAY_NS, local_date: day(d) }),
    }
}

fn directory_on(d: u32) -> FileRecord {
    FileRecord { is_file: false, ..file_on(d) }
}

fn file_without_time() -> FileRecord {
    FileRecord { is_file: true, modified: None }
}

#[test]
fn newest_file_of_today_is_fresh() {
    let listing = Some(vec![file_on(8), file_on(10), file_on(9)]);
    assert_eq!(get_newer_file_in_directory(&listing), Ok(1));
    assert_eq!(backup_done_today(&listing, &day(10)), Ok(Freshness::FreshToday));
}

#[test]
fn newest_file_of_yesterday_is_stale() {
    let listing = Some(vec![file_on(8), file_on(10), file_on(9)]);
    assert_eq!(backup_done_today(&listing, &day(11)), Ok(Freshness::Stale));
}

#[test]
fn an_older_file_of_today_does_not_count_when_a_newer_one_is_dated_otherwise() {
    // The newest file decides, whatever the other files say.
    let newest_elsewhere = FileRecord {
        is_file: true,
        modified: Some(Modified { instant: 99 * DAY_NS, local_date: day(12) }),
    };
    let listing = Some(vec![file_on(10), newest_elsewhere]);
    assert_eq!(backup_done_today(&listing, &day(10)), Ok(Freshness::Stale));
    assert_eq!(backup_done_today(&listing, &day(12)), Ok(Freshness::FreshToday));
}

#[test]
fn the_date_is_compared_in_full() {
    let listing = Some(vec![file_on(10)]);
    let same_day_other_month = CalendarDate { year: 2024, month: 4, day: 10 };
    let same_day_other_year = CalendarDate { year: 2023, month: 3, day: 10 };
    assert_eq!(backup_done_today(&listing, &same_day_other_month), Ok(Freshness::Stale));
    assert_eq!(backup_done_today(&listing, &same_day_other_year), Ok(Freshness::Stale));
}

#[test]
fn an_empty_directory_is_not_found() {
    let listing = Some(Vec::new());
    assert_eq!(get_newer_file_in_directory(&listing), Err(ProbeError::NotFound));
    assert_eq!(backup_done_today(&listing, &day(10)), Err(ProbeError::NotFound));
}

#[test]
fn an_unreadable_directory_is_not_found() {
    assert_eq!(get_newer_file_in_directory(&None), Err(ProbeError::NotFound));
    assert_eq!(backup_done_today(&None, &day(10)), Err(ProbeError::NotFound));
}

#[test]
fn a_directory_of_directories_is_not_found() {
    let listing = Some(vec![directory_on(10), directory_on(11)]);
    assert_eq!(get_newer_file_in_directory(&listing), Err(ProbeError::NotFound));
    assert_eq!(backup_done_today(&listing, &day(10)), Err(ProbeError::NotFound));
}

#[test]
fn directories_are_passed_over() {
    let listing = Some(vec![file_on(9), directory_on(12), file_on(8)]);
    assert_eq!(get_newer_file_in_directory(&listing), Ok(0));
    assert_eq!(backup_done_today(&listing, &day(12)), Ok(Freshness::Stale));
    assert_eq!(backup_done_today(&listing, &day(9)), Ok(Freshness::FreshToday));
}

#[test]
fn of_files_modified_at_one_instant_the_last_is_taken() {
    let listing = Some(vec![file_on(10), file_on(9), file_on(10), file_on(3)]);
    assert_eq!(get_newer_file_in_directory(&listing), Ok(2));
}

#[test]
fn a_file_without_a_time_ranks_below_every_other() {
    let listing = Some(vec![file_without_time(), file_on(1), file_without_time()]);
    assert_eq!(get_newer_file_in_directory(&listing), Ok(1));
    assert_eq!(backup_done_today(&listing, &day(1)), Ok(Freshness::FreshToday));
}

#[test]
fn files_before_the_epoch_are_ordered_too() {
    let old = FileRecord {
        is_file: true,
        modified: Some(Modified { instant: -5 * DAY_NS, local_date: day(1) }),
    };
    let older = FileRecord {
        is_file: true,
        modified: Some(Modified { instant: -6 * DAY_NS, local_date: day(2) }),
    };
    let listing = Some(vec![old, older]);
    assert_eq!(get_newer_file_in_directory(&listing), Ok(0));
    assert_eq!(backup_done_today(&listing, &day(1)), Ok(Freshness::FreshToday));
}

#[test]
fn only_files_without_a_time_give_no_verdict() {
    let listing = Some(vec![file_without_time(), directory_on(10), file_without_time()]);
    assert_eq!(get_newer_file_in_directory(&listing), Ok(2));
    assert_eq!(backup_done_today(&listing, &day(10)), Err(ProbeError::Unreadable));
}

#[test]
fn modification_time_of_an_entry() {
    assert_eq!(
        get_file_modification_time(&file_on(4)),
        Ok(Modified { instant: 4 * DAY_NS, local_date: day(4) })
    );
    assert_eq!(get_file_modification_time(&file_without_time()), Err(ProbeError::Unreadable));
}
