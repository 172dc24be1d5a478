use chrono::{DateTime, Datelike, FixedOffset, Local, NaiveDateTime, TimeZone, Timelike};
use ew_backup_gen::backup::{
    backup_name_at, begin_backup, start_copy_at, start_stamp_at, BackupAction, BackupEvent,
    BackupRun,
};
use ew_backup_gen::clock::{LocalTime, Timestamp, WallTime};
use ew_backup_gen::retention::{backup_time, DirEntry};

fn at_wall(d: DateTime<FixedOffset>) -> LocalTime {
    LocalTime {
        at: Timestamp::new(d.timestamp(), d.timestamp_subsec_nanos()).unwrap(),
        offset: d.offset().local_minus_utc(),
        wall: WallTime {
            year: d.year(),
            month: d.month(),
            day: d.day(),
            hour: d.hour(),
            minute: d.minute(),
            second: d.second(),
            nanos: d.nanosecond(),
        },
    }
}

fn zone(seconds: i32) -> FixedOffset {
    FixedOffset::east_opt(seconds).unwrap()
}

fn dir(name: &str) -> DirEntry {
    DirEntry { name: Some(name.to_string()), is_dir: true }
}

#[test]
fn backups_are_named_by_the_time() {
    let t = at_wall(zone(-10800).with_ymd_and_hms(2024, 2, 29, 12, 34, 56).unwrap());
    assert_eq!(backup_name_at(&t), "backup_20240229_123456");
    let t = at_wall(zone(0).with_ymd_and_hms(7, 1, 2, 3, 4, 5).unwrap());
    assert_eq!(backup_name_at(&t), "backup_00070102_030405");
    let t = at_wall(zone(0).with_ymd_and_hms(10000, 1, 2, 3, 4, 5).unwrap());
    assert_eq!(backup_name_at(&t), "backup_+100000102_030405");
}

#[test]
fn names_read_back_to_the_second() {
    for year in [0, 1, 999, 1999, 2024, 9999] {
        let d = zone(5400).with_ymd_and_hms(year, 12, 31, 23, 59, 58).unwrap();
        let t = at_wall(d.with_nanosecond(123_456_789).unwrap());
        assert_eq!(
            backup_time(&backup_name_at(&t)),
            Some(WallTime { nanos: 0, ..t.wall })
        );
    }
}

#[test]
fn names_of_signed_years_do_not_read_back() {
    let t = at_wall(zone(0).with_ymd_and_hms(10000, 1, 2, 3, 4, 5).unwrap());
    assert_eq!(backup_time(&backup_name_at(&t)), None);
}

fn stamp(d: DateTime<FixedOffset>) -> String {
    let (run, action) = start_stamp_at(&at_wall(d));
    assert!(matches!(run, BackupRun::Stamping));
    match action {
        BackupAction::WriteStamp(text) => text,
        other => panic!("{:?}", other),
    }
}

#[test]
fn backups_are_noted_by_rfc3339() {
    let d = zone(-10800).with_ymd_and_hms(2024, 2, 29, 12, 34, 56).unwrap();
    assert_eq!(stamp(d), "2024-02-29T12:34:56-03:00");
    assert_eq!(stamp(d.with_nanosecond(250_000_000).unwrap()), "2024-02-29T12:34:56.250-03:00");
    assert_eq!(stamp(d.with_nanosecond(1_000).unwrap()), "2024-02-29T12:34:56.000001-03:00");
    assert_eq!(stamp(d.with_nanosecond(7).unwrap()), "2024-02-29T12:34:56.000000007-03:00");
    let d = zone(20_730).with_ymd_and_hms(10000, 1, 1, 0, 0, 0).unwrap();
    assert_eq!(stamp(d), "+10000-01-01T00:00:00+05:46");
    let d = zone(86_399).with_ymd_and_hms(-5, 1, 1, 0, 0, 0).unwrap();
    assert_eq!(stamp(d), "-0005-01-01T00:00:00+24:00");
}

#[test]
fn copy_starts_under_the_name_of_the_time() {
    let t = at_wall(zone(0).with_ymd_and_hms(2024, 1, 2, 3, 4, 5).unwrap());
    match start_copy_at(&t) {
        (BackupRun::Copying { name: a }, BackupAction::Copy(b)) => {
            assert_eq!(a, "backup_20240102_030405");
            assert_eq!(b, "backup_20240102_030405");
        }
        other => panic!("{:?}", other),
    }
}

fn copying(step: (BackupRun, BackupAction)) -> (BackupRun, String) {
    match step {
        (run @ BackupRun::Copying { .. }, BackupAction::Copy(name)) => (run, name),
        other => panic!("{:?}", other),
    }
}

#[test]
fn without_a_limit_nothing_is_cleaned_up() {
    for max in [None, Some(0)] {
        let before = Local::now().naive_local().with_nanosecond(0).unwrap();
        let (_, name) = copying(begin_backup(max));
        let after = Local::now().naive_local();
        let made = NaiveDateTime::parse_from_str(&name, "backup_%Y%m%d_%H%M%S").unwrap();
        assert!(before <= made && made <= after);
    }
}

#[test]
fn good_backup_goes_through_all_its_steps() {
    let (run, action) = begin_backup(Some(1));
    assert!(matches!(action, BackupAction::List));
    let entries = vec![
        dir("backup_20240103_000000"),
        dir("backup_20240101_000000"),
        dir("backup_20240102_000000"),
        dir("other"),
    ];
    let (run, action) = run.step(BackupEvent::Listed(entries));
    assert!(matches!(&action, BackupAction::Remove(n) if n == "backup_20240101_000000"));
    let (run, action) = run.step(BackupEvent::Removed);
    assert!(matches!(&action, BackupAction::Remove(n) if n == "backup_20240102_000000"));
    let (run, name) = copying(run.step(BackupEvent::Removed));
    assert!(backup_time(&name).is_some());
    let (run, action) = run.step(BackupEvent::Copied);
    match action {
        BackupAction::WriteStamp(text) => {
            let noted = DateTime::parse_from_rfc3339(&text).unwrap();
            assert!((Local::now().timestamp() - noted.timestamp()).abs() < 60);
        }
        other => panic!("{:?}", other),
    }
    let (run, action) = run.step(BackupEvent::StampWritten);
    assert!(matches!(run, BackupRun::Ended));
    assert!(matches!(action, BackupAction::Finish));
}

#[test]
fn few_backups_go_straight_to_the_copy() {
    let (run, _) = begin_backup(Some(2));
    copying(run.step(BackupEvent::Listed(vec![dir("backup_20240103_000000")])));
}

fn assert_failed(step: (BackupRun, BackupAction)) {
    assert!(matches!(step, (BackupRun::Ended, BackupAction::Fail)));
}

#[test]
fn failures_end_a_backup() {
    assert_failed(begin_backup(Some(1)).0.step(BackupEvent::ListingFailed));
    let two = vec![dir("backup_20240103_000000"), dir("backup_20240101_000000")];
    let (run, _) = begin_backup(Some(1)).0.step(BackupEvent::Listed(two));
    assert_failed(run.step(BackupEvent::RemovalFailed));
    assert_failed(begin_backup(None).0.step(BackupEvent::TargetFailed));
    assert_failed(begin_backup(None).0.step(BackupEvent::CopyAborted));
    let (run, _) = begin_backup(None).0.step(BackupEvent::Copied);
    assert_failed(run.step(BackupEvent::StampFailed));
}

#[test]
fn failed_copy_is_discarded() {
    let (run, name) = copying(begin_backup(None));
    let (run, action) = run.step(BackupEvent::CopyFailed);
    assert!(matches!(&action, BackupAction::Discard(n) if *n == name));
    assert_failed(run.step(BackupEvent::Discarded));
}

#[test]
fn backup_accepts_what_it_waits_for() {
    let (run, _) = begin_backup(None);
    assert!(run.accepts(&BackupEvent::Copied));
    assert!(run.accepts(&BackupEvent::TargetFailed));
    assert!(run.accepts(&BackupEvent::CopyFailed));
    assert!(run.accepts(&BackupEvent::CopyAborted));
    assert!(!run.accepts(&BackupEvent::Removed));
    let (run, _) = begin_backup(Some(1));
    assert!(run.accepts(&BackupEvent::Listed(vec![])));
    assert!(run.accepts(&BackupEvent::ListingFailed));
    assert!(!run.accepts(&BackupEvent::Copied));
    assert!(BackupRun::Discarding.accepts(&BackupEvent::Discarded));
    assert!(BackupRun::Stamping.accepts(&BackupEvent::StampFailed));
    assert!(!BackupRun::Ended.accepts(&BackupEvent::StampWritten));
    assert!(!BackupRun::Removing { pending: vec![] }.accepts(&BackupEvent::Removed));
}
