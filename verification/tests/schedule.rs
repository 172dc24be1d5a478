use chrono::{DateTime, FixedOffset, Local, TimeZone, Timelike, Datelike};
use ew_backup_gen::clock::{LocalTime, Timestamp, WallTime, FIRST_SECOND, LAST_SECOND};
use ew_backup_gen::schedule::{
    check_at, describe_wait, initial_run_at, should_run_check_file, should_run_initially,
    EstimateOutOfRange, InitialRun, LastRun,
};

fn moment(secs: i64, nanos: u32) -> Timestamp {
    Timestamp::new(secs, nanos).unwrap()
}

fn local(secs: i64, nanos: u32) -> LocalTime {
    let d = Local.timestamp_opt(secs, nanos).unwrap();
    at_wall(d.with_timezone(d.offset()))
}

fn at_wall(d: DateTime<FixedOffset>) -> LocalTime {
    LocalTime {
        at: moment(d.timestamp(), d.timestamp_subsec_nanos()),
        offset: d.offset().local_minus_utc(),
        wall: WallTime {
            year: d.year(),
            month: d.month(),
            day: d.day(),
            hour: d.hour(),
            minute: d.minute(),
            second: d.second(),
            nanos: d.nanosecond(),
        },
    }
}

const NOW: i64 = 1_709_210_096;

#[test]
fn moments_have_limits() {
    assert!(Timestamp::new(FIRST_SECOND, 0).is_some());
    assert!(Timestamp::new(FIRST_SECOND - 1, 0).is_none());
    assert!(Timestamp::new(LAST_SECOND, 999_999_999).is_some());
    assert!(Timestamp::new(LAST_SECOND + 1, 0).is_none());
    assert!(Timestamp::new(0, 1_000_000_000).is_none());
    assert_eq!(DateTime::<chrono::Utc>::MIN_UTC.timestamp(), FIRST_SECOND);
    assert_eq!(DateTime::<chrono::Utc>::MAX_UTC.timestamp(), LAST_SECOND);
}

#[test]
fn start_up_always_runs() {
    let now = moment(NOW, 0);
    for last_run in [
        LastRun::Missing,
        LastRun::Unreadable,
        LastRun::Undated,
        LastRun::WrittenAt(now),
    ] {
        assert_eq!(
            initial_run_at(now, last_run, 1000, true),
            InitialRun { should_run: true, unreadable: false }
        );
        assert!(should_run_initially(last_run, 1000, true).should_run);
    }
}

#[test]
fn start_depends_on_the_last_run() {
    let now = moment(NOW, 0);
    let run = |last_run| initial_run_at(now, last_run, 60, false);
    assert_eq!(run(LastRun::Missing), InitialRun { should_run: true, unreadable: false });
    assert_eq!(run(LastRun::Unreadable), InitialRun { should_run: true, unreadable: true });
    assert_eq!(run(LastRun::Undated), InitialRun { should_run: false, unreadable: false });
    assert!(run(LastRun::WrittenAt(moment(NOW - 60, 0))).should_run);
    assert!(!run(LastRun::WrittenAt(moment(NOW - 60, 1))).should_run);
    assert!(!run(LastRun::WrittenAt(moment(NOW - 59, 0))).should_run);
}

#[test]
fn start_goes_by_the_clock() {
    let now = Local::now().timestamp();
    assert!(should_run_initially(LastRun::WrittenAt(moment(now - 1000, 0)), 900, false).should_run);
    assert!(!should_run_initially(LastRun::WrittenAt(moment(now, 0)), 900, false).should_run);
    assert!(should_run_initially(LastRun::Missing, 900, false).should_run);
    assert!(!should_run_initially(LastRun::Undated, 900, false).should_run);
}

#[test]
fn seconds_are_rounded_towards_zero() {
    let now = moment(NOW, 0);
    let ahead = LastRun::WrittenAt(moment(NOW, 500_000_000));
    assert!(initial_run_at(now, ahead, 0, false).should_run);
    let ahead = LastRun::WrittenAt(moment(NOW + 1, 0));
    assert!(!initial_run_at(now, ahead, 0, false).should_run);
}

#[test]
fn waits_beyond_the_signed_range_count_as_negative() {
    let now = moment(NOW, 0);
    assert!(initial_run_at(now, LastRun::WrittenAt(now), u64::MAX, false).should_run);
    assert!(initial_run_at(now, LastRun::WrittenAt(moment(NOW + 1, 0)), u64::MAX, false).should_run);
    assert!(!initial_run_at(now, LastRun::WrittenAt(moment(NOW + 2, 0)), u64::MAX, false).should_run);
    assert!(initial_run_at(now, LastRun::WrittenAt(now), 1 << 63, false).should_run);
    assert!(!initial_run_at(now, LastRun::WrittenAt(now), (1 << 63) - 1, false).should_run);
}

#[test]
fn check_lets_a_due_backup_through() {
    let now = local(NOW, 0);
    let r = check_at(&now, LastRun::WrittenAt(moment(NOW - 60, 0)), 60);
    assert!(r.should_run && !r.unreadable);
    assert_eq!(r.time_remaining, "");
}

#[test]
fn check_without_knowledge_lets_a_backup_through() {
    let now = local(NOW, 0);
    for (last_run, unreadable) in [
        (LastRun::Missing, false),
        (LastRun::Unreadable, true),
        (LastRun::Undated, true),
    ] {
        let r = check_at(&now, last_run, 60);
        assert_eq!((r.should_run, r.unreadable), (true, unreadable));
        assert_eq!(r.time_remaining, "");
        let r = should_run_check_file(last_run, 60).unwrap();
        assert_eq!((r.should_run, r.unreadable), (true, unreadable));
    }
}

#[test]
fn check_tells_about_a_wait() {
    let now = local(NOW, 250_000_000);
    let r = check_at(&now, LastRun::WrittenAt(moment(NOW - 30, 0)), 3700);
    assert!(!r.should_run && !r.unreadable);
    let end = Local.timestamp_opt(NOW + 3670, 0).unwrap().format("%Y-%m-%d %H:%M:%S");
    assert_eq!(r.time_remaining, format!("1h 1m 10s (estimado para {}) ", end));
}

#[test]
fn wait_is_over_when_it_is_told_to_be() {
    let written = LastRun::WrittenAt(moment(NOW, 700_000_000));
    let now = moment(NOW + 10, 0);
    assert!(!initial_run_at(now, written, 60, false).should_run);
    let left = 60 - 9;
    assert!(initial_run_at(moment(NOW + 10 + left, 0), written, 60, false).should_run);
    for waited in 0..left {
        assert!(!initial_run_at(moment(NOW + 10 + waited, 0), written, 60, false).should_run);
    }
}

#[test]
fn due_backup_stays_due() {
    let written = LastRun::WrittenAt(moment(NOW, 5));
    for later in 60..70 {
        assert!(initial_run_at(moment(NOW + later, 5), written, 60, false).should_run);
        assert!(check_at(&local(NOW + later, 5), written, 60).should_run);
    }
}

#[test]
fn wait_is_described() {
    let zone = FixedOffset::west_opt(3 * 3600).unwrap();
    let end = zone.with_ymd_and_hms(2024, 2, 29, 23, 5, 9).unwrap();
    assert_eq!(
        describe_wait(61, &at_wall(end)),
        "1m 1s (estimado para 2024-02-29 23:05:09) "
    );
    let end = zone.with_ymd_and_hms(12024, 1, 2, 3, 4, 5).unwrap();
    assert_eq!(
        describe_wait(0, &at_wall(end)),
        "0s (estimado para +12024-01-02 03:04:05) "
    );
    let end = zone.with_ymd_and_hms(-7, 1, 2, 3, 4, 5).unwrap();
    assert_eq!(
        describe_wait(0, &at_wall(end)),
        "0s (estimado para -0007-01-02 03:04:05) "
    );
}

#[test]
fn check_goes_by_the_clock() {
    let now = Local::now().timestamp();
    let r = should_run_check_file(LastRun::WrittenAt(moment(now - 1000, 0)), 900).unwrap();
    assert!(r.should_run);
    let r = should_run_check_file(LastRun::WrittenAt(moment(now, 0)), 90000).unwrap();
    assert!(!r.should_run);
    assert!(r.time_remaining.contains(" (estimado para "));
}

#[test]
fn wait_that_no_calendar_reaches_is_found() {
    let now = Local::now().timestamp();
    let last_run = LastRun::WrittenAt(moment(now, 0));
    assert_eq!(
        should_run_check_file(last_run, 10_000_000_000_000).err(),
        Some(EstimateOutOfRange)
    );
    assert_eq!(
        should_run_check_file(last_run, i64::MAX as u64).err(),
        Some(EstimateOutOfRange)
    );
    assert!(should_run_check_file(last_run, 1 << 63).is_ok());
}

#[test]
fn validity_of_a_last_run_is_told() {
    assert!(LastRun::Missing.is_valid());
    assert!(LastRun::WrittenAt(moment(0, 0)).is_valid());
    assert!(!LastRun::WrittenAt(Timestamp { secs: i64::MAX, nanos: 0 }).is_valid());
}

#[test]
fn backups_are_due_to_the_nanosecond() {
    let written = LastRun::WrittenAt(moment(NOW, 250_000_000));
    let early = moment(NOW + 60, 249_999_999);
    let sharp = moment(NOW + 60, 250_000_000);
    assert!(!initial_run_at(early, written, 60, false).should_run);
    assert!(initial_run_at(sharp, written, 60, false).should_run);
}
