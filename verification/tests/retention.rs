use ew_backup_gen::clock::WallTime;
use ew_backup_gen::retention::{
    as_backup, backup_time, cleanup_old_backups, trim_backups, Backup, BackupQueue, Cleanup,
    DirEntry,
};

fn dir(name: &str) -> DirEntry {
    DirEntry { name: Some(name.to_string()), is_dir: true }
}

fn names(list: &Vec<Backup>) -> Vec<String> {
    list.iter().map(|b| b.name.clone()).collect()
}

fn sorted_names(list: &Vec<Backup>) -> Vec<String> {
    let mut r = names(list);
    r.sort();
    r
}

fn clean(entries: Vec<DirEntry>, max_backups: u32) -> Cleanup {
    cleanup_old_backups(&entries, max_backups)
}

fn time(year: i32, month: u32, day: u32, hour: u32, minute: u32, second: u32) -> WallTime {
    WallTime { year, month, day, hour, minute, second, nanos: 0 }
}

#[test]
fn time_is_read_from_a_name() {
    assert_eq!(backup_time("backup_20240229_235958"), Some(time(2024, 2, 29, 23, 59, 58)));
    assert_eq!(backup_time("backup_00010101_000000"), Some(time(1, 1, 1, 0, 0, 0)));
}

#[test]
fn leap_seconds_are_read() {
    let leap = WallTime { nanos: 1_000_000_000, ..time(2016, 12, 31, 23, 59, 59) };
    assert_eq!(backup_time("backup_20161231_235960"), Some(leap));
}

#[test]
fn other_names_have_no_time() {
    for name in [
        "",
        "backup",
        "backup_",
        "backup_20240229",
        "backup_20230229_000000",
        "backup_20240101_240000",
        "backup_20240101_000000x",
        "Backup_20240101_000000",
        "xbackup_20240101_000000",
        "20240101_000000",
        "bäckup_20240101_000000",
        "last_run.ebg",
    ] {
        assert_eq!(backup_time(name), None, "{}", name);
    }
}

#[test]
fn only_directories_are_backups() {
    let b = as_backup(&dir("backup_20240101_000000")).unwrap();
    assert_eq!(b.name, "backup_20240101_000000");
    assert_eq!(b.time, time(2024, 1, 1, 0, 0, 0));
    let file = DirEntry { name: Some("backup_20240101_000000".to_string()), is_dir: false };
    assert!(as_backup(&file).is_none());
    assert!(as_backup(&DirEntry { name: None, is_dir: true }).is_none());
    assert!(as_backup(&dir("photos")).is_none());
}

#[test]
fn queue_hands_out_the_oldest_first() {
    let mut queue = BackupQueue::new();
    assert_eq!(queue.len(), 0);
    assert!(queue.pop().is_none());
    for name in ["backup_20240103_000000", "backup_20240101_000000", "backup_20240102_000000"] {
        queue.push(as_backup(&dir(name)).unwrap());
    }
    assert_eq!(queue.len(), 3);
    assert_eq!(queue.pop().unwrap().name, "backup_20240101_000000");
    assert_eq!(queue.pop().unwrap().name, "backup_20240102_000000");
    assert_eq!(names(&queue.into_vec()), ["backup_20240103_000000"]);
}

#[test]
fn oldest_backups_go_in_order() {
    let r = clean(
        vec![
            dir("backup_20240301_120000"),
            dir("backup_20230101_000000"),
            dir("backup_20240301_115959"),
            dir("backup_20231231_235959"),
        ],
        2,
    );
    assert_eq!(names(&r.remove), ["backup_20230101_000000", "backup_20231231_235959"]);
    assert_eq!(sorted_names(&r.keep), ["backup_20240301_115959", "backup_20240301_120000"]);
}

#[test]
fn nothing_goes_within_the_limit() {
    let entries = vec![dir("backup_20240301_120000"), dir("backup_20230101_000000")];
    for limit in [2, 3, u32::MAX] {
        let r = cleanup_old_backups(&entries, limit);
        assert!(r.remove.is_empty());
        assert_eq!(r.keep.len(), 2);
    }
}

#[test]
fn limit_of_zero_removes_all() {
    let r = clean(vec![dir("backup_20240301_120000"), dir("backup_20230101_000000")], 0);
    assert_eq!(names(&r.remove), ["backup_20230101_000000", "backup_20240301_120000"]);
    assert!(r.keep.is_empty());
}

#[test]
fn other_entries_are_spared() {
    let r = clean(
        vec![
            dir("photos"),
            DirEntry { name: Some("backup_20200101_000000".to_string()), is_dir: false },
            DirEntry { name: None, is_dir: true },
            dir("backup_20240301_120000"),
            dir("backup_notes"),
        ],
        0,
    );
    assert_eq!(names(&r.remove), ["backup_20240301_120000"]);
}

#[test]
fn of_two_with_the_same_time_the_last_name_goes_first() {
    let short = "backup_20240101_00000";
    let long = "backup_20240101_000000";
    let blank = "backup_ 20240101_000000";
    assert_eq!(backup_time(short), backup_time(long));
    assert_eq!(backup_time(blank), backup_time(long));
    let r = clean(vec![dir(blank), dir(long), dir(short)], 0);
    assert_eq!(names(&r.remove), [long, short, blank]);
}

#[test]
fn second_cleanup_removes_nothing() {
    let first = clean(
        vec![
            dir("backup_20240301_120000"),
            dir("backup_20230101_000000"),
            dir("backup_20240301_115959"),
        ],
        2,
    );
    let left: Vec<DirEntry> = first.keep.iter().map(|b| dir(&b.name)).collect();
    let second = clean(left, 2);
    assert!(second.remove.is_empty());
    assert_eq!(sorted_names(&second.keep), sorted_names(&first.keep));
}

#[test]
fn order_of_the_listing_does_not_matter() {
    let all = [
        "backup_20240301_120000",
        "backup_20230101_000000",
        "backup_20240301_115959",
        "backup_20231231_235959",
    ];
    let forward = clean(all.iter().map(|n| dir(n)).collect(), 1);
    let backward = clean(all.iter().rev().map(|n| dir(n)).collect(), 1);
    assert_eq!(names(&forward.remove), names(&backward.remove));
    assert_eq!(names(&forward.keep), ["backup_20240301_120000"]);
    assert_eq!(names(&backward.keep), ["backup_20240301_120000"]);
}

fn queued(days: &[u32]) -> BackupQueue {
    let mut queue = BackupQueue::new();
    for day in days {
        queue.push(Backup { time: time(2024, 1, *day, 0, 0, 0), name: format!("day {}", day) });
    }
    queue
}

#[test]
fn trimming_goes_by_the_times() {
    let r = trim_backups(queued(&[3, 1, 4, 2]), 2);
    assert_eq!(names(&r.remove), ["day 1", "day 2"]);
    assert_eq!(sorted_names(&r.keep), ["day 3", "day 4"]);
    let r = trim_backups(queued(&[3, 1]), 2);
    assert!(r.remove.is_empty());
    assert_eq!(sorted_names(&r.keep), ["day 1", "day 3"]);
}

#[test]
fn cleanups_add_up() {
    let all = [5, 2, 4, 1, 3];
    let first = trim_backups(queued(&all), 3);
    let mut left = BackupQueue::new();
    for backup in first.keep {
        left.push(backup);
    }
    let second = trim_backups(left, 1);
    let at_once = trim_backups(queued(&all), 1);
    let mut removed = names(&first.remove);
    removed.extend(names(&second.remove));
    assert_eq!(removed, names(&at_once.remove));
    assert_eq!(names(&second.keep), ["day 5"]);
    assert_eq!(names(&at_once.keep), ["day 5"]);
}
