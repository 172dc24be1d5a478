use ew_backup_gen::duration::format_duration_for_display;
use ew_backup_gen::text::{decimal_string, join};

#[test]
fn zero_is_shown_as_seconds() {
    assert_eq!(format_duration_for_display(0), "0s");
}

#[test]
fn every_unit_is_shown() {
    assert_eq!(format_duration_for_display(86400 + 2 * 3600 + 3 * 60 + 4), "1d 2h 3m 4s");
}

#[test]
fn units_of_zero_are_left_out() {
    assert_eq!(format_duration_for_display(59), "59s");
    assert_eq!(format_duration_for_display(60), "1m");
    assert_eq!(format_duration_for_display(3600), "1h");
    assert_eq!(format_duration_for_display(1800), "30m");
    assert_eq!(format_duration_for_display(86400), "1d");
    assert_eq!(format_duration_for_display(86401), "1d 1s");
    assert_eq!(format_duration_for_display(90000), "1d 1h");
    assert_eq!(format_duration_for_display(3661), "1h 1m 1s");
}

#[test]
fn longest_duration_is_shown() {
    assert_eq!(format_duration_for_display(u64::MAX), "213503982334601d 7h 15s");
}

fn read_back(shown: &str) -> u64 {
    let mut total = 0u64;
    for part in shown.split(' ') {
        let (amount, unit) = part.split_at(part.len() - 1);
        let amount: u64 = amount.parse().unwrap();
        total += amount
            * match unit {
                "d" => 86400,
                "h" => 3600,
                "m" => 60,
                "s" => 1,
                other => panic!("{}", other),
            };
    }
    total
}

#[test]
fn shown_durations_read_back() {
    for seconds in [0, 1, 59, 60, 61, 3599, 3600, 86399, 86400, 86460, 1_000_000, u64::MAX] {
        assert_eq!(read_back(&format_duration_for_display(seconds)), seconds);
    }
}

#[test]
fn numbers_are_written_in_decimal() {
    for n in [0, 9, 10, 99, 100, 1234567890, u64::MAX] {
        assert_eq!(decimal_string(n), format!("{}", n));
    }
}

#[test]
fn parts_are_joined() {
    let parts = vec!["a".to_string(), "".to_string(), "ñ".to_string()];
    assert_eq!(join(&parts, ", "), "a, , ñ");
    assert_eq!(join(&vec![], ", "), "");
    assert_eq!(join(&vec!["a".to_string()], ", "), "a");
}
