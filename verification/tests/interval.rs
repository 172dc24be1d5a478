use ew_backup_gen::config::{default_limits, IntervalsConfig, DEFAULT_CONFIG};
use ew_backup_gen::interval::{calculate_execution_interval, interval_fits, IntervalSource};

fn nothing() -> IntervalsConfig {
    IntervalsConfig {
        min_interval_seconds: None,
        days: None,
        hours: None,
        minutes: None,
        seconds: None,
        cron: None,
    }
}

#[test]
fn readable_amounts_are_summed() {
    let cfg = IntervalsConfig {
        days: Some(1),
        hours: Some(2),
        minutes: Some(3),
        seconds: Some(4),
        min_interval_seconds: Some(9),
        ..nothing()
    };
    let r = calculate_execution_interval(&cfg, false);
    assert_eq!(r.seconds, 93784);
    assert_eq!(r.cron, None);
    assert_eq!(r.source, IntervalSource::Readable);
    assert!(!r.cron_missing);
}

#[test]
fn single_number_comes_after_readable_amounts() {
    let cfg = IntervalsConfig {
        minutes: Some(0),
        min_interval_seconds: Some(1800),
        ..nothing()
    };
    let r = calculate_execution_interval(&cfg, false);
    assert_eq!((r.seconds, r.source), (1800, IntervalSource::Legacy));
}

#[test]
fn an_hour_is_the_fallback() {
    let r = calculate_execution_interval(&nothing(), false);
    assert_eq!((r.seconds, r.source), (3600, IntervalSource::Fallback));
    assert_eq!(r.cron, None);
}

#[test]
fn cron_comes_first() {
    let cfg = IntervalsConfig {
        days: Some(u64::MAX),
        cron: Some("0 */30 * * * *".to_string()),
        ..nothing()
    };
    let r = calculate_execution_interval(&cfg, true);
    assert_eq!(r.seconds, 0);
    assert_eq!(r.cron, Some("0 */30 * * * *".to_string()));
    assert_eq!(r.source, IntervalSource::Cron);
    assert!(!r.cron_missing);
}

#[test]
fn cron_is_ignored_where_it_is_not_asked_for() {
    let cfg = IntervalsConfig {
        seconds: Some(5),
        cron: Some("0 */30 * * * *".to_string()),
        ..nothing()
    };
    let r = calculate_execution_interval(&cfg, false);
    assert_eq!((r.seconds, r.cron), (5, None));
}

#[test]
fn missing_cron_expression_falls_back_with_a_warning() {
    let cfg = IntervalsConfig {
        hours: Some(1),
        ..nothing()
    };
    let r = calculate_execution_interval(&cfg, true);
    assert_eq!((r.seconds, r.source), (3600, IntervalSource::Readable));
    assert!(r.cron_missing);
}

#[test]
fn zero_wait_comes_only_by_request() {
    let cfg = IntervalsConfig {
        min_interval_seconds: Some(0),
        ..nothing()
    };
    assert_eq!(calculate_execution_interval(&cfg, false).seconds, 0);
}

#[test]
fn too_long_a_wait_is_found() {
    let most = IntervalsConfig {
        seconds: Some(u64::MAX),
        ..nothing()
    };
    assert!(interval_fits(&most, false));
    assert_eq!(calculate_execution_interval(&most, false).seconds, u64::MAX);
    let more = IntervalsConfig {
        minutes: Some(1),
        ..most
    };
    assert!(!interval_fits(&more, false));
    let cron = IntervalsConfig {
        cron: Some("* * * * * *".to_string()),
        ..more
    };
    assert!(!interval_fits(&cron, false));
    assert!(interval_fits(&cron, true));
}

#[test]
fn five_backups_are_kept_by_default() {
    assert_eq!(default_limits().max_backups, Some(5));
}

#[test]
fn default_configuration_can_be_read() {
    let settings = config::Config::builder()
        .add_source(config::File::from_str(DEFAULT_CONFIG, config::FileFormat::Ini))
        .build()
        .unwrap();
    assert_eq!(
        settings.get_string("paths.source").unwrap(),
        "C:/Users/Public/Documents/Softouch"
    );
    assert!(settings.get_bool("behavior.on_startup").unwrap());
    assert!(!settings.get_bool("behavior.use_cron").unwrap());
    assert_eq!(settings.get_int("limits.max_backups").unwrap(), 5);
    assert!(settings.get_int("intervals.minutes").is_err());
    assert!(settings.get_int("intervals.min_interval_seconds").is_err());
}
