//! How long the service waits between backups.

use vstd::prelude::*;

use crate::config::IntervalsConfig;

verus! {

/// The wait where the configuration sets none: an hour.
pub const FALLBACK_SECONDS: u64 = 3600;

/// Where the wait between backups comes from.
#[derive(Debug, Clone, Copy, PartialEq, Eq, Structural)]
pub enum IntervalSource {
    /// A cron expression says when backups are made.
    Cron,
    /// The days, hours, minutes and seconds of the configuration.
    Readable,
    /// The single number of seconds of older configurations.
    Legacy,
    /// The configuration sets nothing.
    Fallback,
}

/// The wait between backups.
#[derive(Debug)]
pub struct ExecutionInterval {
    pub seconds: u64,
    pub cron: Option<String>,
    pub source: IntervalSource,
    /// Cron was asked for without an expression, which is worth a warning.
    pub cron_missing: bool,
}

pub open spec fn or_zero(amount: Option<u64>) -> int {
    match amount {
        Some(n) => n as int,
        None => 0,
    }
}

/// The seconds that the days, hours, minutes and seconds of a configuration come to.
pub open spec fn readable_seconds(cfg: IntervalsConfig) -> int {
    or_zero(cfg.days) * 86400 + or_zero(cfg.hours) * 3600 + or_zero(cfg.minutes) * 60 + or_zero(
        cfg.seconds,
    )
}

/// Whether the wait is a number of seconds that can be held, where it is needed at all.
pub open spec fn interval_in_range(cfg: IntervalsConfig, use_cron: bool) -> bool {
    use_cron && cfg.cron is Some || readable_seconds(cfg) <= u64::MAX
}

/// The seconds and the source of the wait.
pub open spec fn interval_choice(cfg: IntervalsConfig, use_cron: bool) -> (int, IntervalSource) {
    if use_cron && cfg.cron is Some {
        (0, IntervalSource::Cron)
    } else if readable_seconds(cfg) > 0 {
        (readable_seconds(cfg), IntervalSource::Readable)
    } else if cfg.min_interval_seconds is Some {
        (cfg.min_interval_seconds->0 as int, IntervalSource::Legacy)
    } else {
        (FALLBACK_SECONDS as int, IntervalSource::Fallback)
    }
}

/// Tells whether [`calculate_execution_interval`] can hold the wait.
pub fn interval_fits(intervals_cfg: &IntervalsConfig, use_cron_setting: bool) -> (r: bool)
    ensures
        r == interval_in_range(*intervals_cfg, use_cron_setting),
{
    if use_cron_setting && intervals_cfg.cron.is_some() {
        return true;
    }
    let days: u128 = intervals_cfg.days.unwrap_or(0) as u128;
    let hours: u128 = intervals_cfg.hours.unwrap_or(0) as u128;
    let minutes: u128 = intervals_cfg.minutes.unwrap_or(0) as u128;
    let seconds: u128 = intervals_cfg.seconds.unwrap_or(0) as u128;
    days * 86400 + hours * 3600 + minutes * 60 + seconds <= u64::MAX as u128
}

/// Decides how long to wait between backups.
///
/// A cron expression comes first where cron is asked for. Otherwise the readable amounts count
/// where they come to anything, then the single number of seconds, then an hour.
pub fn calculate_execution_interval(
    intervals_cfg: &IntervalsConfig,
    use_cron_setting: bool,
) -> (r: ExecutionInterval)
    requires
        interval_in_range(*intervals_cfg, use_cron_setting),
    ensures
        (r.seconds as int, r.source) == interval_choice(*intervals_cfg, use_cron_setting),
        r.cron == (if r.source is Cron {
            intervals_cfg.cron
        } else {
            None
        }),
        r.cron_missing == (use_cron_setting && intervals_cfg.cron is None),
        // The amounts, where they count, add up to the wait.
        r.source is Readable ==> r.seconds == intervals_cfg.days.unwrap_or(0) * 86400
            + intervals_cfg.hours.unwrap_or(0) * 3600 + intervals_cfg.minutes.unwrap_or(0) * 60
            + intervals_cfg.seconds.unwrap_or(0),
{
    let mut cron_missing = false;
    if use_cron_setting {
        match &intervals_cfg.cron {
            Some(cron_expr) => {
                return ExecutionInterval {
                    seconds: 0,
                    cron: Some(cron_expr.clone()),
                    source: IntervalSource::Cron,
                    cron_missing: false,
                };
            },
            None => {
                cron_missing = true;
            },
        }
    }
    let days: u64 = intervals_cfg.days.unwrap_or(0);
    let hours: u64 = intervals_cfg.hours.unwrap_or(0);
    let minutes: u64 = intervals_cfg.minutes.unwrap_or(0);
    let seconds: u64 = intervals_cfg.seconds.unwrap_or(0);

    let total_seconds: u64 = days * 24 * 60 * 60 + hours * 60 * 60 + minutes * 60 + seconds;

    let (seconds, source): (u64, IntervalSource) = if total_seconds > 0 {
        (total_seconds, IntervalSource::Readable)
    } else {
        match intervals_cfg.min_interval_seconds {
            Some(legacy_seconds) => (legacy_seconds, IntervalSource::Legacy),
            None => (FALLBACK_SECONDS, IntervalSource::Fallback),
        }
    };
    ExecutionInterval { seconds, cron: None, source, cron_missing }
}

/// Where no cron expression is used and the configured days, hours, minutes and seconds come to
/// anything, the wait is what they come to. An amount that is not set counts as zero.
pub proof fn law_amounts_add_up(
    cfg: IntervalsConfig,
    use_cron: bool,
    days: u64,
    hours: u64,
    minutes: u64,
    seconds: u64,
)
    requires
        !use_cron || cfg.cron is None,
        cfg.days == Some(days) || cfg.days is None && days == 0,
        cfg.hours == Some(hours) || cfg.hours is None && hours == 0,
        cfg.minutes == Some(minutes) || cfg.minutes is None && minutes == 0,
        cfg.seconds == Some(seconds) || cfg.seconds is None && seconds == 0,
    ensures
        days > 0 || hours > 0 || minutes > 0 || seconds > 0 ==> interval_choice(cfg, use_cron) == (
            days * 86400 + hours * 3600 + minutes * 60 + seconds,
            IntervalSource::Readable,
        ),
        interval_in_range(cfg, use_cron) <==> days * 86400 + hours * 3600 + minutes * 60 + seconds
            <= u64::MAX,
{
}

/// Where the amounts come to nothing, the single number of seconds is the wait, and an hour where
/// there is none.
pub proof fn law_wait_without_amounts(cfg: IntervalsConfig, use_cron: bool)
    requires
        !use_cron || cfg.cron is None,
        cfg.days is None || cfg.days == Some(0u64),
        cfg.hours is None || cfg.hours == Some(0u64),
        cfg.minutes is None || cfg.minutes == Some(0u64),
        cfg.seconds is None || cfg.seconds == Some(0u64),
    ensures
        interval_in_range(cfg, use_cron),
        cfg.min_interval_seconds matches Some(n) ==> interval_choice(cfg, use_cron) == (
            n as int,
            IntervalSource::Legacy,
        ),
        cfg.min_interval_seconds is None ==> interval_choice(cfg, use_cron) == (
            60 * 60int,
            IntervalSource::Fallback,
        ),
{
}

/// Each more day, hour, minute or second in the configuration makes the wait longer by as much.
pub proof fn law_each_amount_counts(
    cfg: IntervalsConfig,
    use_cron: bool,
    days: u64,
    hours: u64,
    minutes: u64,
    seconds: u64,
    more: u64,
)
    requires
        !use_cron || cfg.cron is None,
        cfg.days == Some(days),
        cfg.hours == Some(hours),
        cfg.minutes == Some(minutes),
        cfg.seconds == Some(seconds),
        days > 0 || hours > 0 || minutes > 0 || seconds > 0,
    ensures
        days + more <= u64::MAX ==> interval_choice(
            (IntervalsConfig { days: Some((days + more) as u64), ..cfg }),
            use_cron,
        ).0 == interval_choice(cfg, use_cron).0 + more * 24 * 60 * 60,
        hours + more <= u64::MAX ==> interval_choice(
            (IntervalsConfig { hours: Some((hours + more) as u64), ..cfg }),
            use_cron,
        ).0 == interval_choice(cfg, use_cron).0 + more * 60 * 60,
        minutes + more <= u64::MAX ==> interval_choice(
            (IntervalsConfig { minutes: Some((minutes + more) as u64), ..cfg }),
            use_cron,
        ).0 == interval_choice(cfg, use_cron).0 + more * 60,
        seconds + more <= u64::MAX ==> interval_choice(
            (IntervalsConfig { seconds: Some((seconds + more) as u64), ..cfg }),
            use_cron,
        ).0 == interval_choice(cfg, use_cron).0 + more,
{
}

/// Where cron is asked for and has an expression, it says when backups are made: there is no wait.
pub proof fn law_cron_leaves_no_wait(cfg: IntervalsConfig)
    requires
        cfg.cron is Some,
    ensures
        interval_in_range(cfg, true),
        interval_choice(cfg, true) == (0int, IntervalSource::Cron),
{
}

/// Where a cron expression is used, the configured amounts play no part.
pub proof fn law_cron_takes_precedence(a: IntervalsConfig, b: IntervalsConfig)
    requires
        a.cron is Some,
        b.cron is Some,
    ensures
        interval_in_range(a, true),
        interval_choice(a, true) == interval_choice(b, true),
{
}

/// Where cron is not asked for, or has no expression, a wait of no time comes only from a
/// configuration that sets it to zero in the old way.
pub proof fn law_wait_is_zero_only_by_request(cfg: IntervalsConfig, use_cron: bool)
    requires
        !(use_cron && cfg.cron is Some),
    ensures
        interval_choice(cfg, use_cron).0 >= 0,
        interval_choice(cfg, use_cron).0 == 0 <==> readable_seconds(cfg) == 0
            && cfg.min_interval_seconds == Some(0u64),
{
}

} // verus!
