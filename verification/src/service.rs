//! The service from its start to its end.
//!
//! A [`ServiceState`] decides what comes next; the program around it does it and says how it
//! went. A request to shut down is seen at the points where the service asks for it.

use vstd::prelude::*;

use crate::clock;
use crate::clock::{LocalTime, Timestamp};
use crate::config::AppConfig;
use crate::duration;
use crate::interval;
use crate::interval::{calculate_execution_interval, interval_fits, ExecutionInterval};
use crate::schedule;
use crate::schedule::{
    should_run_check_file, should_run_initially, EstimateOutOfRange, InitialRun, LastRun,
    ShouldRunResult,
};

verus! {

/// How often a service that runs by cron looks for a request to shut down.
pub const POLL_MILLISECONDS: u64 = 100;

/// Whether cron is asked for.
pub open spec fn cron_wanted(config: AppConfig) -> bool {
    config.behavior.use_cron == Some(true)
}

/// Tells whether cron is asked for.
pub fn wants_cron(config: &AppConfig) -> (r: bool)
    ensures
        r == cron_wanted(*config),
{
    config.behavior.use_cron.unwrap_or(false)
}

/// What the service goes by once it has its configuration.
#[derive(Debug)]
pub struct Settings {
    pub source: String,
    pub interval: ExecutionInterval,
    pub use_cron: bool,
    pub on_startup: bool,
    pub max_backups: Option<u32>,
}

/// Whether the settings are those that a configuration asks for.
pub open spec fn are_settings_of(s: Settings, config: AppConfig) -> bool {
    &&& s.source == config.paths.source
    &&& (s.interval.seconds as int, s.interval.source) == interval::interval_choice(
        config.intervals,
        cron_wanted(config),
    )
    &&& s.interval.cron == (if s.interval.source is Cron {
        config.intervals.cron
    } else {
        None
    })
    &&& s.interval.cron_missing == (cron_wanted(config) && config.intervals.cron is None)
    &&& s.use_cron == cron_wanted(config)
    &&& s.on_startup == config.behavior.on_startup
    &&& s.max_backups == config.limits.max_backups
}

/// The settings that a configuration asks for.
pub fn settings_of(config: AppConfig) -> (r: Settings)
    requires
        interval::interval_in_range(config.intervals, cron_wanted(config)),
    ensures
        are_settings_of(r, config),
{
    let use_cron = wants_cron(&config);
    let interval = calculate_execution_interval(&config.intervals, use_cron);
    Settings {
        source: config.paths.source,
        interval,
        use_cron,
        on_startup: config.behavior.on_startup,
        max_backups: config.limits.max_backups,
    }
}

/// How the service goes on after it has started.
#[derive(Debug)]
pub enum Mode {
    /// It ends.
    Once,
    /// It makes backups when the cron expression says so.
    Cron(String),
    /// It makes backups whenever so many seconds have passed.
    Timer(u64),
}

/// Whether the settings ask for the mode. The timer stands in where cron is asked for without an
/// expression.
pub open spec fn is_mode_of(mode: Mode, s: Settings) -> bool {
    if s.on_startup {
        mode is Once
    } else if s.use_cron && s.interval.cron is Some {
        mode == Mode::Cron(s.interval.cron->0)
    } else {
        mode == Mode::Timer(s.interval.seconds)
    }
}

/// Decides how the service goes on after it has started.
pub fn select_mode(s: &Settings) -> (r: Mode)
    ensures
        is_mode_of(r, *s),
{
    if s.on_startup {
        Mode::Once
    } else if s.use_cron {
        match &s.interval.cron {
            Some(expression) => Mode::Cron(expression.clone()),
            None => Mode::Timer(s.interval.seconds),
        }
    } else {
        Mode::Timer(s.interval.seconds)
    }
}

/// What a timer or a cron job comes to when it fires.
#[derive(Debug)]
pub enum Round {
    /// A backup is made; `unreadable` says that nothing was to be learnt of the last one.
    Backup { unreadable: bool },
    /// No backup is made yet, and this is told about the wait.
    Skip(String),
    /// The wait ends at a moment that cannot be told.
    OutOfRange,
}

/// What the outcome of a check comes to.
pub open spec fn is_round_of(r: Round, check: Result<ShouldRunResult, EstimateOutOfRange>) -> bool {
    match check {
        Ok(result) => if result.should_run {
            r == (Round::Backup { unreadable: result.unreadable })
        } else {
            r == Round::Skip(result.time_remaining)
        },
        Err(_) => r is OutOfRange,
    }
}

/// Decides what a timer or a cron job comes to, by the outcome of its check.
pub fn decide_round(check: Result<ShouldRunResult, EstimateOutOfRange>) -> (r: Round)
    ensures
        is_round_of(r, check),
{
    match check {
        Ok(result) => if result.should_run {
            Round::Backup { unreadable: result.unreadable }
        } else {
            Round::Skip(result.time_remaining)
        },
        Err(_) => Round::OutOfRange,
    }
}

/// Whether a timer or a cron job that fires at the time `now` may come to `r`.
pub open spec fn is_round_at(now: LocalTime, last_run: LastRun, interval: u64, r: Round) -> bool {
    exists|check: Result<ShouldRunResult, EstimateOutOfRange>|
        schedule::is_checked(now, last_run, interval, check) && #[trigger] is_round_of(r, check)
}

/// Decides what a timer or a cron job comes to when it fires, by the clock.
pub fn periodic_round(last_run: LastRun, interval: u64) -> (r: Round)
    requires
        last_run.valid(),
    ensures
        exists|now: LocalTime|
            clock::is_reading(now) && now.at.can_be_now() && #[trigger] is_round_at(
                now,
                last_run,
                interval,
                r,
            ),
{
    let check = should_run_check_file(last_run, interval);
    let ghost now = choose|now: LocalTime|
        clock::is_reading(now) && now.at.can_be_now() && #[trigger] schedule::is_checked(
            now,
            last_run,
            interval,
            check,
        );
    let r = decide_round(check);
    proof {
        assert(is_round_of(r, check));
        assert(is_round_at(now, last_run, interval, r));
    }
    r
}

/// What a cron job does first when it fires.
#[derive(Debug, Clone, Copy, PartialEq, Eq, Structural)]
pub enum JobStart {
    /// It gives up, because a shutdown has been asked for.
    Cancel,
    /// It looks at the last backup.
    ProbeLastRun,
}

/// Decides what a cron job does first when it fires.
pub fn begin_job(shutdown: bool) -> (r: JobStart)
    ensures
        r == (if shutdown {
            JobStart::Cancel
        } else {
            JobStart::ProbeLastRun
        }),
{
    if shutdown {
        JobStart::Cancel
    } else {
        JobStart::ProbeLastRun
    }
}

/// What the service waits for.
#[derive(Debug)]
pub enum ServiceState {
    /// Whether there is a configuration.
    Starting,
    /// The configuration that is written where there is none.
    CreatingConfig,
    /// The configuration.
    LoadingConfig,
    /// Whether there is a source.
    CheckingSource(Settings),
    /// What is known of the last backup, before the first one.
    ProbingFirst(Settings),
    /// The end of the first backup.
    FirstBackup(Settings),
    /// Nothing: the first backup has been made or skipped.
    Started(Settings),
    /// A request to shut down, while cron jobs make the backups.
    Polling,
    /// The end of the cron jobs.
    StoppingScheduler,
    /// The timer, or an interruption.
    Waiting(Settings),
    /// What is known of the last backup, after the timer has fired.
    Probing(Settings),
    /// The end of a backup that the timer has started.
    BackingUp(Settings),
    /// Whether a shutdown has been asked for, before the next wait.
    EndingRound(Settings),
    /// The request to shut down that an interruption has made.
    Interrupted,
    /// Nothing more.
    Ended,
}

/// What the service learns.
#[derive(Debug)]
pub enum ServiceEvent {
    ConfigFound(bool),
    ConfigCreated,
    ConfigLoaded(AppConfig),
    SourceFound(bool),
    Probed(LastRun),
    /// A backup was made, or failed and the failure was told.
    BackupEnded,
    /// What was to be told has been told.
    Told,
    /// Whether a shutdown has been asked for.
    ShutdownSeen(bool),
    SchedulerStopped,
    /// The timer has fired, and whether a shutdown has been asked for.
    Tick(bool),
    /// The user has asked for a shutdown, and the request has been noted.
    Interrupted,
}

/// Why the service ends.
#[derive(Debug, Clone, Copy, PartialEq, Eq, Structural)]
pub enum FinishReason {
    /// It was set to make one backup on start-up.
    StartupOnly,
    /// A shutdown was asked for, and the cron jobs have ended.
    SchedulerStopped,
    /// A shutdown had been asked for when the timer fired.
    ShutdownAtTick,
    /// A shutdown had been asked for at the end of a round, or by an interruption.
    ShutdownAfterRound,
}

/// What the service does.
#[derive(Debug)]
pub enum ServiceAction {
    CreateConfig,
    LoadConfig,
    CheckSource,
    /// End with an error: there is no source.
    MissingSource,
    ProbeLastRun,
    /// Make a backup; `unreadable` says that nothing was to be learnt of the last one.
    RunBackup { unreadable: bool },
    /// Tell that there is no backup on start.
    SkipFirst,
    /// Start jobs by this cron expression.
    StartCron(String),
    /// Start a timer that fires every so many seconds; `cron_missing` says that it stands in for
    /// cron, which is worth a warning.
    StartTimer { seconds: u64, cron_missing: bool },
    /// Sleep until the next look for a request to shut down.
    Sleep,
    StopScheduler,
    /// Wait for the timer or an interruption.
    Wait,
    /// Tell this about the wait until the next backup.
    TellWait(String),
    /// See whether a shutdown has been asked for.
    CheckShutdown,
    /// Give up: the wait ends at a moment that cannot be told.
    Abort,
    Finish(FinishReason),
}

impl ServiceState {
    /// Whether the event is one that the service waits for.
    pub open spec fn expects(self, event: ServiceEvent) -> bool {
        match self {
            ServiceState::Starting => event is ConfigFound,
            ServiceState::CreatingConfig => event is ConfigCreated,
            ServiceState::LoadingConfig => event is ConfigLoaded,
            ServiceState::CheckingSource(_) => event is SourceFound,
            ServiceState::ProbingFirst(_) | ServiceState::Probing(_) => event is Probed,
            ServiceState::FirstBackup(_) | ServiceState::BackingUp(_) => event is BackupEnded,
            ServiceState::Started(_) => event is Told,
            ServiceState::Polling | ServiceState::EndingRound(_) => event is ShutdownSeen,
            ServiceState::StoppingScheduler => event is SchedulerStopped,
            ServiceState::Waiting(_) => event is Tick || event is Interrupted,
            ServiceState::Interrupted => event == ServiceEvent::ShutdownSeen(true),
            ServiceState::Ended => false,
        }
    }
}

/// Whether the event holds what the service can work with: a wait between backups that is a
/// number of seconds, and a moment of the calendar.
pub open spec fn is_usable(event: ServiceEvent) -> bool {
    match event {
        ServiceEvent::ConfigLoaded(config) => interval::interval_in_range(
            config.intervals,
            cron_wanted(config),
        ),
        ServiceEvent::Probed(last_run) => last_run.valid(),
        _ => true,
    }
}

/// Whether the service goes on in the mode that its settings ask for.
pub open spec fn goes_on_in_mode(s: Settings, after: ServiceState, action: ServiceAction) -> bool {
    exists|mode: Mode|
        #[trigger] is_mode_of(mode, s) && match mode {
            Mode::Once => after is Ended && action == ServiceAction::Finish(
                FinishReason::StartupOnly,
            ),
            Mode::Cron(expression) => after is Polling && action == ServiceAction::StartCron(
                expression,
            ),
            Mode::Timer(seconds) => after == ServiceState::Waiting(s) && action == (
            ServiceAction::StartTimer { seconds, cron_missing: s.use_cron }),
        }
}

/// Whether the service starts as `first` says.
pub open spec fn starts_as(
    first: InitialRun,
    s: Settings,
    after: ServiceState,
    action: ServiceAction,
) -> bool {
    if first.should_run {
        after == ServiceState::FirstBackup(s) && action == (ServiceAction::RunBackup {
            unreadable: first.unreadable,
        })
    } else {
        after == ServiceState::Started(s) && action is SkipFirst
    }
}

/// Whether the service goes on as the timer's round says.
pub open spec fn goes_on_as(
    round: Round,
    s: Settings,
    after: ServiceState,
    action: ServiceAction,
) -> bool {
    match round {
        Round::Backup { unreadable } => after == ServiceState::BackingUp(s) && action == (
        ServiceAction::RunBackup { unreadable }),
        Round::Skip(told) => after == ServiceState::EndingRound(s) && action
            == ServiceAction::TellWait(told),
        Round::OutOfRange => after is Ended && action is Abort,
    }
}

/// Whether a service that waits in `before` goes on to `after` by doing `action` when it learns
/// of `event`.
pub open spec fn is_transition(
    before: ServiceState,
    event: ServiceEvent,
    after: ServiceState,
    action: ServiceAction,
) -> bool {
    match (before, event) {
        (ServiceState::Starting, ServiceEvent::ConfigFound(found)) => if found {
            after is LoadingConfig && action is LoadConfig
        } else {
            after is CreatingConfig && action is CreateConfig
        },
        (ServiceState::CreatingConfig, ServiceEvent::ConfigCreated) => {
            after is LoadingConfig && action is LoadConfig
        },
        (ServiceState::LoadingConfig, ServiceEvent::ConfigLoaded(config)) => {
            &&& after matches ServiceState::CheckingSource(s) && are_settings_of(s, config)
            &&& action is CheckSource
        },
        (ServiceState::CheckingSource(s), ServiceEvent::SourceFound(found)) => if !found {
            after is Ended && action is MissingSource
        } else if s.on_startup {
            // The last backup plays no part in a backup on start-up.
            after == ServiceState::FirstBackup(s) && action == (ServiceAction::RunBackup {
                unreadable: false,
            })
        } else {
            after == ServiceState::ProbingFirst(s) && action is ProbeLastRun
        },
        (ServiceState::ProbingFirst(s), ServiceEvent::Probed(last_run)) => exists|now: LocalTime|
            #![trigger clock::is_reading(now)]
            clock::is_reading(now) && now.at.can_be_now() && starts_as(
                schedule::initial_run(now.at, last_run, s.interval.seconds, s.on_startup),
                s,
                after,
                action,
            ),
        (ServiceState::FirstBackup(s), ServiceEvent::BackupEnded) => goes_on_in_mode(
            s,
            after,
            action,
        ),
        (ServiceState::Started(s), ServiceEvent::Told) => goes_on_in_mode(s, after, action),
        (ServiceState::Polling, ServiceEvent::ShutdownSeen(shutdown)) => if shutdown {
            after is StoppingScheduler && action is StopScheduler
        } else {
            after is Polling && action is Sleep
        },
        (ServiceState::StoppingScheduler, ServiceEvent::SchedulerStopped) => {
            after is Ended && action == ServiceAction::Finish(FinishReason::SchedulerStopped)
        },
        (ServiceState::Waiting(s), ServiceEvent::Tick(shutdown)) => if shutdown {
            after is Ended && action == ServiceAction::Finish(FinishReason::ShutdownAtTick)
        } else {
            after == ServiceState::Probing(s) && action is ProbeLastRun
        },
        (ServiceState::Waiting(_), ServiceEvent::Interrupted) => {
            after is Interrupted && action is CheckShutdown
        },
        (ServiceState::Interrupted, ServiceEvent::ShutdownSeen(shutdown)) => {
            shutdown && after is Ended && action == ServiceAction::Finish(
                FinishReason::ShutdownAfterRound,
            )
        },
        (ServiceState::Probing(s), ServiceEvent::Probed(last_run)) => exists|
            now: LocalTime,
            round: Round,
        |
            clock::is_reading(now) && now.at.can_be_now() && #[trigger] is_round_at(
                now,
                last_run,
                s.interval.seconds,
                round,
            ) && goes_on_as(round, s, after, action),
        (ServiceState::BackingUp(s), ServiceEvent::BackupEnded) => {
            after == ServiceState::EndingRound(s) && action is CheckShutdown
        },
        (ServiceState::EndingRound(s), ServiceEvent::ShutdownSeen(shutdown)) => if shutdown {
            after is Ended && action == ServiceAction::Finish(FinishReason::ShutdownAfterRound)
        } else {
            after == ServiceState::Waiting(s) && action is Wait
        },
        _ => false,
    }
}

fn go_on_in_mode(s: Settings) -> (r: (ServiceState, ServiceAction))
    ensures
        goes_on_in_mode(s, r.0, r.1),
{
    let mode = select_mode(&s);
    proof {
        assert(is_mode_of(mode, s));
    }
    match mode {
        Mode::Once => (ServiceState::Ended, ServiceAction::Finish(FinishReason::StartupOnly)),
        Mode::Cron(expression) => (ServiceState::Polling, ServiceAction::StartCron(expression)),
        Mode::Timer(seconds) => {
            let cron_missing = s.use_cron;
            (ServiceState::Waiting(s), ServiceAction::StartTimer { seconds, cron_missing })
        },
    }
}

/// Goes on as the decision on the first backup says.
pub fn start_as(first: InitialRun, s: Settings) -> (r: (ServiceState, ServiceAction))
    ensures
        starts_as(first, s, r.0, r.1),
{
    if first.should_run {
        (
            ServiceState::FirstBackup(s),
            ServiceAction::RunBackup { unreadable: first.unreadable },
        )
    } else {
        (ServiceState::Started(s), ServiceAction::SkipFirst)
    }
}

/// Goes on as the timer's round says.
pub fn go_on_as(round: Round, s: Settings) -> (r: (ServiceState, ServiceAction))
    ensures
        goes_on_as(round, s, r.0, r.1),
{
    match round {
        Round::Backup { unreadable } => (
            ServiceState::BackingUp(s),
            ServiceAction::RunBackup { unreadable },
        ),
        Round::Skip(told) => (ServiceState::EndingRound(s), ServiceAction::TellWait(told)),
        Round::OutOfRange => (ServiceState::Ended, ServiceAction::Abort),
    }
}

/// Tells whether the event holds what the service can work with.
pub fn usable(event: &ServiceEvent) -> (r: bool)
    ensures
        r == is_usable(*event),
{
    match event {
        ServiceEvent::ConfigLoaded(config) => interval_fits(&config.intervals, wants_cron(config)),
        ServiceEvent::Probed(last_run) => last_run.is_valid(),
        _ => true,
    }
}

impl ServiceState {
    /// Tells whether the event is one that the service waits for.
    pub fn accepts(&self, event: &ServiceEvent) -> (r: bool)
        ensures
            r == self.expects(*event),
    {
        match self {
            ServiceState::Starting => matches!(event, ServiceEvent::ConfigFound(_)),
            ServiceState::CreatingConfig => matches!(event, ServiceEvent::ConfigCreated),
            ServiceState::LoadingConfig => matches!(event, ServiceEvent::ConfigLoaded(_)),
            ServiceState::CheckingSource(_) => matches!(event, ServiceEvent::SourceFound(_)),
            ServiceState::ProbingFirst(_) | ServiceState::Probing(_) => matches!(
                event,
                ServiceEvent::Probed(_)
            ),
            ServiceState::FirstBackup(_) | ServiceState::BackingUp(_) => matches!(
                event,
                ServiceEvent::BackupEnded
            ),
            ServiceState::Started(_) => matches!(event, ServiceEvent::Told),
            ServiceState::Polling | ServiceState::EndingRound(_) => matches!(
                event,
                ServiceEvent::ShutdownSeen(_)
            ),
            ServiceState::StoppingScheduler => matches!(event, ServiceEvent::SchedulerStopped),
            ServiceState::Waiting(_) => matches!(
                event,
                ServiceEvent::Tick(_) | ServiceEvent::Interrupted
            ),
            ServiceState::Interrupted => matches!(event, ServiceEvent::ShutdownSeen(true)),
            ServiceState::Ended => false,
        }
    }

    /// Goes on when something is known that the service waited for.
    pub fn step(self, event: ServiceEvent) -> (r: (ServiceState, ServiceAction))
        requires
            self.expects(event),
            is_usable(event),
        ensures
            is_transition(self, event, r.0, r.1),
    {
        match (self, event) {
            (ServiceState::Starting, ServiceEvent::ConfigFound(found)) => if found {
                (ServiceState::LoadingConfig, ServiceAction::LoadConfig)
            } else {
                (ServiceState::CreatingConfig, ServiceAction::CreateConfig)
            },
            (ServiceState::CreatingConfig, ServiceEvent::ConfigCreated) => {
                (ServiceState::LoadingConfig, ServiceAction::LoadConfig)
            },
            (ServiceState::LoadingConfig, ServiceEvent::ConfigLoaded(config)) => {
                (ServiceState::CheckingSource(settings_of(config)), ServiceAction::CheckSource)
            },
            (ServiceState::CheckingSource(s), ServiceEvent::SourceFound(found)) => {
                if !found {
                    (ServiceState::Ended, ServiceAction::MissingSource)
                } else if s.on_startup {
                    (
                        ServiceState::FirstBackup(s),
                        ServiceAction::RunBackup { unreadable: false },
                    )
                } else {
                    (ServiceState::ProbingFirst(s), ServiceAction::ProbeLastRun)
                }
            },
            (ServiceState::ProbingFirst(s), ServiceEvent::Probed(last_run)) => {
                let first = should_run_initially(last_run, s.interval.seconds, s.on_startup);
                start_as(first, s)
            },
            (ServiceState::FirstBackup(s), ServiceEvent::BackupEnded) => go_on_in_mode(s),
            (ServiceState::Started(s), ServiceEvent::Told) => go_on_in_mode(s),
            (ServiceState::Polling, ServiceEvent::ShutdownSeen(shutdown)) => if shutdown {
                (ServiceState::StoppingScheduler, ServiceAction::StopScheduler)
            } else {
                (ServiceState::Polling, ServiceAction::Sleep)
            },
            (ServiceState::StoppingScheduler, ServiceEvent::SchedulerStopped) => {
                (ServiceState::Ended, ServiceAction::Finish(FinishReason::SchedulerStopped))
            },
            (ServiceState::Waiting(s), ServiceEvent::Tick(shutdown)) => if shutdown {
                (ServiceState::Ended, ServiceAction::Finish(FinishReason::ShutdownAtTick))
            } else {
                (ServiceState::Probing(s), ServiceAction::ProbeLastRun)
            },
            (ServiceState::Waiting(_), ServiceEvent::Interrupted) => {
                (ServiceState::Interrupted, ServiceAction::CheckShutdown)
            },
            (ServiceState::Interrupted, ServiceEvent::ShutdownSeen(_)) => {
                (ServiceState::Ended, ServiceAction::Finish(FinishReason::ShutdownAfterRound))
            },
            (ServiceState::Probing(s), ServiceEvent::Probed(last_run)) => {
                let round = periodic_round(last_run, s.interval.seconds);
                go_on_as(round, s)
            },
            (ServiceState::BackingUp(s), ServiceEvent::BackupEnded) => {
                (ServiceState::EndingRound(s), ServiceAction::CheckShutdown)
            },
            (ServiceState::EndingRound(s), ServiceEvent::ShutdownSeen(shutdown)) => if shutdown {
                (ServiceState::Ended, ServiceAction::Finish(FinishReason::ShutdownAfterRound))
            } else {
                (ServiceState::Waiting(s), ServiceAction::Wait)
            },
            _ => (ServiceState::Ended, ServiceAction::Abort),
        }
    }
}

/// The settings ask for one mode.
pub proof fn law_mode_is_determined(a: Mode, b: Mode, s: Settings)
    requires
        is_mode_of(a, s),
        is_mode_of(b, s),
    ensures
        a == b,
{
}

/// Once it has its configuration, the service goes by what the configuration says: the source, the
/// limit, whether to run on start-up, whether cron is asked for, and the wait, which is what the
/// amounts come to where cron is not used and they come to anything.
pub proof fn law_settings_follow_the_configuration(
    config: AppConfig,
    s: Settings,
    action: ServiceAction,
    days: u64,
    hours: u64,
    minutes: u64,
    seconds: u64,
)
    requires
        is_transition(
            ServiceState::LoadingConfig,
            ServiceEvent::ConfigLoaded(config),
            ServiceState::CheckingSource(s),
            action,
        ),
        config.intervals.days == Some(days) || config.intervals.days is None && days == 0,
        config.intervals.hours == Some(hours) || config.intervals.hours is None && hours == 0,
        config.intervals.minutes == Some(minutes) || config.intervals.minutes is None && minutes
            == 0,
        config.intervals.seconds == Some(seconds) || config.intervals.seconds is None && seconds
            == 0,
    ensures
        action is CheckSource,
        s.source == config.paths.source,
        s.max_backups == config.limits.max_backups,
        s.on_startup == config.behavior.on_startup,
        s.use_cron <==> config.behavior.use_cron == Some(true),
        s.use_cron && config.intervals.cron is Some ==> s.interval.cron == config.intervals.cron
            && s.interval.seconds == 0,
        !(s.use_cron && config.intervals.cron is Some) ==> s.interval.cron is None,
        s.interval.cron is None && (days > 0 || hours > 0 || minutes > 0 || seconds > 0)
            ==> s.interval.seconds == days * 86400 + hours * 3600 + minutes * 60 + seconds,
        s.interval.cron is None && !(days > 0 || hours > 0 || minutes > 0 || seconds > 0) ==> (
        match config.intervals.min_interval_seconds {
            Some(n) => s.interval.seconds == n,
            None => s.interval.seconds == 3600,
        }),
        s.interval.cron_missing <==> config.behavior.use_cron == Some(true)
            && config.intervals.cron is None,
        is_usable(ServiceEvent::ConfigLoaded(config)) <==> s.interval.cron is Some || days * 86400
            + hours * 3600 + minutes * 60 + seconds <= u64::MAX,
{
    if s.interval.cron is None {
        interval::law_amounts_add_up(
            config.intervals,
            s.use_cron,
            days,
            hours,
            minutes,
            seconds,
        );
    }
}

/// A service that does not run on start-up and whose configuration does not ask for cron starts a
/// timer, once the first backup has been made or skipped, that fires whenever the configured wait
/// has passed.
pub proof fn law_timer_fires_at_the_configured_wait(
    s: Settings,
    config: AppConfig,
    event: ServiceEvent,
    before: ServiceState,
    after: ServiceState,
    action: ServiceAction,
)
    requires
        are_settings_of(s, config),
        config.behavior.on_startup == false,
        config.behavior.use_cron != Some(true),
        before == ServiceState::FirstBackup(s) || before == ServiceState::Started(s),
        is_transition(before, event, after, action),
    ensures
        after == ServiceState::Waiting(s),
        action matches ServiceAction::StartTimer { seconds, cron_missing } && seconds
            == interval::interval_choice(config.intervals, false).0 && seconds
            == s.interval.seconds && !cron_missing,
{
}

/// The timer fires at the wait that the service goes by, whatever that is.
pub proof fn law_timer_and_checks_share_the_wait(
    s: Settings,
    event: ServiceEvent,
    before: ServiceState,
    after: ServiceState,
    action: ServiceAction,
)
    requires
        before == ServiceState::FirstBackup(s) || before == ServiceState::Started(s),
        is_transition(before, event, after, action),
        action is StartTimer,
    ensures
        after == ServiceState::Waiting(s),
        action->seconds == s.interval.seconds,
{
}

/// A service that does not run on start-up and whose configuration asks for cron, with an
/// expression, starts cron jobs by that expression once the first backup has been made or skipped.
pub proof fn law_cron_jobs_follow_the_expression(
    s: Settings,
    config: AppConfig,
    event: ServiceEvent,
    before: ServiceState,
    after: ServiceState,
    action: ServiceAction,
)
    requires
        are_settings_of(s, config),
        config.behavior.on_startup == false,
        config.behavior.use_cron == Some(true),
        config.intervals.cron is Some,
        before == ServiceState::FirstBackup(s) || before == ServiceState::Started(s),
        is_transition(before, event, after, action),
    ensures
        after is Polling,
        action == ServiceAction::StartCron(config.intervals.cron->0),
{
}

/// A missing configuration is written before it is read; one that is there is read at once.
pub proof fn law_configuration_is_there_before_it_is_read(
    found: bool,
    after: ServiceState,
    action: ServiceAction,
    next: ServiceState,
    then_done: ServiceAction,
)
    requires
        is_transition(ServiceState::Starting, ServiceEvent::ConfigFound(found), after, action),
        is_transition(ServiceState::CreatingConfig, ServiceEvent::ConfigCreated, next, then_done),
    ensures
        found ==> after is LoadingConfig && action is LoadConfig,
        !found ==> after is CreatingConfig && action is CreateConfig,
        next is LoadingConfig && then_done is LoadConfig,
{
}

/// A service that does not run on start-up looks at the last backup first. By the clock, it then
/// makes a backup where there is no last one, where nothing is to be learnt of it (and it warns),
/// or where the configured wait has passed since; otherwise it tells that it makes none.
pub proof fn law_first_backup_is_decided_by_the_clock(
    s: Settings,
    last_run: LastRun,
    after: ServiceState,
    action: ServiceAction,
)
    requires
        !s.on_startup,
        is_transition(
            ServiceState::ProbingFirst(s),
            ServiceEvent::Probed(last_run),
            after,
            action,
        ),
    ensures
        action is RunBackup && after == ServiceState::FirstBackup(s) || action is SkipFirst && after
            == ServiceState::Started(s),
        last_run is Missing || last_run is Unreadable ==> action is RunBackup,
        last_run is Undated ==> action is SkipFirst,
        action is RunBackup ==> (action->unreadable <==> last_run is Unreadable),
        1 <= s.interval.seconds <= i64::MAX ==> (last_run matches LastRun::WrittenAt(written)
            ==> exists|now: LocalTime|
            #[trigger] clock::is_reading(now) && (action is RunBackup <==> now.at.total_nanos()
                >= written.total_nanos() + s.interval.seconds * 1_000_000_000)),
        last_run matches LastRun::WrittenAt(written) ==> exists|now: LocalTime|
            #[trigger] clock::is_reading(now) && (action is RunBackup <==> schedule::is_due(
                now.at,
                written,
                s.interval.seconds,
            )),
{
    let now = choose|now: LocalTime|
        #![trigger clock::is_reading(now)]
        clock::is_reading(now) && now.at.can_be_now() && starts_as(
            schedule::initial_run(now.at, last_run, s.interval.seconds, s.on_startup),
            s,
            after,
            action,
        );
    schedule::law_start_is_decided(now.at, last_run, s.interval.seconds, s.on_startup);
    assert(clock::is_reading(now));
}

/// When the timer has fired, the service makes a backup, by the clock, exactly where nothing is
/// known of when the last one was made or the configured wait has passed since; otherwise it tells
/// about the wait, or gives up where its end is beyond the calendar.
pub proof fn law_timed_backup_is_decided_by_the_clock(
    s: Settings,
    last_run: LastRun,
    after: ServiceState,
    action: ServiceAction,
)
    requires
        is_transition(ServiceState::Probing(s), ServiceEvent::Probed(last_run), after, action),
    ensures
        ({
            ||| action is RunBackup && after == ServiceState::BackingUp(s)
            ||| action is TellWait && after == ServiceState::EndingRound(s)
            ||| action is Abort && after is Ended
        }),
        last_run !is WrittenAt ==> action is RunBackup,
        action is RunBackup ==> (action->unreadable <==> last_run is Unreadable
            || last_run is Undated),
        action matches ServiceAction::TellWait(told) ==> exists|now: LocalTime|
            #[trigger] clock::is_reading(now) && is_round_at(
                now,
                last_run,
                s.interval.seconds,
                Round::Skip(told),
            ),
        1 <= s.interval.seconds <= i64::MAX ==> (last_run matches LastRun::WrittenAt(written)
            ==> exists|now: LocalTime|
            #[trigger] clock::is_reading(now) && (action is RunBackup <==> now.at.total_nanos()
                >= written.total_nanos() + s.interval.seconds * 1_000_000_000)),
        last_run matches LastRun::WrittenAt(written) ==> exists|now: LocalTime|
            #[trigger] clock::is_reading(now) && (action is RunBackup <==> schedule::is_due(
                now.at,
                written,
                s.interval.seconds,
            )),
{
    let (now, round) = choose|now: LocalTime, round: Round|
        clock::is_reading(now) && now.at.can_be_now() && #[trigger] is_round_at(
            now,
            last_run,
            s.interval.seconds,
            round,
        ) && goes_on_as(round, s, after, action);
    law_round_is_decided(now, last_run, s.interval.seconds, round);
    law_round_backs_up_when_due(now, last_run, s.interval.seconds, round);
    assert(clock::is_reading(now));
}

/// A timer or a cron job that fires comes to a backup exactly where nothing is known of when the
/// last one was made or the wait has passed since, to the nanosecond. A backup comes with a
/// warning where the last one is unreadable or undated.
pub proof fn law_round_is_decided(now: LocalTime, last_run: LastRun, interval: u64, r: Round)
    requires
        is_round_at(now, last_run, interval, r),
    ensures
        last_run !is WrittenAt ==> r is Backup,
        1 <= interval <= i64::MAX ==> (last_run matches LastRun::WrittenAt(written) ==> (r is Backup
            <==> now.at.total_nanos() >= written.total_nanos() + interval * 1_000_000_000)),
        r matches Round::Backup { unreadable } ==> (unreadable <==> last_run is Unreadable
            || last_run is Undated),
{
    let check = choose|check: Result<ShouldRunResult, EstimateOutOfRange>|
        schedule::is_checked(now, last_run, interval, check) && #[trigger] is_round_of(r, check);
    if check is Ok {
        schedule::law_check_is_decided(now, last_run, interval, check->Ok_0);
    }
}

/// A timer or a cron job that fires a second or more before the wait is over comes to no backup. It
/// tells how long the wait goes on, in whole seconds, and what clocks show when it is over, unless
/// that is beyond the calendar.
///
/// A wait from 2^63 seconds on counts as negative.
pub proof fn law_skipped_round_tells_the_wait(
    now: LocalTime,
    written: Timestamp,
    interval: u64,
    wait: int,
    r: Round,
    n: nat,
)
    requires
        interval <= i64::MAX ==> wait == interval,
        interval > i64::MAX ==> wait == interval - 0x1_0000_0000_0000_0000,
        is_round_at(now, LastRun::WrittenAt(written), interval, r),
        n >= 1,
        schedule::is_told_as(
            n,
            written.total_nanos() + wait * 1_000_000_000 - now.at.total_nanos(),
            written.total_nanos() > now.at.total_nanos(),
        ),
    ensures
        r !is Backup,
        r is OutOfRange <==> now.at.secs + n > clock::LAST_SECOND,
        r matches Round::Skip(told) ==> exists|e: LocalTime|
            #![trigger clock::is_local_time_after(now, n as int, e)]
            clock::is_local_time_after(now, n as int, e) && told@ == duration::duration_text(n)
                + " (estimado para "@ + clock::readable_stamp(e.wall) + ") "@,
{
    let last_run = LastRun::WrittenAt(written);
    let check = choose|check: Result<ShouldRunResult, EstimateOutOfRange>|
        schedule::is_checked(now, last_run, interval, check) && #[trigger] is_round_of(r, check);
    schedule::law_wait_beyond_the_calendar_is_not_told(now, written, interval, wait, check, n);
    if check is Ok {
        schedule::law_wait_is_told_as_it_is(now, written, interval, wait, check->Ok_0, n);
    }
}

/// Until a shutdown is asked for, the timer goes on: when it fires, the service looks at the last
/// backup, and when a round has ended it waits for the timer again.
pub proof fn law_timer_goes_on(
    s: Settings,
    event: ServiceEvent,
    before: ServiceState,
    after: ServiceState,
    action: ServiceAction,
)
    requires
        is_transition(before, event, after, action),
    ensures
        before == ServiceState::Waiting(s) && event == ServiceEvent::Tick(false) ==> after
            == ServiceState::Probing(s) && action is ProbeLastRun,
        before == ServiceState::BackingUp(s) && event is BackupEnded ==> after
            == ServiceState::EndingRound(s) && action is CheckShutdown,
        before == ServiceState::EndingRound(s) && event == ServiceEvent::ShutdownSeen(false)
            ==> after == ServiceState::Waiting(s) && action is Wait,
        before is Polling && event == ServiceEvent::ShutdownSeen(false) ==> after is Polling
            && action is Sleep,
        before == ServiceState::CheckingSource(s) && event == ServiceEvent::SourceFound(true)
            && !s.on_startup ==> after == ServiceState::ProbingFirst(s) && action is ProbeLastRun,
{
}

/// The service refuses nothing that it may learn of what it waits for.
pub proof fn law_service_refuses_no_outcome(
    s: Settings,
    config: AppConfig,
    last_run: LastRun,
    yes: bool,
)
    ensures
        ServiceState::Starting.expects(ServiceEvent::ConfigFound(yes)),
        ServiceState::CreatingConfig.expects(ServiceEvent::ConfigCreated),
        ServiceState::LoadingConfig.expects(ServiceEvent::ConfigLoaded(config)),
        ServiceState::CheckingSource(s).expects(ServiceEvent::SourceFound(yes)),
        ServiceState::ProbingFirst(s).expects(ServiceEvent::Probed(last_run)),
        ServiceState::FirstBackup(s).expects(ServiceEvent::BackupEnded),
        ServiceState::Started(s).expects(ServiceEvent::Told),
        ServiceState::Polling.expects(ServiceEvent::ShutdownSeen(yes)),
        ServiceState::StoppingScheduler.expects(ServiceEvent::SchedulerStopped),
        ServiceState::Waiting(s).expects(ServiceEvent::Tick(yes)),
        ServiceState::Waiting(s).expects(ServiceEvent::Interrupted),
        ServiceState::Probing(s).expects(ServiceEvent::Probed(last_run)),
        ServiceState::BackingUp(s).expects(ServiceEvent::BackupEnded),
        ServiceState::EndingRound(s).expects(ServiceEvent::ShutdownSeen(yes)),
        is_usable(ServiceEvent::Probed(last_run)) <==> (last_run matches LastRun::WrittenAt(t)
            ==> clock::FIRST_SECOND <= t.secs <= clock::LAST_SECOND && t.nanos < 1_000_000_000),
{
}

/// Where cron is asked for without an expression, the service goes on with the timer and warns of
/// it; the wait is the one that a configuration without cron comes to.
pub proof fn law_timer_stands_in_for_cron(
    s: Settings,
    config: AppConfig,
    after: ServiceState,
    action: ServiceAction,
)
    requires
        are_settings_of(s, config),
        cron_wanted(config),
        config.intervals.cron is None,
        !s.on_startup,
        goes_on_in_mode(s, after, action),
    ensures
        after == ServiceState::Waiting(s),
        action == (ServiceAction::StartTimer { seconds: s.interval.seconds, cron_missing: true }),
        s.interval.seconds == interval::interval_choice(config.intervals, false).0,
{
}

/// The settings alone say how the service goes on: it ends where it is set to run on start-up; it
/// makes backups by the cron expression where cron is asked for and there is one; otherwise the
/// timer fires at the wait.
pub proof fn law_mode_follows_the_settings(mode: Mode, s: Settings)
    requires
        is_mode_of(mode, s),
    ensures
        mode is Once <==> s.on_startup,
        mode is Cron <==> !s.on_startup && s.use_cron && s.interval.cron is Some,
        mode matches Mode::Cron(expression) ==> s.interval.cron == Some(expression),
        mode matches Mode::Timer(seconds) ==> seconds == s.interval.seconds,
{
}

/// A service that is set to run on start-up makes a backup if there is a source, and ends when
/// the backup has ended.
pub proof fn law_startup_service_makes_one_backup(
    s: Settings,
    after_check: ServiceState,
    check: ServiceAction,
    after_backup: ServiceState,
    end: ServiceAction,
)
    requires
        s.on_startup,
        is_transition(
            ServiceState::CheckingSource(s),
            ServiceEvent::SourceFound(true),
            after_check,
            check,
        ),
        is_transition(after_check, ServiceEvent::BackupEnded, after_backup, end),
    ensures
        check is RunBackup,
        check == (ServiceAction::RunBackup { unreadable: false }),
        after_check == ServiceState::FirstBackup(s),
        after_backup is Ended,
        end == ServiceAction::Finish(FinishReason::StartupOnly),
{
}

/// When the timer or a cron job fires, a backup is made exactly where the wait since the last one
/// is over by the clock, or nothing is known of when the last one was made.
pub proof fn law_round_backs_up_when_due(now: LocalTime, last_run: LastRun, interval: u64, r: Round)
    requires
        is_round_at(now, last_run, interval, r),
    ensures
        r is Backup <==> (last_run matches LastRun::WrittenAt(written) ==> schedule::is_due(
            now.at,
            written,
            interval,
        )),
{
}

/// A backup is made only on start-up, or after a look at the last one.
pub proof fn law_backup_needs_a_reason(
    before: ServiceState,
    event: ServiceEvent,
    after: ServiceState,
    action: ServiceAction,
)
    requires
        is_transition(before, event, after, action),
        action is RunBackup,
    ensures
        before is CheckingSource || before is ProbingFirst || before is Probing,
        before matches ServiceState::CheckingSource(s) ==> s.on_startup && event
            == ServiceEvent::SourceFound(true),
        before is ProbingFirst || before is Probing ==> event is Probed,
{
}

/// Once a shutdown is seen, the service starts no more backups: it ends, or ends its cron jobs
/// and then ends.
pub proof fn law_shutdown_ends_the_service(
    before: ServiceState,
    event: ServiceEvent,
    after: ServiceState,
    action: ServiceAction,
)
    requires
        is_transition(before, event, after, action),
        event == ServiceEvent::Tick(true) || event == ServiceEvent::ShutdownSeen(true),
    ensures
        after is Ended && action is Finish || after is StoppingScheduler && action is StopScheduler,
        forall|next: ServiceState, end: ServiceAction|
            after is StoppingScheduler && #[trigger] is_transition(
                after,
                ServiceEvent::SchedulerStopped,
                next,
                end,
            ) ==> next is Ended && end is Finish,
{
}

/// An interruption ends the timer: whatever the service learns next, it makes no more backups and
/// ends.
pub proof fn law_interruption_ends_the_service(
    before: ServiceState,
    after: ServiceState,
    action: ServiceAction,
    next: ServiceEvent,
    last: ServiceState,
    end: ServiceAction,
)
    requires
        is_transition(before, ServiceEvent::Interrupted, after, action),
        is_transition(after, next, last, end),
    ensures
        action is CheckShutdown,
        next == ServiceEvent::ShutdownSeen(true),
        last is Ended,
        end == ServiceAction::Finish(FinishReason::ShutdownAfterRound),
{
}

/// A service without a source ends before anything is backed up.
pub proof fn law_no_source_no_backup(
    s: Settings,
    after: ServiceState,
    action: ServiceAction,
)
    requires
        is_transition(
            ServiceState::CheckingSource(s),
            ServiceEvent::SourceFound(false),
            after,
            action,
        ),
    ensures
        after is Ended,
        action is MissingSource,
{
}

/// The settings that a service holds, while it holds any.
pub open spec fn held_settings(state: ServiceState) -> Option<Settings> {
    match state {
        ServiceState::CheckingSource(s)
        | ServiceState::ProbingFirst(s)
        | ServiceState::FirstBackup(s)
        | ServiceState::Started(s)
        | ServiceState::Waiting(s)
        | ServiceState::Probing(s)
        | ServiceState::BackingUp(s)
        | ServiceState::EndingRound(s) => Some(s),
        _ => None,
    }
}

/// A service goes by the same settings from the time it has them to its end.
pub proof fn law_settings_never_change(
    before: ServiceState,
    event: ServiceEvent,
    after: ServiceState,
    action: ServiceAction,
)
    requires
        is_transition(before, event, after, action),
        held_settings(before) is Some,
        held_settings(after) is Some,
    ensures
        held_settings(after) == held_settings(before),
{
}

/// A service that has not ended waits for something, and it ends exactly when it finishes, gives
/// up or has no source.
pub proof fn law_service_never_stalls(
    before: ServiceState,
    event: ServiceEvent,
    after: ServiceState,
    action: ServiceAction,
)
    requires
        is_transition(before, event, after, action),
    ensures
        after is Ended || exists|next: ServiceEvent|
            is_usable(next) && #[trigger] after.expects(next),
        after is Ended <==> action is Finish || action is Abort || action is MissingSource,
{
    if before is Starting || before is CreatingConfig {
        assert(after is CreatingConfig ==> after.expects(ServiceEvent::ConfigCreated));
        if after is LoadingConfig {
            let config = lemma_some_config();
            assert(after.expects(ServiceEvent::ConfigLoaded(config)));
        }
    } else {
        assert(after is CheckingSource ==> after.expects(ServiceEvent::SourceFound(true)));
        assert(after is ProbingFirst || after is Probing ==> after.expects(
            ServiceEvent::Probed(LastRun::Missing),
        ));
        assert(after is FirstBackup || after is BackingUp ==> after.expects(
            ServiceEvent::BackupEnded,
        ));
        assert(after is Started ==> after.expects(ServiceEvent::Told));
        assert(after is Polling || after is EndingRound ==> after.expects(
            ServiceEvent::ShutdownSeen(true),
        ));
        assert(after is StoppingScheduler ==> after.expects(ServiceEvent::SchedulerStopped));
        assert(after is Waiting ==> after.expects(ServiceEvent::Interrupted));
        assert(after is Interrupted ==> after.expects(ServiceEvent::ShutdownSeen(true)));
    }
}

proof fn lemma_some_config() -> (config: AppConfig)
    ensures
        is_usable(ServiceEvent::ConfigLoaded(config)),
{
    let any: AppConfig = arbitrary();
    AppConfig {
        intervals: crate::config::IntervalsConfig {
            days: None,
            hours: None,
            minutes: None,
            seconds: None,
            ..any.intervals
        },
        ..any
    }
}

/// A cron job that fires makes a backup, unless the last one is dated after the moment at which
/// it fires: the cron expression alone says when backups are due.
pub proof fn law_cron_jobs_do_not_wait(
    s: Settings,
    config: AppConfig,
    now: LocalTime,
    last_run: LastRun,
    r: Round,
)
    requires
        are_settings_of(s, config),
        s.interval.cron is Some,
        is_round_at(now, last_run, s.interval.seconds, r),
        last_run matches LastRun::WrittenAt(written) ==> written.total_nanos()
            <= now.at.total_nanos(),
    ensures
        s.interval.seconds == 0,
        r is Backup,
{
}

} // verus!
