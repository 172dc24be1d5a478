use chrono::Local;
use ew_backup_gen::clock::Timestamp;
use ew_backup_gen::config::{
    AppConfig, BehaviorConfig, IntervalsConfig, LimitsConfig, PathsConfig,
};
use ew_backup_gen::schedule::{EstimateOutOfRange, InitialRun, LastRun, ShouldRunResult};
use ew_backup_gen::service::{
    begin_job, decide_round, go_on_as, periodic_round, select_mode, settings_of, start_as, usable,
    wants_cron, FinishReason, JobStart, Mode, Round, ServiceAction, ServiceEvent, ServiceState,
    Settings,
};

fn configured(on_startup: bool, use_cron: Option<bool>, cron: Option<&str>) -> AppConfig {
    AppConfig {
        paths: PathsConfig { source: "src".to_string() },
        intervals: IntervalsConfig {
            min_interval_seconds: None,
            days: None,
            hours: None,
            minutes: Some(30),
            seconds: None,
            cron: cron.map(|c| c.to_string()),
        },
        behavior: BehaviorConfig { on_startup, use_cron },
        limits: LimitsConfig { max_backups: Some(3) },
    }
}

fn timer() -> Settings {
    settings_of(configured(false, None, None))
}

fn written(ago: i64) -> LastRun {
    LastRun::WrittenAt(Timestamp::new(Local::now().timestamp() - ago, 0).unwrap())
}

#[test]
fn settings_follow_the_configuration() {
    let s = timer();
    assert_eq!(s.source, "src");
    assert_eq!((s.interval.seconds, s.use_cron, s.on_startup), (1800, false, false));
    assert_eq!(s.max_backups, Some(3));
    let s = settings_of(configured(true, Some(true), Some("x")));
    assert_eq!((s.interval.seconds, s.use_cron, s.on_startup), (0, true, true));
    assert_eq!(s.interval.cron, Some("x".to_string()));
}

#[test]
fn cron_has_to_be_asked_for() {
    assert!(wants_cron(&configured(false, Some(true), None)));
    assert!(!wants_cron(&configured(false, Some(false), None)));
    assert!(!wants_cron(&configured(false, None, None)));
}

#[test]
fn settings_select_the_mode() {
    let mode = |a, b, c| select_mode(&settings_of(configured(a, b, c)));
    assert!(matches!(mode(true, Some(true), Some("x")), Mode::Once));
    assert!(matches!(mode(false, Some(true), Some("x")), Mode::Cron(e) if e == "x"));
    assert!(matches!(mode(false, Some(true), None), Mode::Timer(1800)));
    assert!(matches!(mode(false, Some(false), Some("x")), Mode::Timer(1800)));
    assert!(matches!(mode(false, None, None), Mode::Timer(1800)));
}

#[test]
fn check_decides_a_round() {
    let result = |should_run, unreadable| {
        Ok(ShouldRunResult { should_run, time_remaining: "wait".to_string(), unreadable })
    };
    assert!(matches!(decide_round(result(true, false)), Round::Backup { unreadable: false }));
    assert!(matches!(decide_round(result(true, true)), Round::Backup { unreadable: true }));
    assert!(matches!(decide_round(result(false, false)), Round::Skip(t) if t == "wait"));
    assert!(matches!(decide_round(Err(EstimateOutOfRange)), Round::OutOfRange));
}

#[test]
fn rounds_go_by_the_clock() {
    assert!(matches!(periodic_round(LastRun::Missing, 60), Round::Backup { unreadable: false }));
    assert!(matches!(periodic_round(LastRun::Undated, 60), Round::Backup { unreadable: true }));
    assert!(matches!(periodic_round(written(100), 60), Round::Backup { unreadable: false }));
    assert!(matches!(periodic_round(written(0), 6000), Round::Skip(_)));
    assert!(matches!(periodic_round(written(0), 1 << 62), Round::OutOfRange));
}

#[test]
fn cron_jobs_do_not_wait() {
    assert!(matches!(periodic_round(written(0), 0), Round::Backup { .. }));
}

#[test]
fn cron_jobs_give_up_on_shutdown() {
    assert_eq!(begin_job(true), JobStart::Cancel);
    assert_eq!(begin_job(false), JobStart::ProbeLastRun);
}

#[test]
fn missing_configuration_is_created() {
    let (state, action) = ServiceState::Starting.step(ServiceEvent::ConfigFound(false));
    assert!(matches!(action, ServiceAction::CreateConfig));
    let (state, action) = state.step(ServiceEvent::ConfigCreated);
    assert!(matches!(state, ServiceState::LoadingConfig));
    assert!(matches!(action, ServiceAction::LoadConfig));
    let (_, action) = ServiceState::Starting.step(ServiceEvent::ConfigFound(true));
    assert!(matches!(action, ServiceAction::LoadConfig));
}

fn loaded(config: AppConfig) -> ServiceState {
    let (state, action) = ServiceState::LoadingConfig.step(ServiceEvent::ConfigLoaded(config));
    assert!(matches!(action, ServiceAction::CheckSource));
    state
}

#[test]
fn missing_source_ends_the_service() {
    let (state, action) = loaded(configured(true, None, None)).step(ServiceEvent::SourceFound(false));
    assert!(matches!(state, ServiceState::Ended));
    assert!(matches!(action, ServiceAction::MissingSource));
}

#[test]
fn start_up_service_makes_one_backup() {
    let (state, action) = loaded(configured(true, None, None)).step(ServiceEvent::SourceFound(true));
    assert!(matches!(action, ServiceAction::RunBackup { unreadable: false }));
    let (state, action) = state.step(ServiceEvent::BackupEnded);
    assert!(matches!(state, ServiceState::Ended));
    assert!(matches!(action, ServiceAction::Finish(FinishReason::StartupOnly)));
}

fn probing(config: AppConfig) -> ServiceState {
    let (state, action) = loaded(config).step(ServiceEvent::SourceFound(true));
    assert!(matches!(action, ServiceAction::ProbeLastRun));
    state
}

#[test]
fn timer_service_runs_until_shutdown() {
    let state = probing(configured(false, None, None));
    let (state, action) = state.step(ServiceEvent::Probed(LastRun::Missing));
    assert!(matches!(action, ServiceAction::RunBackup { unreadable: false }));
    let (state, action) = state.step(ServiceEvent::BackupEnded);
    assert!(matches!(
        action,
        ServiceAction::StartTimer { seconds: 1800, cron_missing: false }
    ));

    let (state, action) = state.step(ServiceEvent::Tick(false));
    assert!(matches!(action, ServiceAction::ProbeLastRun));
    let (state, action) = state.step(ServiceEvent::Probed(written(1)));
    assert!(matches!(action, ServiceAction::TellWait(_)));
    let (state, action) = state.step(ServiceEvent::ShutdownSeen(false));
    assert!(matches!(action, ServiceAction::Wait));

    let (state, _) = state.step(ServiceEvent::Tick(false));
    let (state, action) = state.step(ServiceEvent::Probed(LastRun::Unreadable));
    assert!(matches!(action, ServiceAction::RunBackup { unreadable: true }));
    let (state, action) = state.step(ServiceEvent::BackupEnded);
    assert!(matches!(action, ServiceAction::CheckShutdown));
    let (state, _) = state.step(ServiceEvent::ShutdownSeen(false));

    let (state, action) = state.step(ServiceEvent::Interrupted);
    assert!(matches!(action, ServiceAction::CheckShutdown));
    let (state, action) = state.step(ServiceEvent::ShutdownSeen(true));
    assert!(matches!(state, ServiceState::Ended));
    assert!(matches!(action, ServiceAction::Finish(FinishReason::ShutdownAfterRound)));
}

#[test]
fn timer_service_ends_at_a_tick_after_shutdown() {
    let (state, action) = ServiceState::Waiting(timer()).step(ServiceEvent::Tick(true));
    assert!(matches!(state, ServiceState::Ended));
    assert!(matches!(action, ServiceAction::Finish(FinishReason::ShutdownAtTick)));
}

#[test]
fn interruption_ends_the_timer_service() {
    let (state, action) = ServiceState::Waiting(timer()).step(ServiceEvent::Interrupted);
    assert!(matches!(action, ServiceAction::CheckShutdown));
    assert!(!state.accepts(&ServiceEvent::ShutdownSeen(false)));
    assert!(!state.accepts(&ServiceEvent::Tick(false)));
    let (state, action) = state.step(ServiceEvent::ShutdownSeen(true));
    assert!(matches!(state, ServiceState::Ended));
    assert!(matches!(action, ServiceAction::Finish(FinishReason::ShutdownAfterRound)));
}

#[test]
fn shutdown_ends_the_service_after_a_round() {
    let (state, action) = ServiceState::EndingRound(timer()).step(ServiceEvent::ShutdownSeen(true));
    assert!(matches!(state, ServiceState::Ended));
    assert!(matches!(action, ServiceAction::Finish(FinishReason::ShutdownAfterRound)));
}

#[test]
fn first_backup_is_skipped_when_it_is_too_soon() {
    let state = probing(configured(false, None, None));
    let (state, action) = state.step(ServiceEvent::Probed(written(1)));
    assert!(matches!(action, ServiceAction::SkipFirst));
    let (_, action) = state.step(ServiceEvent::Told);
    assert!(matches!(
        action,
        ServiceAction::StartTimer { seconds: 1800, cron_missing: false }
    ));
}

#[test]
fn cron_service_runs_until_shutdown() {
    let state = probing(configured(false, Some(true), Some("0 0 * * * *")));
    let (state, _) = state.step(ServiceEvent::Probed(LastRun::Missing));
    let (state, action) = state.step(ServiceEvent::BackupEnded);
    assert!(matches!(action, ServiceAction::StartCron(e) if e == "0 0 * * * *"));
    let (state, action) = state.step(ServiceEvent::ShutdownSeen(false));
    assert!(matches!(action, ServiceAction::Sleep));
    let (state, action) = state.step(ServiceEvent::ShutdownSeen(true));
    assert!(matches!(action, ServiceAction::StopScheduler));
    let (state, action) = state.step(ServiceEvent::SchedulerStopped);
    assert!(matches!(state, ServiceState::Ended));
    assert!(matches!(action, ServiceAction::Finish(FinishReason::SchedulerStopped)));
}

#[test]
fn timer_stands_in_for_cron_without_expression() {
    let state = probing(configured(false, Some(true), None));
    let (state, _) = state.step(ServiceEvent::Probed(LastRun::Missing));
    let (state, action) = state.step(ServiceEvent::BackupEnded);
    assert!(matches!(
        action,
        ServiceAction::StartTimer { seconds: 1800, cron_missing: true }
    ));
    assert!(state.accepts(&ServiceEvent::Tick(false)));
}

#[test]
fn untellable_wait_makes_the_service_give_up() {
    let (state, action) = go_on_as(Round::OutOfRange, timer());
    assert!(matches!(state, ServiceState::Ended));
    assert!(matches!(action, ServiceAction::Abort));
}

#[test]
fn start_follows_the_decision() {
    let (state, action) = start_as(InitialRun { should_run: true, unreadable: true }, timer());
    assert!(matches!(state, ServiceState::FirstBackup(_)));
    assert!(matches!(action, ServiceAction::RunBackup { unreadable: true }));
    let (state, action) = start_as(InitialRun { should_run: false, unreadable: false }, timer());
    assert!(matches!(state, ServiceState::Started(_)));
    assert!(matches!(action, ServiceAction::SkipFirst));
}

#[test]
fn unusable_events_are_found() {
    let mut config = configured(false, None, None);
    assert!(usable(&ServiceEvent::ConfigLoaded(configured(false, None, None))));
    config.intervals.days = Some(u64::MAX);
    assert!(!usable(&ServiceEvent::ConfigLoaded(config)));
    let never = Timestamp { secs: i64::MIN, nanos: 0 };
    assert!(!usable(&ServiceEvent::Probed(LastRun::WrittenAt(never))));
    assert!(usable(&ServiceEvent::Probed(LastRun::Missing)));
    assert!(usable(&ServiceEvent::Told));
}

#[test]
fn service_accepts_what_it_waits_for() {
    let all = [
        ServiceState::Starting,
        ServiceState::CreatingConfig,
        ServiceState::LoadingConfig,
        ServiceState::CheckingSource(timer()),
        ServiceState::ProbingFirst(timer()),
        ServiceState::FirstBackup(timer()),
        ServiceState::Started(timer()),
        ServiceState::Polling,
        ServiceState::StoppingScheduler,
        ServiceState::Waiting(timer()),
        ServiceState::Probing(timer()),
        ServiceState::BackingUp(timer()),
        ServiceState::EndingRound(timer()),
        ServiceState::Interrupted,
        ServiceState::Ended,
    ];
    let accepting = |event: ServiceEvent| -> Vec<usize> {
        (0..all.len()).filter(|i| all[*i].accepts(&event)).collect()
    };
    assert_eq!(accepting(ServiceEvent::ConfigFound(true)), [0]);
    assert_eq!(accepting(ServiceEvent::ConfigCreated), [1]);
    assert_eq!(accepting(ServiceEvent::ConfigLoaded(configured(true, None, None))), [2]);
    assert_eq!(accepting(ServiceEvent::SourceFound(true)), [3]);
    assert_eq!(accepting(ServiceEvent::Probed(LastRun::Missing)), [4, 10]);
    assert_eq!(accepting(ServiceEvent::BackupEnded), [5, 11]);
    assert_eq!(accepting(ServiceEvent::Told), [6]);
    assert_eq!(accepting(ServiceEvent::ShutdownSeen(true)), [7, 12, 13]);
    assert_eq!(accepting(ServiceEvent::ShutdownSeen(false)), [7, 12]);
    assert_eq!(accepting(ServiceEvent::SchedulerStopped), [8]);
    assert_eq!(accepting(ServiceEvent::Tick(false)), [9]);
    assert_eq!(accepting(ServiceEvent::Interrupted), [9]);
}
