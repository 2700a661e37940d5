use gateway_supervisor::cli::{Cli, Cmd};
use gateway_supervisor::dispatch::{run, Invocation};
use gateway_supervisor::lifecycle::{
    pid_file, AbortReason, Action, Event, LoggerOutcome, Phase, Report, Supervisor,
    EXIT_FAILURE, EXIT_SUCCESS, SHUTDOWN_GRACE_SECS,
};
use gateway_supervisor::logging::{
    Facility, LogLevel, LogMethod, LogSettings, LoggerPlan, Timestamp, Transport,
};
use gateway_supervisor::shutdown::{ReadOutcome, Sources, WaitOutcome, WatchAction, WatchEvent};
use std::path::PathBuf;

fn invocation(daemon: bool, stdin: bool, cmd: Cmd) -> Cli {
    Cli::new(PathBuf::from("/etc/gw/settings.toml"), daemon, stdin, cmd)
}

fn stdio_settings() -> LogSettings {
    LogSettings { level: LogLevel::Info, method: LogMethod::Stdio, timestamp: false }
}

/// Drives a supervisor up to the point at which the subcommand is running.
fn dispatched(cli: Cli) -> Supervisor<String> {
    let daemon = cli.daemon;
    let mut supervisor: Supervisor<String> = Supervisor::new(cli, "helium_gateway");
    let first = supervisor.step(Event::Start);
    if daemon {
        assert!(matches!(first, Action::Daemonize { .. }));
        assert!(matches!(
            supervisor.step(Event::Daemonized { ok: true }),
            Action::LoadSettings { .. }
        ));
    } else {
        assert!(matches!(first, Action::LoadSettings { .. }));
    }
    assert!(matches!(
        supervisor.step(Event::SettingsLoaded(Ok(stdio_settings()))),
        Action::BuildLogger { .. }
    ));
    assert!(matches!(
        supervisor.step(Event::LoggerBuilt(LoggerOutcome::Ready)),
        Action::StartRuntime
    ));
    assert!(matches!(
        supervisor.step(Event::RuntimeStarted { ok: true }),
        Action::SpawnWatcher { .. }
    ));
    assert!(matches!(supervisor.step(Event::WatcherSpawned), Action::Dispatch));
    assert_eq!(supervisor.phase(), Phase::Dispatching);
    supervisor
}

#[test]
fn the_pid_file_is_named_after_the_binary() {
    assert_eq!(pid_file("helium_gateway"), "/var/run/helium_gateway.pid");
    assert_eq!(pid_file("gw"), "/var/run/gw.pid");
    assert_eq!(pid_file(""), "/var/run/.pid");
}

#[test]
fn exit_statuses_and_grace_period() {
    assert_eq!(EXIT_SUCCESS, 0);
    assert_eq!(EXIT_FAILURE, 1);
    assert_eq!(SHUTDOWN_GRACE_SECS, 0);
}

#[test]
fn a_foreground_run_goes_through_every_step_in_order() {
    let mut supervisor: Supervisor<String> =
        Supervisor::new(invocation(false, true, Cmd::Server), "helium_gateway");
    assert_eq!(supervisor.phase(), Phase::Idle);
    match supervisor.step(Event::Start) {
        Action::LoadSettings { path } => assert_eq!(path, PathBuf::from("/etc/gw/settings.toml")),
        other => panic!("unexpected {:?}", other),
    }
    assert_eq!(supervisor.phase(), Phase::LoadingSettings);
    let log = LogSettings { level: LogLevel::Debug, method: LogMethod::Syslog, timestamp: true };
    match supervisor.step(Event::SettingsLoaded(Ok(log))) {
        Action::BuildLogger { plan } => assert_eq!(
            plan,
            LoggerPlan {
                min_level: LogLevel::Debug,
                transport: Transport::Syslog { facility: Facility::User },
            }
        ),
        other => panic!("unexpected {:?}", other),
    }
    assert_eq!(supervisor.phase(), Phase::BuildingLogger);
    assert!(matches!(
        supervisor.step(Event::LoggerBuilt(LoggerOutcome::Ready)),
        Action::StartRuntime
    ));
    assert_eq!(supervisor.phase(), Phase::StartingRuntime);
    match supervisor.step(Event::RuntimeStarted { ok: true }) {
        Action::SpawnWatcher { watcher, shutdown } => {
            assert!(!watcher.is_fired());
            assert!(!shutdown.is_triggered());
            assert_eq!(watcher.sources(), Sources { interrupt: true, stdin: true });
        }
        other => panic!("unexpected {:?}", other),
    }
    assert_eq!(supervisor.phase(), Phase::SpawningWatcher);
    assert!(matches!(supervisor.step(Event::WatcherSpawned), Action::Dispatch));
    assert_eq!(supervisor.phase(), Phase::Dispatching);
    match supervisor.step(Event::Dispatched(Ok(()))) {
        Action::Teardown { grace_secs } => assert_eq!(grace_secs, 0),
        other => panic!("unexpected {:?}", other),
    }
    assert_eq!(supervisor.phase(), Phase::TearingDown);
    match supervisor.step(Event::TornDown) {
        Action::Exit { code, report } => {
            assert_eq!(code, 0);
            assert_eq!(report, Report::Silent);
        }
        other => panic!("unexpected {:?}", other),
    }
    assert_eq!(supervisor.phase(), Phase::Done);
}

#[test]
fn a_daemon_detaches_before_anything_else() {
    let mut supervisor: Supervisor<String> =
        Supervisor::new(invocation(true, false, Cmd::Server), "helium_gateway");
    match supervisor.step(Event::Start) {
        Action::Daemonize { pid_file } => assert_eq!(pid_file, "/var/run/helium_gateway.pid"),
        other => panic!("unexpected {:?}", other),
    }
    assert_eq!(supervisor.phase(), Phase::Daemonizing);
    // Nothing else is taken while the process detaches.
    let early = supervisor.step(Event::SettingsLoaded(Ok(stdio_settings())));
    match early {
        Action::Rejected { event } => {
            assert_eq!(event, Event::SettingsLoaded(Ok(stdio_settings())))
        }
        other => panic!("unexpected {:?}", other),
    }
    assert_eq!(supervisor.phase(), Phase::Daemonizing);
    match supervisor.step(Event::Daemonized { ok: true }) {
        Action::LoadSettings { path } => assert_eq!(path, PathBuf::from("/etc/gw/settings.toml")),
        other => panic!("unexpected {:?}", other),
    }
}

#[test]
fn the_watcher_watches_stdin_only_when_asked() {
    for stdin in [false, true] {
        let mut supervisor: Supervisor<String> =
            Supervisor::new(invocation(false, stdin, Cmd::Info), "gw");
        supervisor.step(Event::Start);
        supervisor.step(Event::SettingsLoaded(Ok(stdio_settings())));
        supervisor.step(Event::LoggerBuilt(LoggerOutcome::Ready));
        match supervisor.step(Event::RuntimeStarted { ok: true }) {
            Action::SpawnWatcher { watcher, .. } => {
                assert_eq!(watcher.sources(), Sources { interrupt: true, stdin });
            }
            other => panic!("unexpected {:?}", other),
        }
    }
}

#[test]
fn the_listener_handed_out_belongs_to_the_watcher() {
    let mut supervisor: Supervisor<String> =
        Supervisor::new(invocation(false, false, Cmd::Server), "gw");
    supervisor.step(Event::Start);
    supervisor.step(Event::SettingsLoaded(Ok(stdio_settings())));
    supervisor.step(Event::LoggerBuilt(LoggerOutcome::Ready));
    match supervisor.step(Event::RuntimeStarted { ok: true }) {
        Action::SpawnWatcher { mut watcher, shutdown } => {
            assert!(!shutdown.is_triggered());
            assert_eq!(watcher.on_event(WatchEvent::Interrupt(WaitOutcome::Delivered)), WatchAction::Exit);
            assert!(shutdown.is_triggered());
        }
        other => panic!("unexpected {:?}", other),
    }
}

#[test]
fn a_settings_failure_exits_with_one_and_a_direct_report() {
    let mut supervisor: Supervisor<String> =
        Supervisor::new(invocation(false, false, Cmd::Server), "gw");
    supervisor.step(Event::Start);
    match supervisor.step(Event::SettingsLoaded(Err(String::from("missing field")))) {
        Action::Exit { code, report } => {
            assert_eq!(code, 1);
            assert_eq!(report, Report::Direct(String::from("missing field")));
        }
        other => panic!("unexpected {:?}", other),
    }
    assert_eq!(supervisor.phase(), Phase::Done);
    // No logger is built afterwards.
    assert!(matches!(
        supervisor.step(Event::LoggerBuilt(LoggerOutcome::Ready)),
        Action::Rejected { .. }
    ));
}

#[test]
fn a_failed_subcommand_exits_with_one_and_its_error_logged() {
    let mut supervisor = dispatched(invocation(false, false, Cmd::Add));
    match supervisor.step(Event::Dispatched(Err(String::from("no such gateway")))) {
        Action::Teardown { grace_secs } => assert_eq!(grace_secs, 0),
        other => panic!("unexpected {:?}", other),
    }
    match supervisor.step(Event::TornDown) {
        Action::Exit { code, report } => {
            assert_eq!(code, 1);
            assert_eq!(report, Report::Logged(String::from("no such gateway")));
        }
        other => panic!("unexpected {:?}", other),
    }
}

#[test]
fn a_successful_subcommand_exits_with_zero_and_says_nothing() {
    for daemon in [false, true] {
        let mut supervisor = dispatched(invocation(daemon, false, Cmd::Key));
        assert!(matches!(
            supervisor.step(Event::Dispatched(Ok(()))),
            Action::Teardown { grace_secs: 0 }
        ));
        match supervisor.step(Event::TornDown) {
            Action::Exit { code, report } => {
                assert_eq!(code, 0);
                assert_eq!(report, Report::Silent);
            }
            other => panic!("unexpected {:?}", other),
        }
    }
}

#[test]
fn start_up_failures_abort() {
    let mut supervisor: Supervisor<String> =
        Supervisor::new(invocation(true, false, Cmd::Server), "gw");
    supervisor.step(Event::Start);
    assert!(matches!(
        supervisor.step(Event::Daemonized { ok: false }),
        Action::Abort { reason: AbortReason::DaemonStart }
    ));
    assert_eq!(supervisor.phase(), Phase::Done);

    let mut supervisor: Supervisor<String> =
        Supervisor::new(invocation(false, false, Cmd::Server), "gw");
    supervisor.step(Event::Start);
    supervisor.step(Event::SettingsLoaded(Ok(stdio_settings())));
    assert!(matches!(
        supervisor.step(Event::LoggerBuilt(LoggerOutcome::SyslogUnavailable)),
        Action::Abort { reason: AbortReason::SyslogDrain }
    ));
    assert_eq!(supervisor.phase(), Phase::Done);

    let mut supervisor: Supervisor<String> =
        Supervisor::new(invocation(false, false, Cmd::Server), "gw");
    supervisor.step(Event::Start);
    supervisor.step(Event::SettingsLoaded(Ok(stdio_settings())));
    assert!(matches!(
        supervisor.step(Event::LoggerBuilt(LoggerOutcome::InstallFailed)),
        Action::Abort { reason: AbortReason::LogInit }
    ));

    let mut supervisor: Supervisor<String> =
        Supervisor::new(invocation(false, false, Cmd::Server), "gw");
    supervisor.step(Event::Start);
    supervisor.step(Event::SettingsLoaded(Ok(stdio_settings())));
    supervisor.step(Event::LoggerBuilt(LoggerOutcome::Ready));
    assert!(matches!(
        supervisor.step(Event::RuntimeStarted { ok: false }),
        Action::Abort { reason: AbortReason::RuntimeBuild }
    ));
    assert_eq!(supervisor.phase(), Phase::Done);
}

#[test]
fn abort_messages() {
    assert_eq!(AbortReason::DaemonStart.message(), "daemon start");
    assert_eq!(AbortReason::SyslogDrain.message(), "syslog drain");
    assert_eq!(AbortReason::LogInit.message(), "log init");
    assert_eq!(AbortReason::RuntimeBuild.message(), "runtime build");
}

#[test]
fn events_out_of_turn_are_handed_back_and_change_nothing() {
    let mut supervisor: Supervisor<String> =
        Supervisor::new(invocation(false, false, Cmd::Info), "gw");
    let out_of_turn = [
        Event::Daemonized { ok: true },
        Event::SettingsLoaded(Err(String::from("e"))),
        Event::LoggerBuilt(LoggerOutcome::Ready),
        Event::RuntimeStarted { ok: true },
        Event::WatcherSpawned,
        Event::Dispatched(Err(String::from("e"))),
        Event::TornDown,
    ];
    for event in out_of_turn {
        let copy = match &event {
            Event::Daemonized { ok } => Event::Daemonized { ok: *ok },
            Event::SettingsLoaded(r) => Event::SettingsLoaded(r.clone()),
            Event::LoggerBuilt(o) => Event::LoggerBuilt(*o),
            Event::RuntimeStarted { ok } => Event::RuntimeStarted { ok: *ok },
            Event::WatcherSpawned => Event::WatcherSpawned,
            Event::Dispatched(r) => Event::Dispatched(r.clone()),
            Event::TornDown => Event::TornDown,
            Event::Start => Event::Start,
        };
        match supervisor.step(event) {
            Action::Rejected { event } => assert_eq!(event, copy),
            other => panic!("unexpected {:?}", other),
        }
        assert_eq!(supervisor.phase(), Phase::Idle);
    }
    assert!(matches!(supervisor.step(Event::Start), Action::LoadSettings { .. }));
    assert!(matches!(supervisor.step(Event::Start), Action::Rejected { event: Event::Start }));
}

#[test]
fn the_supervisor_keeps_the_invocation() {
    let supervisor: Supervisor<String> =
        Supervisor::new(invocation(true, true, Cmd::Add), "gw");
    assert_eq!(supervisor.cli().config, PathBuf::from("/etc/gw/settings.toml"));
    assert!(supervisor.cli().daemon);
    assert!(supervisor.cli().stdin);
    assert_eq!(supervisor.cli().cmd, Cmd::Add);
}

/// `--stdin` with `info`, and standard input closed at once: the watcher
/// fires the latch, `info` is run on the settings alone, and the exit status
/// is that of `info`.
#[test]
fn stdin_closed_at_once_does_not_touch_info() {
    for (result, status) in [(Ok(()), 0), (Err(String::from("info failed")), 1)] {
        let mut supervisor: Supervisor<String> =
            Supervisor::new(invocation(false, true, Cmd::Info), "helium_gateway");
        supervisor.step(Event::Start);
        supervisor.step(Event::SettingsLoaded(Ok(stdio_settings())));
        supervisor.step(Event::LoggerBuilt(LoggerOutcome::Ready));
        let (mut watcher, shutdown) = match supervisor.step(Event::RuntimeStarted { ok: true }) {
            Action::SpawnWatcher { watcher, shutdown } => (watcher, shutdown),
            other => panic!("unexpected {:?}", other),
        };
        assert!(matches!(supervisor.step(Event::WatcherSpawned), Action::Dispatch));

        assert_eq!(
            watcher.on_event(WatchEvent::StdinRead(ReadOutcome::Bytes(0))),
            WatchAction::Exit
        );
        assert!(watcher.is_fired());
        assert!(shutdown.is_triggered());

        match run(supervisor.cli(), "settings", &shutdown, "logger") {
            Invocation::Info { settings } => assert_eq!(settings, "settings"),
            other => panic!("info was routed to {:?}", other),
        }

        assert!(matches!(
            supervisor.step(Event::Dispatched(result)),
            Action::Teardown { grace_secs: 0 }
        ));
        match supervisor.step(Event::TornDown) {
            Action::Exit { code, .. } => assert_eq!(code, status),
            other => panic!("unexpected {:?}", other),
        }
    }
}

#[test]
fn terminal_transport_follows_the_timestamp_toggle_through_the_supervisor() {
    for (toggle, timestamp) in [(true, Timestamp::Local), (false, Timestamp::Omitted)] {
        let mut supervisor: Supervisor<String> =
            Supervisor::new(invocation(false, false, Cmd::Server), "gw");
        supervisor.step(Event::Start);
        let log =
            LogSettings { level: LogLevel::Trace, method: LogMethod::Stdio, timestamp: toggle };
        match supervisor.step(Event::SettingsLoaded(Ok(log))) {
            Action::BuildLogger { plan } => {
                assert_eq!(plan.transport, Transport::Terminal { timestamp });
                assert_eq!(plan.min_level, LogLevel::Trace);
            }
            other => panic!("unexpected {:?}", other),
        }
    }
}
