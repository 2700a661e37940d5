//! The order in which the process starts up, runs and exits.
//!
//! A [`Supervisor`] is a state machine. The program tells it what has
//! happened ([`Event`]) and is told what to do next ([`Action`]); it performs
//! the action and reports back. The machine fixes the order: detaching from the
//! terminal comes before the settings are loaded, the settings before the
//! logger is built, the logger before the runtime is started, the shutdown
//! watcher before the subcommand is dispatched, and the teardown of the runtime
//! before the process exits with the status that the subcommand earned.

use crate::cli::Cli;
use crate::cli::CliView;
use crate::logging::logger_plan;
use crate::logging::mk_logger;
use crate::logging::LogSettings;
use crate::logging::LoggerPlan;
use crate::shutdown::latch_of;
use crate::shutdown::ShutdownSignal;
use crate::shutdown::Watcher;
use crate::shutdown::WatcherState;
use std::path::PathBuf;
use vstd::prelude::*;
use vstd::string::*;

verus! {

/// Exit status of a run whose subcommand succeeded.
pub const EXIT_SUCCESS: i32 = 0;

/// Exit status of a run that could not load its settings, or whose subcommand
/// failed.
pub const EXIT_FAILURE: i32 = 1;

/// Seconds that tasks still running are given when the runtime is torn down.
pub const SHUTDOWN_GRACE_SECS: u64 = 0;

/// The PID file of a daemon whose binary is called `bin_name`.
pub open spec fn pid_file_of(bin_name: Seq<char>) -> Seq<char> {
    "/var/run/"@ + bin_name + ".pid"@
}

/// The path at which a daemon whose binary is called `bin_name` records its
/// process id.
pub fn pid_file(bin_name: &str) -> (path: String)
    ensures
        path@ == pid_file_of(bin_name@),
{
    let mut path = String::from_str("/var/run/");
    path.append(bin_name);
    path.append(".pid");
    path
}

/// How far the process has come.
#[derive(Clone, Copy, Debug, PartialEq, Eq, Structural)]
pub enum Phase {
    /// Nothing has been started.
    Idle,
    /// The process is detaching from its controlling terminal.
    Daemonizing,
    /// The settings are being loaded.
    LoadingSettings,
    /// The logger is being built and installed.
    BuildingLogger,
    /// The runtime is being started.
    StartingRuntime,
    /// The shutdown watcher is being spawned.
    SpawningWatcher,
    /// The subcommand is running.
    Dispatching,
    /// The runtime is being torn down.
    TearingDown,
    /// The process has been told to exit or to abort.
    Done,
}

/// Why start-up was given up.
#[derive(Clone, Copy, Debug, PartialEq, Eq, Structural)]
pub enum AbortReason {
    /// The process could not detach from its terminal.
    DaemonStart,
    /// The syslog transport is not available.
    SyslogDrain,
    /// The logger could not be installed for the process.
    LogInit,
    /// The runtime could not be built.
    RuntimeBuild,
}

/// How the attempt to build and install the logger ended.
#[derive(Clone, Copy, Debug, PartialEq, Eq, Structural)]
pub enum LoggerOutcome {
    /// The logger is in place.
    Ready,
    /// The syslog transport is not available.
    SyslogUnavailable,
    /// The logger was built but could not be installed for the process.
    InstallFailed,
}

/// What the program reports to the supervisor. `E` is the error type of the
/// collaborators.
#[derive(Debug, PartialEq, Eq)]
pub enum Event<E> {
    /// The process has started.
    Start,
    /// The attempt to detach from the terminal ended.
    Daemonized { ok: bool },
    /// The settings loader returned: the logging section of the settings, or
    /// its error.
    SettingsLoaded(Result<LogSettings, E>),
    /// The attempt to build and install the logger ended.
    LoggerBuilt(LoggerOutcome),
    /// The attempt to start the runtime ended.
    RuntimeStarted { ok: bool },
    /// The shutdown watcher has been spawned.
    WatcherSpawned,
    /// The subcommand returned.
    Dispatched(Result<(), E>),
    /// The runtime has been torn down.
    TornDown,
}

/// What is said about an exit, and where.
#[derive(Debug, PartialEq, Eq)]
pub enum Report<E> {
    /// Nothing.
    Silent,
    /// The error goes straight to the error stream of the process: there is
    /// no logger to report it to.
    Direct(E),
    /// The error is logged at error severity.
    Logged(E),
}

/// What the supervisor asks the program to do.
#[derive(Debug)]
pub enum Action<E> {
    /// Detach from the controlling terminal and record the process id in
    /// `pid_file`.
    Daemonize { pid_file: String },
    /// Load the settings from the file at `path`.
    LoadSettings { path: PathBuf },
    /// Build the logger that `plan` describes and install it.
    BuildLogger { plan: LoggerPlan },
    /// Start the runtime: one thread, cooperative scheduling.
    StartRuntime,
    /// Spawn `watcher` as a task of the runtime, and keep `shutdown` for
    /// the subcommand.
    SpawnWatcher { watcher: Watcher, shutdown: triggered::Listener },
    /// Run the subcommand of the invocation and wait for it to return.
    Dispatch,
    /// Tear the runtime down, giving tasks still running `grace_secs`
    /// seconds.
    Teardown { grace_secs: u64 },
    /// Say what `report` says and exit with status `code`.
    Exit { code: i32, report: Report<E> },
    /// Give up: start-up cannot go on.
    Abort { reason: AbortReason },
    /// The event does not fit the phase. Nothing has changed; the event is
    /// handed back.
    Rejected { event: Event<E> },
}

/// Mathematical value of an [`Action`].
pub enum ActionView<E> {
    Daemonize { pid_file: Seq<char> },
    LoadSettings { path: PathBuf },
    BuildLogger { plan: LoggerPlan },
    StartRuntime,
    SpawnWatcher { watcher: WatcherState },
    Dispatch,
    Teardown { grace_secs: u64 },
    Exit { code: i32, report: Report<E> },
    Abort { reason: AbortReason },
    Rejected { event: Event<E> },
}

impl<E> View for Action<E> {
    type V = ActionView<E>;

    open spec fn view(&self) -> ActionView<E> {
        match *self {
            Action::Daemonize { pid_file } => ActionView::Daemonize { pid_file: pid_file@ },
            Action::LoadSettings { path } => ActionView::LoadSettings { path },
            Action::BuildLogger { plan } => ActionView::BuildLogger { plan },
            Action::StartRuntime => ActionView::StartRuntime,
            Action::SpawnWatcher { watcher, shutdown } => ActionView::SpawnWatcher {
                watcher: watcher@,
            },
            Action::Dispatch => ActionView::Dispatch,
            Action::Teardown { grace_secs } => ActionView::Teardown { grace_secs },
            Action::Exit { code, report } => ActionView::Exit { code, report },
            Action::Abort { reason } => ActionView::Abort { reason },
            Action::Rejected { event } => ActionView::Rejected { event },
        }
    }
}

impl Phase {
    /// Position of the phase in the life of the process.
    pub open spec fn stage(self) -> nat {
        match self {
            Phase::Idle => 0,
            Phase::Daemonizing => 1,
            Phase::LoadingSettings => 2,
            Phase::BuildingLogger => 3,
            Phase::StartingRuntime => 4,
            Phase::SpawningWatcher => 5,
            Phase::Dispatching => 6,
            Phase::TearingDown => 7,
            Phase::Done => 8,
        }
    }

    /// Whether the logger exists in this phase: from the moment it is built
    /// until the process is told to exit.
    pub open spec fn logger_live(self) -> bool {
        self is StartingRuntime || self is SpawningWatcher || self is Dispatching
            || self is TearingDown
    }
}

impl AbortReason {
    /// The words with which the process gives up.
    pub open spec fn spec_message(self) -> Seq<char> {
        match self {
            AbortReason::DaemonStart => "daemon start"@,
            AbortReason::SyslogDrain => "syslog drain"@,
            AbortReason::LogInit => "log init"@,
            AbortReason::RuntimeBuild => "runtime build"@,
        }
    }

    /// The words with which the process gives up.
    pub fn message(&self) -> (message: &'static str)
        ensures
            message@ == self.spec_message(),
    {
        match self {
            AbortReason::DaemonStart => "daemon start",
            AbortReason::SyslogDrain => "syslog drain",
            AbortReason::LogInit => "log init",
            AbortReason::RuntimeBuild => "runtime build",
        }
    }
}

impl<E> ActionView<E> {
    /// Position of the action in the life of the process: that of the phase
    /// it leads to. A rejection is no step and has position 0.
    pub open spec fn stage(self) -> nat {
        match self {
            ActionView::Daemonize { .. } => 1,
            ActionView::LoadSettings { .. } => 2,
            ActionView::BuildLogger { .. } => 3,
            ActionView::StartRuntime => 4,
            ActionView::SpawnWatcher { .. } => 5,
            ActionView::Dispatch => 6,
            ActionView::Teardown { .. } => 7,
            ActionView::Exit { .. } => 8,
            ActionView::Abort { .. } => 8,
            ActionView::Rejected { .. } => 0,
        }
    }
}

/// The state of a supervisor.
pub struct SupervisorState<E> {
    /// The invocation.
    pub cli: CliView,
    /// Where a daemon records its process id.
    pub pid_file: Seq<char>,
    /// How far the process has come.
    pub phase: Phase,
    /// The error of the subcommand, kept while the runtime is torn down.
    pub failure: Option<E>,
}

impl<E> SupervisorState<E> {
    /// The state of a process that has not started anything.
    pub open spec fn initial(cli: CliView, bin_name: Seq<char>) -> SupervisorState<E> {
        SupervisorState { cli, pid_file: pid_file_of(bin_name), phase: Phase::Idle, failure: None }
    }

    /// This state, in another phase.
    pub open spec fn at(self, phase: Phase) -> SupervisorState<E> {
        SupervisorState { phase, ..self }
    }

    /// The state and the action that follow `event`.
    pub open spec fn step(self, event: Event<E>) -> (SupervisorState<E>, ActionView<E>) {
        match (self.phase, event) {
            (Phase::Idle, Event::Start) => if self.cli.daemon {
                (self.at(Phase::Daemonizing), ActionView::Daemonize { pid_file: self.pid_file })
            } else {
                (
                    self.at(Phase::LoadingSettings),
                    ActionView::LoadSettings { path: self.cli.config },
                )
            },
            (Phase::Daemonizing, Event::Daemonized { ok }) => if ok {
                (
                    self.at(Phase::LoadingSettings),
                    ActionView::LoadSettings { path: self.cli.config },
                )
            } else {
                (self.at(Phase::Done), ActionView::Abort { reason: AbortReason::DaemonStart })
            },
            (Phase::LoadingSettings, Event::SettingsLoaded(Ok(log))) => (
                self.at(Phase::BuildingLogger),
                ActionView::BuildLogger { plan: logger_plan(log) },
            ),
            (Phase::LoadingSettings, Event::SettingsLoaded(Err(error))) => (
                self.at(Phase::Done),
                ActionView::Exit { code: EXIT_FAILURE, report: Report::Direct(error) },
            ),
            (Phase::BuildingLogger, Event::LoggerBuilt(outcome)) => match outcome {
                LoggerOutcome::Ready => (self.at(Phase::StartingRuntime), ActionView::StartRuntime),
                LoggerOutcome::SyslogUnavailable => (
                    self.at(Phase::Done),
                    ActionView::Abort { reason: AbortReason::SyslogDrain },
                ),
                LoggerOutcome::InstallFailed => (
                    self.at(Phase::Done),
                    ActionView::Abort { reason: AbortReason::LogInit },
                ),
            },
            (Phase::StartingRuntime, Event::RuntimeStarted { ok }) => if ok {
                (
                    self.at(Phase::SpawningWatcher),
                    ActionView::SpawnWatcher { watcher: WatcherState::start(self.cli.stdin) },
                )
            } else {
                (self.at(Phase::Done), ActionView::Abort { reason: AbortReason::RuntimeBuild })
            },
            (Phase::SpawningWatcher, Event::WatcherSpawned) => (
                self.at(Phase::Dispatching),
                ActionView::Dispatch,
            ),
            (Phase::Dispatching, Event::Dispatched(result)) => (
                SupervisorState {
                    phase: Phase::TearingDown,
                    failure: match result {
                        Ok(_) => None,
                        Err(error) => Some(error),
                    },
                    ..self
                },
                ActionView::Teardown { grace_secs: SHUTDOWN_GRACE_SECS },
            ),
            (Phase::TearingDown, Event::TornDown) => (
                SupervisorState { phase: Phase::Done, failure: None, ..self },
                match self.failure {
                    None => ActionView::Exit { code: EXIT_SUCCESS, report: Report::Silent },
                    Some(error) => ActionView::Exit {
                        code: EXIT_FAILURE,
                        report: Report::Logged(error),
                    },
                },
            ),
            _ => (self, ActionView::Rejected { event }),
        }
    }

    /// The state after a sequence of events, first to last.
    pub open spec fn run(self, events: Seq<Event<E>>) -> SupervisorState<E>
        decreases events.len(),
    {
        if events.len() == 0 {
            self
        } else {
            self.run(events.drop_last()).step(events.last()).0
        }
    }

    /// The actions that a sequence of events is answered with, one for each
    /// event.
    pub open spec fn actions(self, events: Seq<Event<E>>) -> Seq<ActionView<E>> {
        Seq::new(events.len(), |i: int| self.run(events.take(i)).step(events[i]).1)
    }
}

/// An event that is taken moves the process forward to the phase of the
/// action it is answered with; an event that is rejected changes nothing.
pub proof fn lemma_step_moves_forward<E>(state: SupervisorState<E>, event: Event<E>)
    ensures
        state.step(event).1 is Rejected ==> state.step(event).0 == state,
        !(state.step(event).1 is Rejected) ==> state.phase.stage() < state.step(event).1.stage()
            && state.step(event).0.phase.stage() == state.step(event).1.stage(),
        state.step(event).0.cli == state.cli,
        state.step(event).0.pid_file == state.pid_file,
{
}

/// The process never returns to an earlier phase.
pub proof fn lemma_phase_never_goes_back<E>(
    state: SupervisorState<E>,
    events: Seq<Event<E>>,
    earlier: int,
    later: int,
)
    requires
        0 <= earlier <= later <= events.len(),
    ensures
        state.run(events.take(earlier)).phase.stage() <= state.run(
            events.take(later),
        ).phase.stage(),
    decreases later - earlier,
{
    if earlier < later {
        lemma_phase_never_goes_back(state, events, earlier, later - 1);
        assert(events.take(later).drop_last() == events.take(later - 1));
        lemma_step_moves_forward(state.run(events.take(later - 1)), events[later - 1]);
    }
}

/// Actions come in the order of the life of the process: of two events that
/// were both taken, the later one was answered with the later action. So the
/// process detaches before it loads its settings, loads them before it builds
/// the logger, builds the logger before it starts the runtime, spawns the
/// watcher before it dispatches the subcommand, and tears the runtime down
/// before it exits; and no action is asked for twice.
pub proof fn lemma_actions_in_order<E>(
    state: SupervisorState<E>,
    events: Seq<Event<E>>,
    first: int,
    second: int,
)
    requires
        0 <= first < second < events.len(),
        !(state.actions(events)[first] is Rejected),
        !(state.actions(events)[second] is Rejected),
    ensures
        state.actions(events)[first].stage() < state.actions(events)[second].stage(),
{
    let before_first = state.run(events.take(first));
    let before_second = state.run(events.take(second));
    lemma_step_moves_forward(before_first, events[first]);
    lemma_step_moves_forward(before_second, events[second]);
    assert(events.take(first + 1).drop_last() == events.take(first));
    assert(state.run(events.take(first + 1)) == before_first.step(events[first]).0);
    lemma_phase_never_goes_back(state, events, first + 1, second);
}

/// A process that has been told to exit or to abort takes no further event.
pub proof fn lemma_done_is_final<E>(state: SupervisorState<E>, event: Event<E>)
    requires
        state.phase is Done,
    ensures
        state.step(event) == (state, ActionView::Rejected { event }),
{
}

/// A failure to load the settings ends the process with a nonzero status and
/// the loader's own error, reported directly: no logger exists at that point,
/// and none is built afterwards.
pub proof fn lemma_settings_failure_is_reported_directly<E>(state: SupervisorState<E>, error: E)
    requires
        state.phase is LoadingSettings,
    ensures
        state.step(Event::SettingsLoaded(Err(error))).1 == (ActionView::Exit {
            code: EXIT_FAILURE,
            report: Report::Direct(error),
        }),
        EXIT_FAILURE != 0,
        !state.phase.logger_live(),
        state.step(Event::SettingsLoaded(Err(error))).0.phase is Done,
{
}

/// An error is reported directly only while no logger has been asked for,
/// and is logged only while the logger exists.
pub proof fn lemma_report_channel_follows_logger<E>(
    state: SupervisorState<E>,
    events: Seq<Event<E>>,
    exit: int,
)
    requires
        0 <= exit < events.len(),
        state.actions(events)[exit] is Exit,
    ensures
        state.actions(events)[exit]->report is Direct ==> !state.run(
            events.take(exit),
        ).phase.logger_live() && forall|i: int|
            0 <= i < exit ==> !(#[trigger] state.actions(events)[i] is BuildLogger),
        state.actions(events)[exit]->report is Logged ==> state.run(
            events.take(exit),
        ).phase.logger_live(),
{
    if state.actions(events)[exit]->report is Direct {
        assert forall|i: int| 0 <= i < exit implies !(#[trigger] state.actions(events)[i]
            is BuildLogger) by {
            if state.actions(events)[i] is BuildLogger {
                lemma_actions_in_order(state, events, i, exit);
                lemma_step_moves_forward(state.run(events.take(i)), events[i]);
                assert(events.take(i + 1).drop_last() == events.take(i));
                lemma_phase_never_goes_back(state, events, i + 1, exit);
            }
        }
    }
}

/// The exit status is the result of the subcommand and of nothing else: once
/// the subcommand has returned, the runtime is torn down without a grace
/// period, and the process then exits with status zero and no report if the
/// subcommand succeeded, and with a nonzero status and the subcommand's own
/// error, logged, if it failed.
pub proof fn lemma_exit_status_is_subcommand_result<E>(
    state: SupervisorState<E>,
    result: Result<(), E>,
)
    requires
        state.phase is Dispatching,
    ensures
        state.step(Event::Dispatched(result)).1 == (ActionView::<E>::Teardown { grace_secs: 0 }),
        state.step(Event::Dispatched(result)).0.step(Event::TornDown).1 == (match result {
            Ok(_) => ActionView::Exit { code: 0, report: Report::Silent },
            Err(error) => ActionView::Exit { code: 1, report: Report::Logged(error) },
        }),
        state.step(Event::Dispatched(result)).0.phase.logger_live(),
        state.step(Event::Dispatched(result)).0.step(Event::TornDown).0.phase is Done,
{
}

/// The events of a run in which every step of start-up succeeds and the
/// subcommand returns `result`.
pub open spec fn smooth_run<E>(daemon: bool, log: LogSettings, result: Result<(), E>) -> Seq<
    Event<E>,
> {
    let detach = if daemon {
        seq![Event::Start, Event::Daemonized { ok: true }]
    } else {
        seq![Event::Start]
    };
    detach + seq![
        Event::SettingsLoaded(Ok(log)),
        Event::LoggerBuilt(LoggerOutcome::Ready),
        Event::RuntimeStarted { ok: true },
        Event::WatcherSpawned,
        Event::Dispatched(result),
        Event::TornDown,
    ]
}

/// The state after `events` and then `event` is one step from the state
/// after `events`.
pub proof fn lemma_run_push<E>(state: SupervisorState<E>, events: Seq<Event<E>>, event: Event<E>)
    ensures
        state.run(events.push(event)) == state.run(events).step(event).0,
{
    assert(events.push(event).drop_last() == events);
}

/// A run in which every step of start-up succeeds ends in the phase `Done`,
/// whatever the invocation, the settings and the result of the subcommand,
/// and its last action is the exit with the status of the subcommand.
pub proof fn lemma_smooth_run_exits_with_subcommand_status<E>(
    cli: CliView,
    bin_name: Seq<char>,
    log: LogSettings,
    result: Result<(), E>,
)
    ensures
        ({
            let start = SupervisorState::<E>::initial(cli, bin_name);
            let events = smooth_run(cli.daemon, log, result);
            &&& start.run(events).phase is Done
            &&& start.actions(events).last() == (match result {
                Ok(_) => ActionView::Exit { code: 0, report: Report::Silent },
                Err(error) => ActionView::Exit { code: 1, report: Report::Logged(error) },
            })
        }),
{
    let start = SupervisorState::<E>::initial(cli, bin_name);
    let events = smooth_run(cli.daemon, log, result);
    let empty = Seq::<Event<E>>::empty();
    let e0 = empty.push(Event::Start);
    lemma_run_push(start, empty, Event::Start);
    let e1 = if cli.daemon {
        e0.push(Event::Daemonized { ok: true })
    } else {
        e0
    };
    if cli.daemon {
        lemma_run_push(start, e0, Event::Daemonized { ok: true });
    }
    assert(start.run(e1).phase is LoadingSettings);
    let e2 = e1.push(Event::SettingsLoaded(Ok(log)));
    lemma_run_push(start, e1, Event::SettingsLoaded(Ok(log)));
    let e3 = e2.push(Event::LoggerBuilt(LoggerOutcome::Ready));
    lemma_run_push(start, e2, Event::LoggerBuilt(LoggerOutcome::Ready));
    let e4 = e3.push(Event::RuntimeStarted { ok: true });
    lemma_run_push(start, e3, Event::RuntimeStarted { ok: true });
    let e5 = e4.push(Event::WatcherSpawned);
    lemma_run_push(start, e4, Event::WatcherSpawned);
    assert(start.run(e5).phase is Dispatching);
    let e6 = e5.push(Event::Dispatched(result));
    lemma_run_push(start, e5, Event::Dispatched(result));
    let e7 = e6.push(Event::TornDown);
    lemma_run_push(start, e6, Event::TornDown);
    assert(e7 == events);
    assert(events.take(events.len() - 1) == e6);
    lemma_exit_status_is_subcommand_result(start.run(e5), result);
}

/// Runs the process through its life.
pub struct Supervisor<E> {
    cli: Cli,
    pid_file: String,
    phase: Phase,
    failure: Option<E>,
}

impl<E> View for Supervisor<E> {
    type V = SupervisorState<E>;

    closed spec fn view(&self) -> SupervisorState<E> {
        SupervisorState {
            cli: self.cli@,
            pid_file: self.pid_file@,
            phase: self.phase,
            failure: self.failure,
        }
    }
}

impl<E> Supervisor<E> {
    /// A supervisor for the invocation `cli` of the binary called
    /// `bin_name`. Nothing has been started.
    pub fn new(cli: Cli, bin_name: &str) -> (supervisor: Supervisor<E>)
        ensures
            supervisor@ == SupervisorState::<E>::initial(cli@, bin_name@),
    {
        Supervisor { cli, pid_file: pid_file(bin_name), phase: Phase::Idle, failure: None }
    }

    /// The invocation.
    pub fn cli(&self) -> (cli: &Cli)
        ensures
            cli@ == self@.cli,
    {
        &self.cli
    }

    /// How far the process has come.
    pub fn phase(&self) -> (phase: Phase)
        ensures
            phase == self@.phase,
    {
        self.phase
    }

    /// Takes what has happened and says what to do next. The listener that
    /// comes with a watcher waits on the latch that the watcher fires.
    pub fn step(&mut self, event: Event<E>) -> (action: Action<E>)
        ensures
            (final(self)@, action@) == old(self)@.step(event),
            action matches Action::SpawnWatcher { watcher, shutdown } ==> latch_of(shutdown)
                == watcher.latch(),
    {
        match event {
            Event::Start => match self.phase {
                Phase::Idle => {
                    if self.cli.daemon {
                        self.phase = Phase::Daemonizing;
                        Action::Daemonize { pid_file: self.pid_file.clone() }
                    } else {
                        self.phase = Phase::LoadingSettings;
                        Action::LoadSettings { path: self.cli.config.clone() }
                    }
                },
                _ => Action::Rejected { event: Event::Start },
            },
            Event::Daemonized { ok } => match self.phase {
                Phase::Daemonizing => {
                    if ok {
                        self.phase = Phase::LoadingSettings;
                        Action::LoadSettings { path: self.cli.config.clone() }
                    } else {
                        self.phase = Phase::Done;
                        Action::Abort { reason: AbortReason::DaemonStart }
                    }
                },
                _ => Action::Rejected { event: Event::Daemonized { ok } },
            },
            Event::SettingsLoaded(loaded) => match self.phase {
                Phase::LoadingSettings => match loaded {
                    Ok(log) => {
                        self.phase = Phase::BuildingLogger;
                        Action::BuildLogger { plan: mk_logger(&log) }
                    },
                    Err(error) => {
                        self.phase = Phase::Done;
                        Action::Exit { code: EXIT_FAILURE, report: Report::Direct(error) }
                    },
                },
                _ => Action::Rejected { event: Event::SettingsLoaded(loaded) },
            },
            Event::LoggerBuilt(outcome) => match self.phase {
                Phase::BuildingLogger => match outcome {
                    LoggerOutcome::Ready => {
                        self.phase = Phase::StartingRuntime;
                        Action::StartRuntime
                    },
                    LoggerOutcome::SyslogUnavailable => {
                        self.phase = Phase::Done;
                        Action::Abort { reason: AbortReason::SyslogDrain }
                    },
                    LoggerOutcome::InstallFailed => {
                        self.phase = Phase::Done;
                        Action::Abort { reason: AbortReason::LogInit }
                    },
                },
                _ => Action::Rejected { event: Event::LoggerBuilt(outcome) },
            },
            Event::RuntimeStarted { ok } => match self.phase {
                Phase::StartingRuntime => {
                    if ok {
                        let signal = ShutdownSignal::new();
                        let shutdown = signal.listener();
                        let watcher = Watcher::new(self.cli.stdin, signal);
                        self.phase = Phase::SpawningWatcher;
                        Action::SpawnWatcher { watcher, shutdown }
                    } else {
                        self.phase = Phase::Done;
                        Action::Abort { reason: AbortReason::RuntimeBuild }
                    }
                },
                _ => Action::Rejected { event: Event::RuntimeStarted { ok } },
            },
            Event::WatcherSpawned => match self.phase {
                Phase::SpawningWatcher => {
                    self.phase = Phase::Dispatching;
                    Action::Dispatch
                },
                _ => Action::Rejected { event: Event::WatcherSpawned },
            },
            Event::Dispatched(result) => match self.phase {
                Phase::Dispatching => {
                    self.phase = Phase::TearingDown;
                    self.failure = match result {
                        Ok(_) => None,
                        Err(error) => Some(error),
                    };
                    Action::Teardown { grace_secs: SHUTDOWN_GRACE_SECS }
                },
                _ => Action::Rejected { event: Event::Dispatched(result) },
            },
            Event::TornDown => match self.phase {
                Phase::TearingDown => {
                    self.phase = Phase::Done;
                    match self.failure.take() {
                        None => Action::Exit { code: EXIT_SUCCESS, report: Report::Silent },
                        Some(error) => Action::Exit {
                            code: EXIT_FAILURE,
                            report: Report::Logged(error),
                        },
                    }
                },
                _ => Action::Rejected { event: Event::TornDown },
            },
        }
    }
}

} // verus!
