//! The life of the application from its start to the end of the process.
//!
//! The application is first initializing: the setup hook attaches the plugins.
//! When setup has succeeded the event loop runs until the application is
//! closed. A failure of setup, or of the host's run loop, ends the process
//! with a fatal message; there is no retry and no reduced mode.

use crate::plugin::{attachment_order, BuildMode, Plugin};
use crate::setup::{Action, Outcome, Setup, SetupError, SetupState};
use vstd::prelude::*;

verus! {

/// The message of the fatal diagnostic with which the process ends when the
/// application cannot be started.
pub const FATAL_MESSAGE: &'static str = "error while running tauri application";

/// The exit status of a process that ends normally.
pub const NORMAL_EXIT_STATUS: i32 = 0;

/// The exit status of a process that ends with the fatal diagnostic: that of
/// a program whose main thread panics.
pub const FATAL_EXIT_STATUS: i32 = 101;

/// Why the application could not be started. Neither kind can be recovered
/// from.
#[derive(Clone, Copy, Debug, PartialEq, Eq, Hash, Structural)]
pub enum Failure {
    /// A plugin could not be attached during setup.
    Setup(SetupError),
    /// The host's run loop failed, for instance because the native runtime
    /// could not be initialized.
    Run,
}

/// How the process ends.
#[derive(Clone, Copy, Debug, PartialEq, Eq, Hash, Structural)]
pub enum Termination {
    /// The application was closed and the event loop ended.
    Normal,
    /// The application could not be started.
    Fatal(Failure),
}

/// Where the application is in its life.
#[derive(Clone, Copy, Debug, PartialEq, Eq, Hash, Structural)]
pub enum Phase {
    /// The setup hook is attaching the plugins.
    Initializing,
    /// Setup has succeeded and the event loop is active.
    Running,
    /// The process has ended, or is about to.
    Exited(Termination),
}

/// What the host reports.
#[derive(Clone, Copy, Debug, PartialEq, Eq, Hash, Structural)]
pub enum Event {
    /// The outcome of the attachment that the host was told to perform.
    Attachment(Outcome),
    /// The host's run loop returned a failure.
    RunFailed,
    /// The event loop ended because the application was closed.
    LoopEnded,
}

/// What the host has to do next.
#[derive(Clone, Copy, Debug, PartialEq, Eq, Hash, Structural)]
pub enum Command {
    /// Attach this plugin and report the outcome.
    Attach(Plugin),
    /// Let the event loop run, and report when it ends or fails.
    Run,
    /// End the process in this way.
    Terminate(Termination),
}

impl Termination {
    /// The status with which the process exits: zero after a normal end,
    /// the fatal status otherwise.
    pub open spec fn status(self) -> int {
        match self {
            Termination::Normal => NORMAL_EXIT_STATUS as int,
            Termination::Fatal(_) => FATAL_EXIT_STATUS as int,
        }
    }

    /// The fatal diagnostic that the process emits as it ends, if it ends
    /// with one.
    pub open spec fn diagnostic(self) -> Option<Seq<char>> {
        match self {
            Termination::Normal => None,
            Termination::Fatal(_) => Some(FATAL_MESSAGE@),
        }
    }

    /// The status with which the process exits.
    pub fn exit_status(self) -> (status: i32)
        ensures
            status == self.status(),
            status == 0 <==> self == Termination::Normal,
    {
        match self {
            Termination::Normal => NORMAL_EXIT_STATUS,
            Termination::Fatal(_) => FATAL_EXIT_STATUS,
        }
    }

    /// The fatal diagnostic that the process emits as it ends, or `None`
    /// after a normal end.
    pub fn message(self) -> (message: Option<&'static str>)
        ensures
            message is Some <==> self is Fatal,
            (match message {
                Some(text) => self.diagnostic() == Some(text@),
                None => self.diagnostic() is None,
            }),
    {
        match self {
            Termination::Normal => None,
            Termination::Fatal(_) => Some(FATAL_MESSAGE),
        }
    }
}

/// The state of the application start as a mathematical value: the state of
/// setup and the phase.
pub struct BootstrapState {
    pub setup: SetupState,
    pub phase: Phase,
}

impl BootstrapState {
    /// The state in which the application starts.
    pub open spec fn initial(mode: BuildMode) -> BootstrapState {
        BootstrapState { setup: SetupState::initial(mode), phase: Phase::Initializing }
    }

    /// The phase that follows from the state of setup while the application
    /// is initializing.
    pub open spec fn phase_of_setup(setup: SetupState) -> Phase {
        match setup.result() {
            None => Phase::Initializing,
            Some(Ok(_)) => Phase::Running,
            Some(Err(error)) => Phase::Exited(Termination::Fatal(Failure::Setup(error))),
        }
    }

    /// The phase agrees with the state of setup: the application initializes
    /// while a plugin is pending, runs only with every plugin attached, and
    /// has ended for a setup failure exactly when an attachment failed.
    pub open spec fn well_formed(self) -> bool {
        &&& self.setup.well_formed()
        &&& match self.phase {
            Phase::Exited(Termination::Fatal(Failure::Run)) => true,
            Phase::Exited(Termination::Normal) => self.setup.result() == Some(
                Ok::<(), SetupError>(()),
            ),
            _ => self.phase == BootstrapState::phase_of_setup(self.setup),
        }
    }

    /// What the host has to do in this state.
    pub open spec fn command(self) -> Command {
        match self.phase {
            Phase::Initializing => match self.setup.action() {
                Action::Attach(plugin) => Command::Attach(plugin),
                Action::Finish => Command::Run,
                Action::Abort(plugin) => Command::Terminate(
                    Termination::Fatal(Failure::Setup(SetupError { plugin })),
                ),
            },
            Phase::Running => Command::Run,
            Phase::Exited(termination) => Command::Terminate(termination),
        }
    }

    /// The state after the host has reported an event. A report that cannot
    /// occur in the current phase changes nothing, and neither does any report
    /// once the process has ended.
    pub open spec fn handle(self, event: Event) -> BootstrapState {
        match (self.phase, event) {
            (Phase::Initializing, Event::Attachment(outcome)) => {
                let setup = self.setup.record(outcome);
                BootstrapState { setup, phase: BootstrapState::phase_of_setup(setup) }
            },
            (Phase::Initializing, Event::RunFailed) | (Phase::Running, Event::RunFailed) => {
                BootstrapState { phase: Phase::Exited(Termination::Fatal(Failure::Run)), ..self }
            },
            (Phase::Running, Event::LoopEnded) => BootstrapState {
                phase: Phase::Exited(Termination::Normal),
                ..self
            },
            _ => self,
        }
    }

    /// The state after the host has reported the given events, one after
    /// another, starting from the initial state.
    pub open spec fn after(mode: BuildMode, events: Seq<Event>) -> BootstrapState
        decreases events.len(),
    {
        if events.len() == 0 {
            BootstrapState::initial(mode)
        } else {
            BootstrapState::after(mode, events.drop_last()).handle(events.last())
        }
    }
}

/// One start of the application.
#[derive(Clone, Copy, Debug)]
pub struct Bootstrap {
    setup: Setup,
    phase: Phase,
}

impl View for Bootstrap {
    type V = BootstrapState;

    closed spec fn view(&self) -> BootstrapState {
        BootstrapState { setup: self.setup@, phase: self.phase }
    }
}

impl Bootstrap {
    #[verifier::type_invariant]
    closed spec fn inv(self) -> bool {
        self@.well_formed()
    }

    /// Starts the application of a build of the given mode.
    pub fn new(mode: BuildMode) -> (bootstrap: Bootstrap)
        ensures
            bootstrap@ == BootstrapState::initial(mode),
    {
        let setup = Setup::new(mode);
        proof {
            lemma_initial_well_formed(mode);
        }
        Bootstrap { setup, phase: Phase::Initializing }
    }

    /// The phase that the application is in.
    pub fn phase(&self) -> (phase: Phase)
        ensures
            phase == self@.phase,
    {
        self.phase
    }

    /// The setup hook of this start.
    pub fn setup(&self) -> (setup: Setup)
        ensures
            setup@ == self@.setup,
    {
        self.setup
    }

    /// What the host has to do next.
    pub fn command(&self) -> (command: Command)
        ensures
            command == self@.command(),
            self@.well_formed(),
    {
        proof {
            use_type_invariant(self);
        }
        match self.phase {
            Phase::Initializing => match self.setup.action() {
                Action::Attach(plugin) => Command::Attach(plugin),
                Action::Finish => Command::Run,
                Action::Abort(plugin) => Command::Terminate(
                    Termination::Fatal(Failure::Setup(SetupError { plugin })),
                ),
            },
            Phase::Running => Command::Run,
            Phase::Exited(termination) => Command::Terminate(termination),
        }
    }

    /// Takes a report of the host and says what the host has to do next.
    pub fn handle(&mut self, event: Event) -> (command: Command)
        ensures
            final(self)@ == old(self)@.handle(event),
            final(self)@.well_formed(),
            command == final(self)@.command(),
    {
        proof {
            use_type_invariant(&*self);
            lemma_handle_keeps_well_formed(self@, event);
        }
        match (self.phase, event) {
            (Phase::Initializing, Event::Attachment(outcome)) => {
                let mut setup = self.setup;
                setup.record(outcome);
                let phase = match setup.result() {
                    None => Phase::Initializing,
                    Some(Ok(_)) => Phase::Running,
                    Some(Err(error)) => Phase::Exited(Termination::Fatal(Failure::Setup(error))),
                };
                *self = Bootstrap { setup, phase };
            },
            (Phase::Initializing, Event::RunFailed) | (Phase::Running, Event::RunFailed) => {
                *self = Bootstrap {
                    setup: self.setup,
                    phase: Phase::Exited(Termination::Fatal(Failure::Run)),
                };
            },
            (Phase::Running, Event::LoopEnded) => {
                *self = Bootstrap { setup: self.setup, phase: Phase::Exited(Termination::Normal) };
            },
            _ => {},
        }
        self.command()
    }

    /// How the process ends, or `None` while it has not ended.
    pub fn termination(&self) -> (termination: Option<Termination>)
        ensures
            termination == (match self@.phase {
                Phase::Exited(t) => Some(t),
                _ => None,
            }),
    {
        match self.phase {
            Phase::Exited(termination) => Some(termination),
            _ => None,
        }
    }
}

/// The initial state is well-formed and asks for the first plugin of the
/// attachment order.
pub proof fn lemma_initial_well_formed(mode: BuildMode)
    ensures
        BootstrapState::initial(mode).well_formed(),
        BootstrapState::initial(mode).command() == Command::Attach(attachment_order(mode)[0]),
{
    assert(SetupState::initial(mode).attached =~= attachment_order(mode).take(0));
}

/// Every report takes a well-formed state to a well-formed state.
pub proof fn lemma_handle_keeps_well_formed(state: BootstrapState, event: Event)
    requires
        state.well_formed(),
    ensures
        state.handle(event).well_formed(),
        state.handle(event).setup.mode == state.setup.mode,
{
    match (state.phase, event) {
        (Phase::Initializing, Event::Attachment(outcome)) => {
            crate::setup::lemma_record_keeps_order(state.setup, outcome);
        },
        _ => {},
    }
}

/// Whatever the host reports, the phase agrees with the state of setup. In
/// particular the event loop runs only with every plugin of the build
/// attached, in attachment order: the application never runs half set up.
pub proof fn lemma_runs_only_fully_set_up(mode: BuildMode, events: Seq<Event>)
    ensures
        BootstrapState::after(mode, events).well_formed(),
        BootstrapState::after(mode, events).setup.mode == mode,
        BootstrapState::after(mode, events).phase == Phase::Running
            || BootstrapState::after(mode, events).phase == Phase::Exited(Termination::Normal)
            ==> BootstrapState::after(mode, events).setup.attached == attachment_order(mode),
        BootstrapState::after(mode, events).phase == Phase::Running
            || BootstrapState::after(mode, events).phase == Phase::Exited(Termination::Normal)
            ==> BootstrapState::after(mode, events).setup.failure is None,
    decreases events.len(),
{
    if events.len() == 0 {
        lemma_initial_well_formed(mode);
    } else {
        lemma_runs_only_fully_set_up(mode, events.drop_last());
        lemma_handle_keeps_well_formed(
            BootstrapState::after(mode, events.drop_last()),
            events.last(),
        );
    }
    crate::setup::lemma_success_means_all_attached(BootstrapState::after(mode, events).setup);
}

/// No report takes the application back to initializing.
pub proof fn lemma_never_back_to_initializing(state: BootstrapState, event: Event)
    requires
        state.phase != Phase::Initializing,
    ensures
        state.handle(event).phase != Phase::Initializing,
{
}

/// The end of the process is final: once the application has exited, no
/// report changes the state or the command.
pub proof fn lemma_exit_is_final(state: BootstrapState, event: Event)
    requires
        state.phase is Exited,
    ensures
        state.handle(event) == state,
{
}

/// A failure of the run loop is fatal in every phase before the end: the
/// process is told to end with the fatal diagnostic and a status that is not
/// zero, and nothing more is attached.
pub proof fn lemma_run_failure_is_fatal(state: BootstrapState)
    requires
        !(state.phase is Exited),
    ensures
        state.handle(Event::RunFailed).phase == Phase::Exited(
            Termination::Fatal(Failure::Run),
        ),
        state.handle(Event::RunFailed).command() == Command::Terminate(
            Termination::Fatal(Failure::Run),
        ),
        state.handle(Event::RunFailed).setup == state.setup,
        Termination::Fatal(Failure::Run).status() != 0,
        Termination::Fatal(Failure::Run).diagnostic() == Some(FATAL_MESSAGE@),
{
}

/// While every attachment succeeds the application initializes, asking for
/// the plugins in attachment order, and with the last of them attached the
/// event loop runs. When the loop then ends, the process ends normally, with
/// status zero.
pub proof fn lemma_successful_start(mode: BuildMode, events: Seq<Event>)
    requires
        events.len() <= attachment_order(mode).len(),
        forall|i: int| 0 <= i < events.len() ==> events[i] == Event::Attachment(Outcome::Attached),
    ensures
        BootstrapState::after(mode, events).setup.attached == attachment_order(mode).take(
            events.len() as int,
        ),
        BootstrapState::after(mode, events).setup.failure is None,
        events.len() < attachment_order(mode).len() ==> BootstrapState::after(
            mode,
            events,
        ).phase == Phase::Initializing,
        events.len() < attachment_order(mode).len() ==> BootstrapState::after(
            mode,
            events,
        ).command() == Command::Attach(attachment_order(mode)[events.len() as int]),
        events.len() == attachment_order(mode).len() ==> BootstrapState::after(
            mode,
            events,
        ).phase == Phase::Running,
        events.len() == attachment_order(mode).len() ==> BootstrapState::after(
            mode,
            events,
        ).command() == Command::Run,
        events.len() == attachment_order(mode).len() ==> BootstrapState::after(
            mode,
            events,
        ).handle(Event::LoopEnded).phase == Phase::Exited(Termination::Normal),
        Termination::Normal.status() == 0,
    decreases events.len(),
{
    let order = attachment_order(mode);
    lemma_runs_only_fully_set_up(mode, events);
    if events.len() == 0 {
        assert(SetupState::initial(mode).attached =~= order.take(0));
    } else {
        let earlier = events.drop_last();
        let count: int = earlier.len() as int;
        lemma_successful_start(mode, earlier);
        assert(order.take(count + 1) =~= order.take(count).push(order[count]));
    }
}

/// Setup fails fast and its failure is fatal. When the attachment of a plugin
/// fails after those before it succeeded, the process is told to end with
/// that failure, whatever the host reports afterwards: the plugins after the
/// failed one are never attached and the event loop never runs.
pub proof fn lemma_setup_failure_is_fatal(mode: BuildMode, events: Seq<Event>, failed_at: int)
    requires
        0 <= failed_at < events.len(),
        failed_at < attachment_order(mode).len(),
        events[failed_at] == Event::Attachment(Outcome::Failed),
        forall|i: int| 0 <= i < failed_at ==> events[i] == Event::Attachment(Outcome::Attached),
    ensures
        BootstrapState::after(mode, events).setup.attached == attachment_order(mode).take(
            failed_at,
        ),
        BootstrapState::after(mode, events).setup.failure == Some(
            attachment_order(mode)[failed_at],
        ),
        BootstrapState::after(mode, events).phase == Phase::Exited(
            Termination::Fatal(
                Failure::Setup(SetupError { plugin: attachment_order(mode)[failed_at] }),
            ),
        ),
        BootstrapState::after(mode, events).command() == Command::Terminate(
            Termination::Fatal(
                Failure::Setup(SetupError { plugin: attachment_order(mode)[failed_at] }),
            ),
        ),
    decreases events.len(),
{
    let earlier = events.drop_last();
    if earlier.len() == failed_at {
        lemma_successful_start(mode, earlier);
    } else {
        lemma_setup_failure_is_fatal(mode, earlier, failed_at);
    }
}

/// A release build never attaches the logging plugin, whatever the host
/// reports: logging is neither asked for nor among the attached plugins.
pub proof fn lemma_release_start_never_logs(events: Seq<Event>)
    ensures
        BootstrapState::after(BuildMode::Release, events).command() != Command::Attach(
            Plugin::Logging,
        ),
        !BootstrapState::after(BuildMode::Release, events).setup.attached.contains(
            Plugin::Logging,
        ),
{
    lemma_runs_only_fully_set_up(BuildMode::Release, events);
}

/// One attachment at a time, in order: while a plugin is pending, the host is
/// asked for another one only by the report that the pending plugin is
/// attached, and then for the plugin that follows it in the attachment order.
/// Every other report leaves the pending plugin pending or ends the process.
pub proof fn lemma_one_attachment_at_a_time(state: BootstrapState, event: Event)
    requires
        state.well_formed(),
        state.command() is Attach,
    ensures
        state.command() == Command::Attach(
            attachment_order(state.setup.mode)[state.setup.attached.len() as int],
        ),
        event == Event::Attachment(Outcome::Attached) ==> state.handle(event).setup.attached
            == state.setup.attached.push(
            attachment_order(state.setup.mode)[state.setup.attached.len() as int],
        ),
        event == Event::Attachment(Outcome::Attached) && state.handle(event).command() is Attach
            ==> state.handle(event).command() == Command::Attach(
            attachment_order(state.setup.mode)[state.setup.attached.len() as int + 1],
        ),
        event == Event::Attachment(Outcome::Attached) ==> !(state.handle(event).command()
            is Terminate),
        event != Event::Attachment(Outcome::Attached) && state.handle(event).command() is Attach
            ==> state.handle(event) == state,
        event != Event::Attachment(Outcome::Attached) ==> state.handle(event).command()
            != Command::Run,
{
    lemma_handle_keeps_well_formed(state, event);
}

} // verus!
