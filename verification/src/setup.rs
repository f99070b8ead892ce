//! The setup hook as a state machine.
//!
//! The hook runs once, before the event loop starts. It attaches the plugins
//! of the build one after another, in attachment order, and gives up at the
//! first one that cannot be attached. The machine decides; the host attaches
//! the plugin it is told to attach and reports what came of it.

use crate::plugin::{attachment_order, plugin_at, plugin_count, BuildMode, Plugin};
use vstd::prelude::*;

verus! {

/// What came of the attachment that the host was last told to perform.
#[derive(Clone, Copy, Debug, PartialEq, Eq, Hash, Structural)]
pub enum Outcome {
    /// The plugin is attached.
    Attached,
    /// The plugin could not be attached.
    Failed,
}

/// What the host has to do next.
#[derive(Clone, Copy, Debug, PartialEq, Eq, Hash, Structural)]
pub enum Action {
    /// Attach this plugin and report the outcome.
    Attach(Plugin),
    /// Every plugin is attached: report success to the caller of setup.
    Finish,
    /// This plugin could not be attached: attach nothing more and hand its
    /// error to the caller of setup.
    Abort(Plugin),
}

/// The reason for which setup failed.
#[derive(Clone, Copy, Debug, PartialEq, Eq, Hash, Structural)]
pub struct SetupError {
    /// The plugin that could not be attached.
    pub plugin: Plugin,
}

/// The state of setup as a mathematical value: the build, the plugins attached
/// so far in the order in which they were attached, and the plugin whose
/// attachment failed, if one did.
pub struct SetupState {
    pub mode: BuildMode,
    pub attached: Seq<Plugin>,
    pub failure: Option<Plugin>,
}

impl SetupState {
    /// The state in which setup starts: nothing attached, nothing failed.
    pub open spec fn initial(mode: BuildMode) -> SetupState {
        SetupState { mode, attached: Seq::empty(), failure: None }
    }

    /// What has been attached is the beginning of the attachment order, and a
    /// failure is that of the plugin which follows it in the order.
    pub open spec fn well_formed(self) -> bool {
        let order = attachment_order(self.mode);
        &&& self.attached.len() <= order.len()
        &&& self.attached == order.take(self.attached.len() as int)
        &&& match self.failure {
            Some(plugin) => self.attached.len() < order.len() && plugin == order[
                self.attached.len() as int
            ],
            None => true,
        }
    }

    /// The plugin that is to be attached next: the one that follows the
    /// attached plugins in the attachment order. There is none once an
    /// attachment has failed or the whole order is attached.
    pub open spec fn pending(self) -> Option<Plugin> {
        let order = attachment_order(self.mode);
        if self.failure is None && self.attached.len() < order.len() {
            Some(order[self.attached.len() as int])
        } else {
            None
        }
    }

    /// What the host has to do in this state.
    pub open spec fn action(self) -> Action {
        match self.failure {
            Some(plugin) => Action::Abort(plugin),
            None => match self.pending() {
                Some(plugin) => Action::Attach(plugin),
                None => Action::Finish,
            },
        }
    }

    /// Whether setup is over, with success or with a failure.
    pub open spec fn finished(self) -> bool {
        self.pending() is None
    }

    /// What setup returns to its caller: nothing while a plugin is pending,
    /// then success, or the failure of the plugin that could not be attached.
    pub open spec fn result(self) -> Option<Result<(), SetupError>> {
        match self.action() {
            Action::Attach(_) => None,
            Action::Finish => Some(Ok(())),
            Action::Abort(plugin) => Some(Err(SetupError { plugin })),
        }
    }

    /// The state after the host has reported the outcome of attaching the
    /// pending plugin. Once setup is over a report changes nothing.
    pub open spec fn record(self, outcome: Outcome) -> SetupState {
        match self.pending() {
            Some(plugin) => match outcome {
                Outcome::Attached => SetupState { attached: self.attached.push(plugin), ..self },
                Outcome::Failed => SetupState { failure: Some(plugin), ..self },
            },
            None => self,
        }
    }

    /// The state after the host has reported the given outcomes, one after
    /// another, starting from the initial state.
    pub open spec fn after(mode: BuildMode, outcomes: Seq<Outcome>) -> SetupState
        decreases outcomes.len(),
    {
        if outcomes.len() == 0 {
            SetupState::initial(mode)
        } else {
            SetupState::after(mode, outcomes.drop_last()).record(outcomes.last())
        }
    }
}

/// The setup hook of one application start.
#[derive(Clone, Copy, Debug)]
pub struct Setup {
    mode: BuildMode,
    attached: usize,
    failed: bool,
}

impl View for Setup {
    type V = SetupState;

    closed spec fn view(&self) -> SetupState {
        let order = attachment_order(self.mode);
        SetupState {
            mode: self.mode,
            attached: order.take(self.attached as int),
            failure: if self.failed {
                Some(order[self.attached as int])
            } else {
                None
            },
        }
    }
}

impl Setup {
    #[verifier::type_invariant]
    closed spec fn inv(self) -> bool {
        &&& self.attached <= attachment_order(self.mode).len()
        &&& self.failed ==> self.attached < attachment_order(self.mode).len()
    }

    /// Starts setup for a build of the given mode.
    pub fn new(mode: BuildMode) -> (setup: Setup)
        ensures
            setup@ == SetupState::initial(mode),
    {
        let setup = Setup { mode, attached: 0, failed: false };
        assert(setup@.attached =~= Seq::empty());
        setup
    }

    /// The build that is being set up.
    pub fn mode(&self) -> (mode: BuildMode)
        ensures
            mode == self@.mode,
    {
        self.mode
    }

    /// What the host has to do next.
    pub fn action(&self) -> (action: Action)
        ensures
            action == self@.action(),
            self@.well_formed(),
    {
        proof {
            use_type_invariant(self);
        }
        match plugin_at(self.mode, self.attached) {
            Some(plugin) => {
                if self.failed {
                    Action::Abort(plugin)
                } else {
                    Action::Attach(plugin)
                }
            },
            None => Action::Finish,
        }
    }

    /// Takes the host's report on the attachment of the pending plugin.
    pub fn record(&mut self, outcome: Outcome)
        ensures
            final(self)@ == old(self)@.record(outcome),
            final(self)@.well_formed(),
    {
        proof {
            use_type_invariant(&*self);
        }
        if !self.failed && self.attached < plugin_count(self.mode) {
            let ghost order = attachment_order(self.mode);
            let ghost before: int = self.attached as int;
            match outcome {
                Outcome::Attached => {
                    self.attached = self.attached + 1;
                    assert(order.take(before + 1) =~= order.take(before).push(order[before]));
                },
                Outcome::Failed => {
                    self.failed = true;
                },
            }
        }
    }

    /// Takes the host's report and says what the host has to do next.
    pub fn step(&mut self, outcome: Outcome) -> (action: Action)
        ensures
            final(self)@ == old(self)@.record(outcome),
            final(self)@.well_formed(),
            action == final(self)@.action(),
    {
        self.record(outcome);
        self.action()
    }

    /// The plugins attached so far, in the order in which they were attached.
    pub fn attached(&self) -> (plugins: Vec<Plugin>)
        ensures
            plugins@ == self@.attached,
    {
        proof {
            use_type_invariant(self);
        }
        let ghost order = attachment_order(self.mode);
        let mut plugins: Vec<Plugin> = Vec::new();
        let mut position: usize = 0;
        while position < self.attached
            invariant
                order == attachment_order(self.mode),
                position <= self.attached <= order.len(),
                plugins@ == order.take(position as int),
            decreases self.attached - position,
        {
            match plugin_at(self.mode, position) {
                Some(plugin) => {
                    plugins.push(plugin);
                },
                None => {},
            }
            assert(order.take(position + 1) =~= order.take(position as int).push(
                order[position as int],
            ));
            position = position + 1;
        }
        plugins
    }

    /// What setup returns to its caller: `None` while a plugin is pending,
    /// then `Ok`, or the error of the plugin that could not be attached.
    pub fn result(&self) -> (result: Option<Result<(), SetupError>>)
        ensures
            result == self@.result(),
    {
        match self.action() {
            Action::Attach(_) => None,
            Action::Finish => Some(Ok(())),
            Action::Abort(plugin) => Some(Err(SetupError { plugin })),
        }
    }
}

/// Setup never reorders: whatever the host reports, and however often, the
/// plugins attached are the beginning of the attachment order of the build,
/// and a failure is that of the plugin which comes next in it.
pub proof fn lemma_attached_in_order(mode: BuildMode, outcomes: Seq<Outcome>)
    ensures
        SetupState::after(mode, outcomes).well_formed(),
        SetupState::after(mode, outcomes).mode == mode,
    decreases outcomes.len(),
{
    if outcomes.len() == 0 {
        assert(SetupState::initial(mode).attached =~= attachment_order(mode).take(0));
    } else {
        lemma_attached_in_order(mode, outcomes.drop_last());
        lemma_record_keeps_order(SetupState::after(mode, outcomes.drop_last()), outcomes.last());
    }
}

/// One report takes a well-formed state to a well-formed state of the same
/// build, and attaches at most the plugin that was pending.
pub proof fn lemma_record_keeps_order(state: SetupState, outcome: Outcome)
    requires
        state.well_formed(),
    ensures
        state.record(outcome).well_formed(),
        state.record(outcome).mode == state.mode,
        state.record(outcome).attached == state.attached || (state.pending() is Some
            && outcome == Outcome::Attached && state.record(outcome).attached
            == state.attached.push(state.pending().unwrap())),
{
    let order = attachment_order(state.mode);
    let count: int = state.attached.len() as int;
    if state.pending() is Some && outcome == Outcome::Attached {
        assert(order.take(count + 1) =~= order.take(count).push(order[count]));
    }
}

/// While every attachment succeeds, setup walks through the attachment order
/// from its start: after as many reports as the order has entries every
/// plugin of the build is attached and setup succeeds.
pub proof fn lemma_all_attached(mode: BuildMode, outcomes: Seq<Outcome>)
    requires
        forall|i: int| 0 <= i < outcomes.len() ==> outcomes[i] == Outcome::Attached,
    ensures
        SetupState::after(mode, outcomes).failure is None,
        outcomes.len() < attachment_order(mode).len() ==> SetupState::after(
            mode,
            outcomes,
        ).attached == attachment_order(mode).take(outcomes.len() as int),
        outcomes.len() < attachment_order(mode).len() ==> SetupState::after(
            mode,
            outcomes,
        ).action() == Action::Attach(attachment_order(mode)[outcomes.len() as int]),
        outcomes.len() >= attachment_order(mode).len() ==> SetupState::after(
            mode,
            outcomes,
        ).attached == attachment_order(mode),
        outcomes.len() >= attachment_order(mode).len() ==> SetupState::after(
            mode,
            outcomes,
        ).action() == Action::Finish,
        outcomes.len() >= attachment_order(mode).len() ==> SetupState::after(
            mode,
            outcomes,
        ).result() == Some(Ok::<(), SetupError>(())),
    decreases outcomes.len(),
{
    let order = attachment_order(mode);
    if outcomes.len() == 0 {
        assert(SetupState::initial(mode).attached =~= order.take(0));
    } else {
        let earlier = outcomes.drop_last();
        let count: int = earlier.len() as int;
        lemma_all_attached(mode, earlier);
        if count < order.len() {
            assert(order.take(count + 1) =~= order.take(count).push(order[count]));
        }
        assert(order.take(order.len() as int) =~= order);
    }
}

/// Setup fails fast: once an attachment has failed, nothing that the host
/// reports afterwards attaches another plugin. The plugins before the failed
/// one stay attached, those after it are never asked for, and the failure is
/// what setup hands to its caller.
pub proof fn lemma_fail_fast(mode: BuildMode, outcomes: Seq<Outcome>, failed_at: int)
    requires
        0 <= failed_at < outcomes.len(),
        failed_at < attachment_order(mode).len(),
        outcomes[failed_at] == Outcome::Failed,
        forall|i: int| 0 <= i < failed_at ==> outcomes[i] == Outcome::Attached,
    ensures
        SetupState::after(mode, outcomes).attached == attachment_order(mode).take(failed_at),
        SetupState::after(mode, outcomes).failure == Some(attachment_order(mode)[failed_at]),
        SetupState::after(mode, outcomes).action() == Action::Abort(
            attachment_order(mode)[failed_at],
        ),
        SetupState::after(mode, outcomes).result() == Some(
            Err::<(), SetupError>(SetupError { plugin: attachment_order(mode)[failed_at] }),
        ),
    decreases outcomes.len(),
{
    let earlier = outcomes.drop_last();
    if earlier.len() == failed_at {
        lemma_all_attached(mode, earlier);
    } else {
        lemma_fail_fast(mode, earlier, failed_at);
    }
}

/// Setup succeeds when every plugin of the build is attached, and only then.
pub proof fn lemma_success_means_all_attached(state: SetupState)
    requires
        state.well_formed(),
    ensures
        state.result() == Some(Ok::<(), SetupError>(())) <==> state.attached == attachment_order(
            state.mode,
        ) && state.failure is None,
        state.result() is None <==> state.pending() is Some,
{
    let order = attachment_order(state.mode);
    assert(order.take(order.len() as int) =~= order);
}

/// A finished setup stays as it is: after success or failure no report
/// changes the state or the action.
pub proof fn lemma_finished_is_final(state: SetupState, outcome: Outcome)
    requires
        state.finished(),
    ensures
        state.record(outcome) == state,
{
}

/// A release build never attaches the logging plugin: whatever the host
/// reports, logging is neither attached, nor asked for, nor the plugin that
/// failed.
pub proof fn lemma_release_never_logs(outcomes: Seq<Outcome>)
    ensures
        !SetupState::after(BuildMode::Release, outcomes).attached.contains(Plugin::Logging),
        SetupState::after(BuildMode::Release, outcomes).action() != Action::Attach(
            Plugin::Logging,
        ),
        SetupState::after(BuildMode::Release, outcomes).action() != Action::Abort(
            Plugin::Logging,
        ),
{
    lemma_attached_in_order(BuildMode::Release, outcomes);
}

/// A debug build attaches the logging plugin before any other: it is the
/// first plugin asked for, and the first of the attached plugins ever after.
pub proof fn lemma_debug_logs_first(outcomes: Seq<Outcome>)
    ensures
        SetupState::initial(BuildMode::Debug).action() == Action::Attach(Plugin::Logging),
        SetupState::after(BuildMode::Debug, outcomes).attached.len() > 0 ==> SetupState::after(
            BuildMode::Debug,
            outcomes,
        ).attached[0] == Plugin::Logging,
{
    lemma_attached_in_order(BuildMode::Debug, outcomes);
}

} // verus!
