//! The plugins of the shell and the order in which they are attached.

use vstd::prelude::*;

verus! {

/// Whether the application was compiled with debugging support.
///
/// The mode is fixed when the program is compiled and never changes while it
/// runs.
#[derive(Clone, Copy, Debug, PartialEq, Eq, Hash, Structural)]
pub enum BuildMode {
    /// A development build: diagnostic logging is attached.
    Debug,
    /// A build for distribution: no diagnostic logging.
    Release,
}

/// A capability module that the shell attaches to its host during setup.
#[derive(Clone, Copy, Debug, PartialEq, Eq, Hash, Structural)]
pub enum Plugin {
    /// Diagnostic logging.
    Logging,
    /// File read and write access.
    Filesystem,
    /// Process and command invocation.
    Shell,
    /// Native dialogs such as file pickers and message boxes.
    Dialog,
    /// Opening files and URLs with the system's default handler.
    Opener,
}

/// The capability plugins that every build attaches, in attachment order.
pub open spec fn capability_order() -> Seq<Plugin> {
    seq![Plugin::Filesystem, Plugin::Shell, Plugin::Dialog, Plugin::Opener]
}

/// The plugins that a build attaches, in the order in which it attaches them:
/// logging first, in a debug build only, then the capability plugins.
pub open spec fn attachment_order(mode: BuildMode) -> Seq<Plugin> {
    match mode {
        BuildMode::Debug => seq![Plugin::Logging] + capability_order(),
        BuildMode::Release => capability_order(),
    }
}

impl BuildMode {
    /// The build mode that corresponds to the compiler's debug-assertions flag.
    pub fn from_debug_assertions(enabled: bool) -> (mode: BuildMode)
        ensures
            mode == (if enabled { BuildMode::Debug } else { BuildMode::Release }),
    {
        if enabled {
            BuildMode::Debug
        } else {
            BuildMode::Release
        }
    }

    /// Whether a build of this mode attaches the logging plugin.
    pub fn attaches_logging(self) -> (logs: bool)
        ensures
            logs == (self == BuildMode::Debug),
            logs == attachment_order(self).contains(Plugin::Logging),
    {
        proof {
            lemma_logging_only_in_debug(self);
        }
        match self {
            BuildMode::Debug => true,
            BuildMode::Release => false,
        }
    }
}

/// The number of plugins that a build of the given mode attaches.
pub fn plugin_count(mode: BuildMode) -> (count: usize)
    ensures
        count == attachment_order(mode).len(),
{
    match mode {
        BuildMode::Debug => 5,
        BuildMode::Release => 4,
    }
}

/// The plugin at the given position of the attachment order, counted from 0,
/// or `None` where the order has no such position.
pub fn plugin_at(mode: BuildMode, position: usize) -> (plugin: Option<Plugin>)
    ensures
        plugin == (if position < attachment_order(mode).len() {
            Some(attachment_order(mode)[position as int])
        } else {
            None
        }),
{
    let offset: usize = match mode {
        BuildMode::Debug => 0,
        BuildMode::Release => 1,
    };
    if position >= 5 - offset {
        None
    } else {
        let slot: usize = position + offset;
        if slot == 0 {
            Some(Plugin::Logging)
        } else if slot == 1 {
            Some(Plugin::Filesystem)
        } else if slot == 2 {
            Some(Plugin::Shell)
        } else if slot == 3 {
            Some(Plugin::Dialog)
        } else {
            Some(Plugin::Opener)
        }
    }
}

/// The plugins that a build of the given mode attaches, in attachment order.
pub fn attachment_plan(mode: BuildMode) -> (plan: Vec<Plugin>)
    ensures
        plan@ == attachment_order(mode),
{
    let mut plan: Vec<Plugin> = Vec::new();
    match mode {
        BuildMode::Debug => {
            plan.push(Plugin::Logging);
        },
        BuildMode::Release => {},
    }
    plan.push(Plugin::Filesystem);
    plan.push(Plugin::Shell);
    plan.push(Plugin::Dialog);
    plan.push(Plugin::Opener);
    plan
}

/// The logging plugin is part of the attachment order in a debug build, where
/// it comes first, and in no other build.
pub proof fn lemma_logging_only_in_debug(mode: BuildMode)
    ensures
        attachment_order(mode).contains(Plugin::Logging) <==> mode == BuildMode::Debug,
        mode == BuildMode::Debug ==> attachment_order(mode)[0] == Plugin::Logging,
{
    if mode == BuildMode::Debug {
        assert(attachment_order(mode)[0] == Plugin::Logging);
    }
}

/// The attachment order is fixed: filesystem, shell, dialog, opener, with
/// logging before them in a debug build and nothing else in either build.
pub proof fn lemma_attachment_order_is_fixed(mode: BuildMode)
    ensures
        attachment_order(BuildMode::Release) == seq![
            Plugin::Filesystem,
            Plugin::Shell,
            Plugin::Dialog,
            Plugin::Opener,
        ],
        attachment_order(BuildMode::Debug) == seq![
            Plugin::Logging,
            Plugin::Filesystem,
            Plugin::Shell,
            Plugin::Dialog,
            Plugin::Opener,
        ],
        attachment_order(mode).skip(attachment_order(mode).len() - 4) == capability_order(),
{
}

/// No plugin occurs twice in the attachment order.
pub proof fn lemma_order_has_no_duplicates(mode: BuildMode)
    ensures
        attachment_order(mode).no_duplicates(),
{
}

} // verus!
