//! Startup rules of a desktop application shell.
//!
//! The shell attaches a fixed set of capability plugins to its host before the
//! event loop starts, and ends the process when that cannot be done. This
//! crate holds the rules of that sequence as verified state machines: which
//! plugin is attached next, what the diagnostic log is configured with, when
//! setup is over, and how the process ends. The host performs the attachments
//! and reports back what happened.

pub mod bootstrap;
pub mod logging;
pub mod plugin;
pub mod setup;

pub use bootstrap::{
    Bootstrap, Command, Event, Failure, Phase, Termination, FATAL_EXIT_STATUS, FATAL_MESSAGE,
    NORMAL_EXIT_STATUS,
};
pub use logging::{log_settings, LogSettings, Severity, SourceOverride, EVENT_LOOP_SOURCE};
pub use plugin::{attachment_plan, plugin_at, plugin_count, BuildMode, Plugin};
pub use setup::{Action, Outcome, Setup, SetupError};
