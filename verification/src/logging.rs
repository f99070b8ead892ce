//! What the diagnostic log of a debug build is configured with.

use crate::plugin::{attachment_order, BuildMode, Plugin};
use vstd::prelude::*;

verus! {

/// How severe a log record must be to pass a filter, from the filter that
/// lets nothing through to the one that lets everything through.
#[derive(Clone, Copy, Debug, PartialEq, Eq, Hash, Structural)]
pub enum Severity {
    /// No record passes.
    Off,
    /// Only errors pass.
    Error,
    /// Warnings and errors pass.
    Warn,
    /// Informational records, warnings and errors pass.
    Info,
    /// Everything but traces passes.
    Debug,
    /// Every record passes.
    Trace,
}

/// The diagnostic source of the host's event loop, which reports every turn of
/// the loop and would otherwise flood the log.
pub const EVENT_LOOP_SOURCE: &'static str = "tao::platform_impl::platform::event_loop::runner";

/// A severity that replaces the minimum severity for the records of one named
/// diagnostic source.
#[derive(Clone, Copy, Debug, PartialEq, Eq)]
pub struct SourceOverride {
    /// The name of the diagnostic source.
    pub source: &'static str,
    /// The severity that applies to the records of that source.
    pub level: Severity,
}

/// The configuration that the logging plugin is attached with.
#[derive(Debug, PartialEq, Eq)]
pub struct LogSettings {
    /// The minimum severity of the records of every source without an
    /// override.
    pub level: Severity,
    /// The overrides, one for each source that has its own severity.
    pub overrides: Vec<SourceOverride>,
}

/// The mathematical value of a [`SourceOverride`].
pub struct SourceOverrideView {
    pub source: Seq<char>,
    pub level: Severity,
}

/// The mathematical value of a [`LogSettings`].
pub struct LogSettingsView {
    pub level: Severity,
    pub overrides: Seq<SourceOverrideView>,
}

impl View for SourceOverride {
    type V = SourceOverrideView;

    open spec fn view(&self) -> SourceOverrideView {
        SourceOverrideView { source: self.source@, level: self.level }
    }
}

impl View for LogSettings {
    type V = LogSettingsView;

    open spec fn view(&self) -> LogSettingsView {
        LogSettingsView {
            level: self.level,
            overrides: Seq::new(self.overrides@.len(), |i: int| self.overrides@[i]@),
        }
    }
}

/// The configuration of the logging plugin: records of severity `Info` and
/// above pass, except those of the event loop's source, of which only errors
/// pass.
pub open spec fn debug_settings() -> LogSettingsView {
    LogSettingsView {
        level: Severity::Info,
        overrides: seq![
            SourceOverrideView { source: EVENT_LOOP_SOURCE@, level: Severity::Error },
        ],
    }
}

/// What the logging plugin of a build is configured with: the debug
/// configuration in a debug build, nothing in a release build, which attaches
/// no logging plugin.
pub open spec fn settings_of(mode: BuildMode) -> Option<LogSettingsView> {
    match mode {
        BuildMode::Debug => Some(debug_settings()),
        BuildMode::Release => None,
    }
}

impl LogSettings {
    /// The configuration with which the logging plugin is attached: a minimum
    /// severity of `Info`, and one override, which lets only errors of the
    /// event loop's source pass.
    pub fn debug() -> (settings: LogSettings)
        ensures
            settings@ == debug_settings(),
            settings.level == Severity::Info,
            settings.overrides@.len() == 1,
            settings.overrides@[0].source@ == EVENT_LOOP_SOURCE@,
            settings.overrides@[0].level == Severity::Error,
    {
        let mut overrides: Vec<SourceOverride> = Vec::new();
        overrides.push(SourceOverride { source: EVENT_LOOP_SOURCE, level: Severity::Error });
        let settings = LogSettings { level: Severity::Info, overrides };
        assert(settings@.overrides =~= debug_settings().overrides);
        settings
    }
}

/// The configuration with which a build of the given mode attaches the logging
/// plugin, or `None` where the build attaches none: in a release build.
pub fn log_settings(mode: BuildMode) -> (settings: Option<LogSettings>)
    ensures
        settings is Some <==> mode == BuildMode::Debug,
        (match settings {
            Some(s) => settings_of(mode) == Some(s@),
            None => settings_of(mode) is None,
        }),
{
    match mode {
        BuildMode::Debug => Some(LogSettings::debug()),
        BuildMode::Release => None,
    }
}

/// A build has a log configuration exactly when it attaches the logging
/// plugin, and the configuration is then a minimum severity of `Info` with a
/// single override, which holds the event loop's source to `Error`.
pub proof fn lemma_settings_where_logging_is_attached(mode: BuildMode)
    ensures
        settings_of(mode) is Some <==> attachment_order(mode).contains(Plugin::Logging),
        settings_of(mode) is Some ==> settings_of(mode).unwrap().level == Severity::Info,
        settings_of(mode) is Some ==> settings_of(mode).unwrap().overrides.len() == 1,
        settings_of(mode) is Some ==> settings_of(mode).unwrap().overrides[0]
            == (SourceOverrideView { source: EVENT_LOOP_SOURCE@, level: Severity::Error }),
{
    crate::plugin::lemma_logging_only_in_debug(mode);
}

} // verus!
