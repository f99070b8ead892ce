use app_bootstrap::{
    log_settings, BuildMode, LogSettings, Severity, SourceOverride, EVENT_LOOP_SOURCE,
};

#[test]
fn debug_build_logs_from_info_with_one_override_to_error() {
    let settings = log_settings(BuildMode::Debug).expect("a debug build logs");
    assert_eq!(settings.level, Severity::Info);
    assert_eq!(settings.overrides.len(), 1);
    assert_eq!(settings.overrides[0].source, EVENT_LOOP_SOURCE);
    assert_eq!(settings.overrides[0].level, Severity::Error);
}

#[test]
fn debug_settings_as_a_whole() {
    assert_eq!(
        log_settings(BuildMode::Debug),
        Some(LogSettings {
            level: Severity::Info,
            overrides: vec![SourceOverride {
                source: "tao::platform_impl::platform::event_loop::runner",
                level: Severity::Error,
            }],
        })
    );
}

#[test]
fn settings_of_the_logging_plugin_are_those_of_a_debug_build() {
    assert_eq!(Some(LogSettings::debug()), log_settings(BuildMode::Debug));
    let settings = LogSettings::debug();
    assert_eq!(settings.level, Severity::Info);
    assert_eq!(
        settings.overrides,
        vec![SourceOverride { source: EVENT_LOOP_SOURCE, level: Severity::Error }]
    );
}

#[test]
fn release_build_has_no_log_settings() {
    assert_eq!(log_settings(BuildMode::Release), None);
}

#[test]
fn event_loop_source_is_the_runner_of_the_windowing_library() {
    assert_eq!(EVENT_LOOP_SOURCE, "tao::platform_impl::platform::event_loop::runner");
}

#[test]
fn log_settings_exist_exactly_where_logging_is_attached() {
    for mode in [BuildMode::Debug, BuildMode::Release] {
        assert_eq!(log_settings(mode).is_some(), mode.attaches_logging());
    }
}

#[test]
fn severities_are_the_filter_levels_of_the_log_crate_in_their_order() {
    let severities = [
        Severity::Off,
        Severity::Error,
        Severity::Warn,
        Severity::Info,
        Severity::Debug,
        Severity::Trace,
    ];
    let filters: Vec<log::LevelFilter> = log::LevelFilter::iter().collect();
    assert_eq!(filters.len(), severities.len());
    for (severity, filter) in severities.iter().zip(filters.iter()) {
        assert_eq!(format!("{:?}", severity), format!("{:?}", filter));
    }
    assert!(filters[1] < filters[3]);
}
