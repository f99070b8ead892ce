use app_bootstrap::{attachment_plan, plugin_at, plugin_count, BuildMode, Plugin};

#[test]
fn debug_build_attaches_logging_then_the_four_capabilities() {
    assert_eq!(
        attachment_plan(BuildMode::Debug),
        vec![
            Plugin::Logging,
            Plugin::Filesystem,
            Plugin::Shell,
            Plugin::Dialog,
            Plugin::Opener,
        ]
    );
}

#[test]
fn release_build_attaches_the_four_capabilities_only() {
    assert_eq!(
        attachment_plan(BuildMode::Release),
        vec![Plugin::Filesystem, Plugin::Shell, Plugin::Dialog, Plugin::Opener]
    );
}

#[test]
fn release_plan_holds_no_logging() {
    assert!(!attachment_plan(BuildMode::Release).contains(&Plugin::Logging));
    assert!(!BuildMode::Release.attaches_logging());
    assert!(BuildMode::Debug.attaches_logging());
}

#[test]
fn plan_is_the_same_every_time() {
    for _ in 0..3 {
        assert_eq!(attachment_plan(BuildMode::Debug), attachment_plan(BuildMode::Debug));
        assert_eq!(attachment_plan(BuildMode::Release), attachment_plan(BuildMode::Release));
    }
}

#[test]
fn debug_plan_is_logging_before_the_release_plan() {
    let debug = attachment_plan(BuildMode::Debug);
    let release = attachment_plan(BuildMode::Release);
    assert_eq!(debug[0], Plugin::Logging);
    assert_eq!(&debug[1..], &release[..]);
}

#[test]
fn no_plugin_is_planned_twice() {
    for mode in [BuildMode::Debug, BuildMode::Release] {
        let plan = attachment_plan(mode);
        for i in 0..plan.len() {
            for j in 0..i {
                assert_ne!(plan[i], plan[j]);
            }
        }
    }
}

#[test]
fn plugin_count_is_five_in_debug_and_four_in_release() {
    assert_eq!(plugin_count(BuildMode::Debug), 5);
    assert_eq!(plugin_count(BuildMode::Release), 4);
}

#[test]
fn plugin_at_agrees_with_the_plan_at_every_position() {
    for mode in [BuildMode::Debug, BuildMode::Release] {
        let plan = attachment_plan(mode);
        assert_eq!(plan.len(), plugin_count(mode));
        for position in 0..plan.len() {
            assert_eq!(plugin_at(mode, position), Some(plan[position]));
        }
    }
}

#[test]
fn plugin_at_exact_positions() {
    assert_eq!(plugin_at(BuildMode::Debug, 0), Some(Plugin::Logging));
    assert_eq!(plugin_at(BuildMode::Debug, 1), Some(Plugin::Filesystem));
    assert_eq!(plugin_at(BuildMode::Debug, 4), Some(Plugin::Opener));
    assert_eq!(plugin_at(BuildMode::Release, 0), Some(Plugin::Filesystem));
    assert_eq!(plugin_at(BuildMode::Release, 1), Some(Plugin::Shell));
    assert_eq!(plugin_at(BuildMode::Release, 2), Some(Plugin::Dialog));
    assert_eq!(plugin_at(BuildMode::Release, 3), Some(Plugin::Opener));
}

#[test]
fn plugin_at_is_none_past_the_end() {
    assert_eq!(plugin_at(BuildMode::Debug, 5), None);
    assert_eq!(plugin_at(BuildMode::Release, 4), None);
    assert_eq!(plugin_at(BuildMode::Release, 5), None);
    assert_eq!(plugin_at(BuildMode::Debug, usize::MAX), None);
    assert_eq!(plugin_at(BuildMode::Release, usize::MAX), None);
}

#[test]
fn build_mode_follows_the_debug_assertions_flag() {
    assert_eq!(BuildMode::from_debug_assertions(true), BuildMode::Debug);
    assert_eq!(BuildMode::from_debug_assertions(false), BuildMode::Release);
}
