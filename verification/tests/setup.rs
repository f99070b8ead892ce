use app_bootstrap::{
    attachment_plan, Action, BuildMode, Outcome, Plugin, Setup, SetupError,
};

fn modes() -> [BuildMode; 2] {
    [BuildMode::Debug, BuildMode::Release]
}

#[test]
fn setup_starts_with_nothing_attached() {
    for mode in modes() {
        let setup = Setup::new(mode);
        assert_eq!(setup.mode(), mode);
        assert_eq!(setup.attached(), vec![]);
        assert_eq!(setup.result(), None);
    }
}

#[test]
fn debug_setup_asks_for_logging_first() {
    assert_eq!(Setup::new(BuildMode::Debug).action(), Action::Attach(Plugin::Logging));
}

#[test]
fn release_setup_asks_for_filesystem_first() {
    assert_eq!(Setup::new(BuildMode::Release).action(), Action::Attach(Plugin::Filesystem));
}

#[test]
fn setup_asks_for_the_plugins_in_plan_order_and_finishes() {
    for mode in modes() {
        let plan = attachment_plan(mode);
        let mut setup = Setup::new(mode);
        let mut asked = Vec::new();
        let mut action = setup.action();
        while let Action::Attach(plugin) = action {
            asked.push(plugin);
            assert_eq!(setup.result(), None);
            action = setup.step(Outcome::Attached);
            assert_eq!(setup.attached(), asked);
        }
        assert_eq!(asked, plan);
        assert_eq!(action, Action::Finish);
        assert_eq!(setup.action(), Action::Finish);
        assert_eq!(setup.attached(), plan);
        assert_eq!(setup.result(), Some(Ok(())));
    }
}

#[test]
fn release_setup_never_asks_for_logging() {
    let mut setup = Setup::new(BuildMode::Release);
    for _ in 0..8 {
        assert_ne!(setup.action(), Action::Attach(Plugin::Logging));
        setup.record(Outcome::Attached);
        assert!(!setup.attached().contains(&Plugin::Logging));
    }
}

#[test]
fn a_failure_at_any_position_stops_setup_there() {
    for mode in modes() {
        let plan = attachment_plan(mode);
        for failing in 0..plan.len() {
            let mut setup = Setup::new(mode);
            for position in 0..failing {
                assert_eq!(setup.action(), Action::Attach(plan[position]));
                setup.record(Outcome::Attached);
            }
            assert_eq!(setup.action(), Action::Attach(plan[failing]));
            let action = setup.step(Outcome::Failed);
            assert_eq!(action, Action::Abort(plan[failing]));
            assert_eq!(setup.attached(), plan[..failing].to_vec());
            assert_eq!(setup.result(), Some(Err(SetupError { plugin: plan[failing] })));
        }
    }
}

#[test]
fn reports_after_a_failure_attach_nothing() {
    for mode in modes() {
        let plan = attachment_plan(mode);
        let mut setup = Setup::new(mode);
        setup.record(Outcome::Attached);
        setup.record(Outcome::Failed);
        for outcome in [Outcome::Attached, Outcome::Failed, Outcome::Attached] {
            assert_eq!(setup.step(outcome), Action::Abort(plan[1]));
            assert_eq!(setup.attached(), vec![plan[0]]);
            assert_eq!(setup.result(), Some(Err(SetupError { plugin: plan[1] })));
        }
    }
}

#[test]
fn reports_after_success_change_nothing() {
    for mode in modes() {
        let plan = attachment_plan(mode);
        let mut setup = Setup::new(mode);
        for _ in 0..plan.len() {
            setup.record(Outcome::Attached);
        }
        for outcome in [Outcome::Failed, Outcome::Attached] {
            assert_eq!(setup.step(outcome), Action::Finish);
            assert_eq!(setup.attached(), plan);
            assert_eq!(setup.result(), Some(Ok(())));
        }
    }
}

#[test]
fn failed_logging_attaches_nothing_at_all() {
    let mut setup = Setup::new(BuildMode::Debug);
    assert_eq!(setup.step(Outcome::Failed), Action::Abort(Plugin::Logging));
    assert_eq!(setup.attached(), vec![]);
    assert_eq!(setup.result(), Some(Err(SetupError { plugin: Plugin::Logging })));
}

#[test]
fn failed_opener_keeps_the_plugins_before_it() {
    let mut setup = Setup::new(BuildMode::Release);
    setup.record(Outcome::Attached);
    setup.record(Outcome::Attached);
    setup.record(Outcome::Attached);
    assert_eq!(setup.step(Outcome::Failed), Action::Abort(Plugin::Opener));
    assert_eq!(
        setup.attached(),
        vec![Plugin::Filesystem, Plugin::Shell, Plugin::Dialog]
    );
    assert_eq!(setup.result(), Some(Err(SetupError { plugin: Plugin::Opener })));
}

#[test]
fn record_and_step_agree() {
    for mode in modes() {
        let mut by_record = Setup::new(mode);
        let mut by_step = Setup::new(mode);
        for outcome in [Outcome::Attached, Outcome::Attached, Outcome::Failed, Outcome::Attached] {
            by_record.record(outcome);
            let action = by_step.step(outcome);
            assert_eq!(action, by_record.action());
            assert_eq!(by_step.attached(), by_record.attached());
            assert_eq!(by_step.result(), by_record.result());
        }
    }
}
