use serde_yaml_ng::{Mapping, Value};
use verge_core::clash::{
    clash_step_result, patch_clash, plan_clash_steps, route_steps, stage_clash_patch,
    ClashProgress, ClashStep,
};
use verge_core::draft::Draft;
use verge_core::error::ControlError;
use verge_core::reconcile::Phase;

fn mapping(entries: &[(&str, &str)]) -> Mapping {
    let mut map = Mapping::new();
    for (key, value) in entries {
        map.insert(Value::String(String::from(*key)), Value::String(String::from(*value)));
    }
    map
}

#[test]
fn route_with_restart() {
    assert_eq!(route_steps(true, false), vec![ClashStep::RestartCore, ClashStep::NotifyRefresh]);
    assert_eq!(
        route_steps(true, true),
        vec![ClashStep::RefreshTray, ClashStep::RestartCore, ClashStep::NotifyRefresh]
    );
}

#[test]
fn route_with_live_push() {
    assert_eq!(
        route_steps(false, false),
        vec![ClashStep::PatchRuntimeConfig, ClashStep::UpdateConfig, ClashStep::NotifyRefresh]
    );
    assert_eq!(
        route_steps(false, true),
        vec![
            ClashStep::RefreshTray,
            ClashStep::PatchRuntimeConfig,
            ClashStep::UpdateConfig,
            ClashStep::NotifyRefresh,
        ]
    );
}

#[test]
fn secret_or_controller_address_restarts_the_engine() {
    let restart = vec![ClashStep::RestartCore, ClashStep::NotifyRefresh];
    assert_eq!(plan_clash_steps(&mapping(&[("secret", "s")])), restart);
    assert_eq!(plan_clash_steps(&mapping(&[("external-controller", "127.0.0.1:9090")])), restart);
    assert_eq!(
        plan_clash_steps(&mapping(&[("mode", "rule"), ("secret", "s")])),
        vec![ClashStep::RefreshTray, ClashStep::RestartCore, ClashStep::NotifyRefresh]
    );
    assert_eq!(
        plan_clash_steps(&mapping(&[("external-controller", "x"), ("mode", "rule")])),
        vec![ClashStep::RefreshTray, ClashStep::RestartCore, ClashStep::NotifyRefresh]
    );
    assert_eq!(
        plan_clash_steps(&mapping(&[("log-level", "info"), ("external-controller", "x")])),
        restart
    );
}

#[test]
fn mode_refreshes_the_tray_before_the_push() {
    assert_eq!(
        plan_clash_steps(&mapping(&[("mode", "global")])),
        vec![
            ClashStep::RefreshTray,
            ClashStep::PatchRuntimeConfig,
            ClashStep::UpdateConfig,
            ClashStep::NotifyRefresh,
        ]
    );
}

#[test]
fn any_other_patch_is_pushed_live() {
    let live =
        vec![ClashStep::PatchRuntimeConfig, ClashStep::UpdateConfig, ClashStep::NotifyRefresh];
    assert_eq!(plan_clash_steps(&mapping(&[("log-level", "debug")])), live);
    assert_eq!(plan_clash_steps(&Mapping::new()), live);
    assert_eq!(plan_clash_steps(&mapping(&[("Secret", "s"), ("modes", "x")])), live);
}

#[test]
fn keys_that_are_no_strings_do_not_count() {
    let mut patch = Mapping::new();
    patch.insert(Value::Bool(true), Value::String(String::from("secret")));
    patch.insert(Value::Null, Value::String(String::from("mode")));
    assert_eq!(
        plan_clash_steps(&patch),
        vec![ClashStep::PatchRuntimeConfig, ClashStep::UpdateConfig, ClashStep::NotifyRefresh]
    );
}

#[test]
fn staged_patch_is_merged_into_a_copy() {
    let committed = mapping(&[("mode", "rule"), ("log-level", "info")]);
    let mut store = Draft::new(committed.clone());
    let patch = mapping(&[("mode", "global"), ("ipv6", "true")]);
    stage_clash_patch(&mut store, &patch);
    assert_eq!(*store.data_ref(), committed);
    assert_eq!(
        *store.latest_ref(),
        mapping(&[("mode", "global"), ("log-level", "info"), ("ipv6", "true")])
    );
    assert_eq!(patch, mapping(&[("mode", "global"), ("ipv6", "true")]));
    stage_clash_patch(&mut store, &mapping(&[("log-level", "debug")]));
    assert_eq!(
        *store.latest_ref(),
        mapping(&[("mode", "global"), ("log-level", "debug"), ("ipv6", "true")])
    );
    assert_eq!(*store.data_ref(), committed);
}

#[test]
fn successful_patch_is_committed_after_the_last_step() {
    let committed = mapping(&[("mode", "rule")]);
    let mut store = Draft::new(committed.clone());
    let (mut session, first) = patch_clash(&mut store, &mapping(&[("mode", "direct")]));
    assert_eq!(first, ClashProgress::Run(ClashStep::RefreshTray));
    assert_eq!(session.current_phase(), Phase::Running);
    assert_eq!(
        session.step(&mut store, Ok(())),
        ClashProgress::Run(ClashStep::PatchRuntimeConfig)
    );
    assert_eq!(session.step(&mut store, Ok(())), ClashProgress::Run(ClashStep::UpdateConfig));
    assert_eq!(*store.data_ref(), committed);
    assert_eq!(session.step(&mut store, Ok(())), ClashProgress::Run(ClashStep::NotifyRefresh));
    assert_eq!(*store.data_ref(), committed);
    assert_eq!(session.step(&mut store, Ok(())), ClashProgress::Commit);
    assert_eq!(session.current_phase(), Phase::Committed);
    assert_eq!(*store.data_ref(), mapping(&[("mode", "direct")]));
    assert!(!store.has_draft());
    assert_eq!(session.step(&mut store, Ok(())), ClashProgress::Done);
}

#[test]
fn failed_push_discards_the_draft() {
    let committed = mapping(&[("log-level", "info")]);
    let mut store = Draft::new(committed.clone());
    let (mut session, first) = patch_clash(&mut store, &mapping(&[("log-level", "debug")]));
    assert_eq!(first, ClashProgress::Run(ClashStep::PatchRuntimeConfig));
    assert_eq!(session.step(&mut store, Ok(())), ClashProgress::Run(ClashStep::UpdateConfig));
    let error = ControlError::ExternalProcessFailure(String::from("engine said no"));
    assert_eq!(session.step(&mut store, Err(error.clone())), ClashProgress::Abort(error));
    assert_eq!(session.current_phase(), Phase::Discarded);
    assert_eq!(*store.data_ref(), committed);
    assert!(!store.has_draft());
    assert_eq!(session.step(&mut store, Ok(())), ClashProgress::Done);
    assert_eq!(*store.data_ref(), committed);
}

#[test]
fn failed_restart_discards_the_draft() {
    let committed = mapping(&[("secret", "old")]);
    let mut store = Draft::new(committed.clone());
    let (mut session, first) = patch_clash(&mut store, &mapping(&[("secret", "new")]));
    assert_eq!(first, ClashProgress::Run(ClashStep::RestartCore));
    assert_eq!(*store.latest_ref(), mapping(&[("secret", "new")]));
    let error = ControlError::Timeout(String::from("restart timed out"));
    assert_eq!(session.step(&mut store, Err(error.clone())), ClashProgress::Abort(error));
    assert_eq!(*store.data_ref(), committed);
    assert_eq!(*store.latest_ref(), committed);
}

#[test]
fn tray_and_notification_failures_are_tolerated() {
    let error = ControlError::ExternalProcessFailure(String::from("no tray"));
    assert_eq!(clash_step_result(ClashStep::RefreshTray, Err(error.clone())), Ok(()));
    assert_eq!(clash_step_result(ClashStep::NotifyRefresh, Err(error.clone())), Ok(()));
    assert_eq!(clash_step_result(ClashStep::RefreshTray, Ok(())), Ok(()));
    for step in [ClashStep::RestartCore, ClashStep::PatchRuntimeConfig, ClashStep::UpdateConfig] {
        assert_eq!(clash_step_result(step, Err(error.clone())), Err(error.clone()));
        assert_eq!(clash_step_result(step, Ok(())), Ok(()));
    }
}

#[test]
fn failed_tray_refresh_does_not_fail_the_patch() {
    let committed = mapping(&[("mode", "rule"), ("secret", "old")]);
    let mut store = Draft::new(committed.clone());
    let patch = mapping(&[("mode", "global"), ("secret", "new")]);
    let (mut session, first) = patch_clash(&mut store, &patch);
    assert_eq!(first, ClashProgress::Run(ClashStep::RefreshTray));
    let error = ControlError::ExternalProcessFailure(String::from("no tray"));
    assert_eq!(
        session.step(&mut store, Err(error.clone())),
        ClashProgress::Run(ClashStep::RestartCore)
    );
    assert_eq!(*store.data_ref(), committed);
    assert_eq!(session.step(&mut store, Ok(())), ClashProgress::Run(ClashStep::NotifyRefresh));
    assert_eq!(session.step(&mut store, Err(error)), ClashProgress::Commit);
    assert_eq!(*store.data_ref(), patch);
    assert!(!store.has_draft());
}

#[test]
fn committed_mapping_holds_the_values_of_the_patch() {
    let mut store = Draft::new(mapping(&[("a", "1"), ("b", "2"), ("c", "3")]));
    let patch = mapping(&[("b", "20"), ("d", "40")]);
    let (mut session, mut progress) = patch_clash(&mut store, &patch);
    while let ClashProgress::Run(_) = progress {
        progress = session.step(&mut store, Ok(()));
    }
    assert_eq!(progress, ClashProgress::Commit);
    assert_eq!(*store.data_ref(), mapping(&[("a", "1"), ("b", "20"), ("c", "3"), ("d", "40")]));
}
