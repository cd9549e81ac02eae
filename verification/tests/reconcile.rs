use verge_core::draft::Draft;
use verge_core::error::ControlError;
use verge_core::flags::{analyze_patch, Action, UpdateFlags};
use verge_core::platform::{Platform, RunningMode};
use verge_core::reconcile::{
    engine_config_step, patch_verge, plan_actions, Command, Phase, Progress,
};
use verge_core::tun::{PushOutcome, TunConfigPush, TunManager, TunStatus};
use verge_core::verge::IVerge;

fn committed() -> IVerge {
    let mut value = IVerge::default();
    value.language = Some(String::from("en"));
    value.enable_global_hotkey = Some(true);
    value.enable_tun_mode = Some(false);
    value
}

#[test]
fn plan_of_no_flags_is_empty() {
    assert_eq!(plan_actions(UpdateFlags::empty(), &IVerge::default()), Vec::new());
}

#[test]
fn plan_of_all_flags_is_the_execution_order() {
    let mut patch = IVerge::default();
    patch.enable_tun_mode = Some(true);
    patch.enable_global_hotkey = Some(false);
    patch.verge_port = Some(1);
    patch.enable_auto_launch = Some(true);
    patch.enable_system_proxy = Some(true);
    patch.hotkeys = Some(vec![String::from("k")]);
    patch.tray_event = Some(String::from("menu"));
    patch.enable_auto_light_weight_mode = Some(true);
    let flags = analyze_patch(&patch, Platform::Linux);
    assert_eq!(
        plan_actions(flags, &patch),
        vec![
            Command::RestartCore,
            Command::UpdateClashConfig { sync_tun: true },
            Command::RefreshVerge,
            Command::UpdateLaunch,
            Command::UpdateSysProxy,
            Command::UpdateHotkeys(vec![String::from("k")]),
            Command::UpdateTrayMenu,
            Command::UpdateTrayIcon,
            Command::UpdateTrayTooltip,
            Command::UpdateTrayClickBehavior,
            Command::SetLightWeight(true),
        ]
    );
}

#[test]
fn hotkey_flag_without_a_table_has_no_command() {
    let flags = UpdateFlags::of(Action::Hotkey).bitor(UpdateFlags::of(Action::Launch));
    assert_eq!(plan_actions(flags, &IVerge::default()), vec![Command::UpdateLaunch]);
}

#[test]
fn lightweight_command_carries_the_value() {
    let flags = UpdateFlags::of(Action::LightWeight);
    let mut patch = IVerge::default();
    assert_eq!(plan_actions(flags, &patch), vec![Command::SetLightWeight(false)]);
    patch.enable_auto_light_weight_mode = Some(false);
    assert_eq!(plan_actions(flags, &patch), vec![Command::SetLightWeight(false)]);
    patch.enable_auto_light_weight_mode = Some(true);
    assert_eq!(plan_actions(flags, &patch), vec![Command::SetLightWeight(true)]);
}

#[test]
fn config_push_syncs_tun_only_for_a_tun_patch() {
    let flags = UpdateFlags::of(Action::ClashConfig);
    assert_eq!(
        plan_actions(flags, &IVerge::default()),
        vec![Command::UpdateClashConfig { sync_tun: false }]
    );
}

// A patch that switches the SOCKS listener on restarts the engine once and
// does nothing else.
#[test]
fn scenario_socks_patch_restarts_core_exactly_once() {
    let mut store = Draft::new(committed());
    let mut patch = IVerge::default();
    patch.verge_socks_enabled = Some(true);
    let (mut session, first) = patch_verge(&mut store, patch, false, Platform::Linux);
    assert_eq!(first, Progress::Run(Command::RestartCore));
    assert_eq!(session.in_flight(), Some(&Command::RestartCore));
    assert_eq!(session.current_phase(), Phase::Running);
    assert_eq!(*store.data_ref(), committed());
    let next = session.step(&mut store, Ok(()));
    assert_eq!(next, Progress::Commit { persist: true });
    assert_eq!(session.current_phase(), Phase::Committed);
    assert_eq!(session.in_flight(), None);
    let mut expected = committed();
    expected.verge_socks_enabled = Some(true);
    assert_eq!(*store.data_ref(), expected);
    assert!(!store.has_draft());
}

// A patch that switches the system proxy on runs four actions in the fixed
// order, and commits only after the last of them.
#[test]
fn scenario_system_proxy_patch_runs_four_actions_in_order() {
    let mut store = Draft::new(committed());
    let mut patch = IVerge::default();
    patch.enable_system_proxy = Some(true);
    let (mut session, first) = patch_verge(&mut store, patch, false, Platform::Windows);
    let mut ran = Vec::new();
    let mut progress = first;
    loop {
        match progress {
            Progress::Run(command) => {
                assert_eq!(*store.data_ref(), committed());
                assert!(store.has_draft());
                ran.push(command);
                progress = session.step(&mut store, Ok(()));
            }
            other => {
                assert_eq!(other, Progress::Commit { persist: true });
                break;
            }
        }
    }
    assert_eq!(
        ran,
        vec![
            Command::UpdateSysProxy,
            Command::UpdateTrayMenu,
            Command::UpdateTrayIcon,
            Command::UpdateTrayTooltip,
        ]
    );
    assert_eq!(store.data_ref().enable_system_proxy, Some(true));
}

#[test]
fn failed_action_discards_the_draft_and_skips_the_rest() {
    let mut store = Draft::new(committed());
    let mut patch = IVerge::default();
    patch.enable_system_proxy = Some(true);
    patch.language = Some(String::from("zh"));
    let (mut session, first) = patch_verge(&mut store, patch, false, Platform::Linux);
    assert_eq!(first, Progress::Run(Command::UpdateSysProxy));
    assert_eq!(session.step(&mut store, Ok(())), Progress::Run(Command::UpdateTrayMenu));
    let error = ControlError::ExternalProcessFailure(String::from("tray is gone"));
    assert_eq!(session.step(&mut store, Err(error.clone())), Progress::Abort(error));
    assert_eq!(session.current_phase(), Phase::Discarded);
    assert_eq!(*store.data_ref(), committed());
    assert_eq!(*store.latest_ref(), committed());
    assert!(!store.has_draft());
    assert_eq!(session.in_flight(), None);
    assert_eq!(session.step(&mut store, Ok(())), Progress::Done);
    assert_eq!(*store.data_ref(), committed());
}

// A push of the configuration that times out fails the reconciliation of
// the patch that asked for it: the draft is gone, the committed value is
// what it was.
#[test]
fn scenario_timed_out_push_discards_the_preference_draft() {
    let mut store = Draft::new(committed());
    let mut patch = IVerge::default();
    patch.enable_tun_mode = Some(true);
    let (mut session, first) = patch_verge(&mut store, patch, false, Platform::Linux);
    assert_eq!(first, Progress::Run(Command::UpdateClashConfig { sync_tun: true }));
    assert_eq!(store.latest_ref().enable_tun_mode, Some(true));
    let error = ControlError::Timeout(String::from("push timed out"));
    assert_eq!(session.step(&mut store, Err(error.clone())), Progress::Abort(error));
    assert_eq!(*store.data_ref(), committed());
    assert!(!store.has_draft());
}

#[test]
fn empty_patch_commits_at_once() {
    let mut store = Draft::new(committed());
    let (mut session, first) = patch_verge(&mut store, IVerge::default(), false, Platform::Linux);
    assert_eq!(first, Progress::Commit { persist: true });
    assert_eq!(session.current_phase(), Phase::Committed);
    assert_eq!(*store.data_ref(), committed());
    assert!(!store.has_draft());
    assert_eq!(session.step(&mut store, Ok(())), Progress::Done);
}

#[test]
fn session_only_patch_is_not_persisted() {
    let mut store = Draft::new(committed());
    let mut patch = IVerge::default();
    patch.enable_auto_launch = Some(true);
    let (mut session, first) = patch_verge(&mut store, patch, true, Platform::Linux);
    assert_eq!(first, Progress::Run(Command::UpdateLaunch));
    assert_eq!(session.step(&mut store, Ok(())), Progress::Commit { persist: false });
    assert_eq!(store.data_ref().enable_auto_launch, Some(true));
}

#[test]
fn preference_refresh_leaves_an_absent_hotkey_preference_alone() {
    let mut store = Draft::new(committed());
    let mut patch = IVerge::default();
    patch.home_cards = Some(String::from("{\"a\":1}"));
    let (mut session, first) = patch_verge(&mut store, patch, false, Platform::Linux);
    assert_eq!(first, Progress::Run(Command::RefreshVerge));
    assert_eq!(store.latest_ref().enable_global_hotkey, Some(true));
    assert_eq!(store.data_ref().enable_global_hotkey, Some(true));
    assert_eq!(session.step(&mut store, Ok(())), Progress::Commit { persist: true });
    let mut expected = committed();
    expected.home_cards = Some(String::from("{\"a\":1}"));
    assert_eq!(*store.data_ref(), expected);
    assert_eq!(store.data_ref().enable_global_hotkey, Some(true));
}

#[test]
fn preference_refresh_after_an_earlier_action() {
    let mut store = Draft::new(committed());
    let mut patch = IVerge::default();
    patch.verge_port = Some(8080);
    patch.enable_global_hotkey = Some(false);
    let (mut session, first) = patch_verge(&mut store, patch, false, Platform::Linux);
    assert_eq!(first, Progress::Run(Command::RestartCore));
    assert_eq!(store.latest_ref().enable_global_hotkey, Some(false));
    assert_eq!(session.step(&mut store, Ok(())), Progress::Run(Command::RefreshVerge));
    assert_eq!(store.latest_ref().enable_global_hotkey, Some(false));
    assert_eq!(store.data_ref().verge_port, None);
    assert_eq!(session.step(&mut store, Ok(())), Progress::Commit { persist: true });
    assert_eq!(store.data_ref().verge_port, Some(8080));
    assert_eq!(store.data_ref().enable_global_hotkey, Some(false));
}

#[test]
fn successful_patch_commits_exactly_the_fields_of_the_patch() {
    let mut base = committed();
    base.verge_mixed_port = Some(7890);
    base.hotkeys = Some(vec![String::from("old")]);
    base.tray_event = Some(String::from("menu"));
    let mut store = Draft::new(base.clone());
    let mut patch = IVerge::default();
    patch.language = Some(String::from("zh"));
    patch.hotkeys = Some(vec![String::from("new")]);
    patch.enable_auto_light_weight_mode = Some(true);
    patch.home_cards = Some(String::from("[]"));
    let (mut session, mut progress) = patch_verge(&mut store, patch, false, Platform::MacOs);
    let mut ran = 0;
    while let Progress::Run(_) = progress {
        ran += 1;
        progress = session.step(&mut store, Ok(()));
    }
    assert_eq!(ran, 4);
    assert_eq!(progress, Progress::Commit { persist: true });
    let mut expected = base;
    expected.language = Some(String::from("zh"));
    expected.hotkeys = Some(vec![String::from("new")]);
    expected.enable_auto_light_weight_mode = Some(true);
    expected.home_cards = Some(String::from("[]"));
    assert_eq!(*store.data_ref(), expected);
    assert!(!store.has_draft());
}

#[test]
fn commands_that_cannot_fail_do_not_fail_the_patch() {
    let mut store = Draft::new(committed());
    let mut patch = IVerge::default();
    patch.enable_global_hotkey = Some(false);
    patch.enable_auto_light_weight_mode = Some(true);
    let (mut session, first) = patch_verge(&mut store, patch, false, Platform::Linux);
    assert_eq!(first, Progress::Run(Command::RefreshVerge));
    let error = ControlError::ExternalProcessFailure(String::from("queue is closed"));
    assert_eq!(
        session.step(&mut store, Err(error.clone())),
        Progress::Run(Command::SetLightWeight(true))
    );
    assert_eq!(session.step(&mut store, Err(error)), Progress::Commit { persist: true });
    assert_eq!(store.data_ref().enable_global_hotkey, Some(false));
    assert_eq!(store.data_ref().enable_auto_light_weight_mode, Some(true));
}

#[test]
fn engine_config_step_fails_where_push_or_sync_failed() {
    let push = ControlError::Timeout(String::from("push"));
    let sync = ControlError::CapabilityDenied(String::from("sync"));
    assert_eq!(engine_config_step(Ok(()), None), Ok(()));
    assert_eq!(engine_config_step(Ok(()), Some(Ok(()))), Ok(()));
    assert_eq!(engine_config_step(Ok(()), Some(Err(sync.clone()))), Err(sync.clone()));
    assert_eq!(engine_config_step(Err(push.clone()), None), Err(push.clone()));
    assert_eq!(engine_config_step(Err(push.clone()), Some(Ok(()))), Err(push.clone()));
    assert_eq!(engine_config_step(Err(push.clone()), Some(Err(sync))), Err(push));
}

// A patch that switches the interface mode on, with the privilege: the
// push of the setting times out. The status is Error, the patch fails, the
// draft is gone and the committed preferences are what they were.
#[test]
fn scenario_timed_out_tun_push_fails_the_patch() {
    let mut store = Draft::new(committed());
    let mut manager = TunManager::default();
    let mut patch = IVerge::default();
    patch.enable_tun_mode = Some(true);
    let (mut session, first) = patch_verge(&mut store, patch, false, Platform::Linux);
    assert_eq!(first, Progress::Run(Command::UpdateClashConfig { sync_tun: true }));
    let wanted = store.latest_ref().enable_tun_mode;
    let push = manager
        .sync_tun_status(wanted, RunningMode::Service, false, Platform::Linux)
        .unwrap()
        .unwrap();
    assert_eq!(push, TunConfigPush { enable: true });
    let text = "启用 TUN 模式失败: TUN 配置应用超时";
    assert_eq!(
        session.step_tun_sync(&mut store, &mut manager, push, PushOutcome::TimedOut),
        Progress::Abort(ControlError::Timeout(String::from(text)))
    );
    assert_eq!(manager.get_status(), TunStatus::Error(String::from(text)));
    assert_eq!(session.current_phase(), Phase::Discarded);
    assert_eq!(*store.data_ref(), committed());
    assert!(!store.has_draft());
}

#[test]
fn refused_tun_push_fails_the_patch() {
    let mut store = Draft::new(committed());
    let mut manager = TunManager::default();
    let mut patch = IVerge::default();
    patch.enable_tun_mode = Some(true);
    let (mut session, _) = patch_verge(&mut store, patch, false, Platform::Linux);
    let push = manager.enable_tun(RunningMode::Sidecar, true, Platform::Linux).unwrap();
    let text = "启用 TUN 模式失败: TUN 配置应用失败: no";
    assert_eq!(
        session.step_tun_sync(
            &mut store,
            &mut manager,
            push,
            PushOutcome::Failed(String::from("no"))
        ),
        Progress::Abort(ControlError::ExternalProcessFailure(String::from(text)))
    );
    assert_eq!(manager.get_status(), TunStatus::Error(String::from(text)));
    assert_eq!(*store.data_ref(), committed());
}

#[test]
fn accepted_tun_push_lets_the_patch_go_on() {
    let mut store = Draft::new(committed());
    let mut manager = TunManager::default();
    let mut patch = IVerge::default();
    patch.enable_tun_mode = Some(true);
    let (mut session, _) = patch_verge(&mut store, patch, true, Platform::Linux);
    let push = manager.enable_tun(RunningMode::Service, false, Platform::Linux).unwrap();
    assert_eq!(
        session.step_tun_sync(&mut store, &mut manager, push, PushOutcome::Applied),
        Progress::Run(Command::UpdateTrayMenu)
    );
    assert_eq!(manager.get_status(), TunStatus::Enabled);
    assert_eq!(*store.data_ref(), committed());
    assert_eq!(session.step(&mut store, Ok(())), Progress::Run(Command::UpdateTrayIcon));
    assert_eq!(session.step(&mut store, Ok(())), Progress::Run(Command::UpdateTrayTooltip));
    assert_eq!(session.step(&mut store, Ok(())), Progress::Commit { persist: false });
    assert_eq!(store.data_ref().enable_tun_mode, Some(true));
}

#[test]
fn failed_sync_fails_the_patch() {
    let mut store = Draft::new(committed());
    let mut manager = TunManager::default();
    let mut patch = IVerge::default();
    patch.enable_tun_mode = Some(true);
    let (mut session, _) = patch_verge(&mut store, patch, false, Platform::Linux);
    let wanted = store.latest_ref().enable_tun_mode;
    let denied = manager
        .sync_tun_status(wanted, RunningMode::Sidecar, false, Platform::Linux)
        .unwrap_err();
    let outcome = engine_config_step(Ok(()), Some(Err(denied.clone())));
    assert_eq!(session.step(&mut store, outcome), Progress::Abort(denied));
    assert_eq!(manager.get_status(), TunStatus::Disabled);
    assert_eq!(*store.data_ref(), committed());
    assert!(!store.has_draft());
}
