use verge_core::draft::{persist_result, Draft};
use verge_core::error::ControlError;
use verge_core::verge::{stage_patch, IVerge};

#[test]
fn new_domain_has_no_draft() {
    let store = Draft::new(7u32);
    assert_eq!(*store.data_ref(), 7);
    assert_eq!(*store.latest_ref(), 7);
    assert!(!store.has_draft());
}

#[test]
fn stage_leaves_committed_alone() {
    let mut store = Draft::new(1u32);
    store.stage(2);
    assert!(store.has_draft());
    assert_eq!(*store.data_ref(), 1);
    assert_eq!(*store.latest_ref(), 2);
    store.stage(3);
    assert_eq!(*store.data_ref(), 1);
    assert_eq!(*store.latest_ref(), 3);
}

#[test]
fn apply_commits_the_draft() {
    let mut store = Draft::new(1u32);
    store.stage(2);
    assert_eq!(store.apply(), Some(1));
    assert_eq!(*store.data_ref(), 2);
    assert!(!store.has_draft());
    assert_eq!(store.apply(), None);
    assert_eq!(*store.data_ref(), 2);
}

#[test]
fn discard_restores_the_committed_value() {
    let mut store = Draft::new(String::from("good"));
    store.stage(String::from("first try"));
    store.stage(String::from("second try"));
    assert_eq!(store.discard(), Some(String::from("second try")));
    assert_eq!(store.data_ref(), "good");
    assert_eq!(store.latest_ref(), "good");
    assert!(!store.has_draft());
    assert_eq!(store.discard(), None);
    assert_eq!(store.data_ref(), "good");
}

#[test]
fn patch_is_merged_into_a_copy_of_the_committed_value() {
    let mut base = IVerge::default();
    base.language = Some(String::from("en"));
    base.verge_mixed_port = Some(7890);
    base.enable_tun_mode = Some(false);
    let mut store = Draft::new(base.clone());

    let mut patch = IVerge::default();
    patch.enable_tun_mode = Some(true);
    patch.hotkeys = Some(vec![String::from("a"), String::from("b")]);
    stage_patch(&mut store, patch);

    assert_eq!(*store.data_ref(), base);
    let mut expected = base.clone();
    expected.enable_tun_mode = Some(true);
    expected.hotkeys = Some(vec![String::from("a"), String::from("b")]);
    assert_eq!(*store.latest_ref(), expected);
}

#[test]
fn second_patch_merges_into_the_draft() {
    let mut store = Draft::new(IVerge::default());
    let mut first = IVerge::default();
    first.language = Some(String::from("en"));
    first.verge_port = Some(1);
    stage_patch(&mut store, first);
    let mut second = IVerge::default();
    second.verge_port = Some(2);
    stage_patch(&mut store, second);
    let mut expected = IVerge::default();
    expected.language = Some(String::from("en"));
    expected.verge_port = Some(2);
    assert_eq!(*store.latest_ref(), expected);
    assert_eq!(*store.data_ref(), IVerge::default());
}

#[test]
fn absent_fields_of_a_patch_change_nothing() {
    let mut base = IVerge::default();
    base.enable_system_proxy = Some(true);
    base.tray_event = Some(String::from("menu"));
    let mut merged = base.clone();
    merged.patch_config(IVerge::default());
    assert_eq!(merged, base);
}

#[test]
fn present_default_value_overwrites() {
    let mut base = IVerge::default();
    base.enable_system_proxy = Some(true);
    base.language = Some(String::from("en"));
    let mut patch = IVerge::default();
    patch.enable_system_proxy = Some(false);
    patch.language = Some(String::new());
    base.patch_config(patch.clone());
    assert_eq!(base, patch);
}

#[test]
fn duplicate_is_equal() {
    let mut value = IVerge::default();
    value.pac_file_content = Some(String::from("x"));
    value.hotkeys = Some(vec![String::from("k")]);
    value.verge_socks_port = Some(9);
    assert_eq!(value.duplicate(), value);
}

#[test]
fn failed_write_is_reported_and_leaves_the_commit() {
    let mut store = Draft::new(1u32);
    store.stage(2);
    store.apply();
    assert_eq!(persist_result(Ok(())), Ok(()));
    assert_eq!(
        persist_result(Err(String::from("disk full"))),
        Err(ControlError::PersistenceFailure(String::from("disk full")))
    );
    assert_eq!(*store.data_ref(), 2);
}
