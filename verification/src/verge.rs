use crate::draft::Draft;
use crate::text::copy_strings;
use vstd::prelude::*;

verus! {

/// Application preferences, every field optional.
///
/// The same type serves as the stored preferences and as a patch to them.
/// In a patch an absent field asks for no change, which is not the same as
/// a field that is present with its default value.
#[derive(Debug, Clone, PartialEq, Eq)]
pub struct IVerge {
    /// Whether the virtual network interface mode is wanted.
    pub enable_tun_mode: Option<bool>,
    /// Whether hotkeys work while the window is hidden.
    pub enable_global_hotkey: Option<bool>,
    /// Layout of the home page, as JSON text.
    pub home_cards: Option<String>,
    /// Whether the redirect listener is on.
    pub verge_redir_enabled: Option<bool>,
    /// Port of the redirect listener.
    pub verge_redir_port: Option<u16>,
    /// Whether the transparent-proxy listener is on.
    pub verge_tproxy_enabled: Option<bool>,
    /// Port of the transparent-proxy listener.
    pub verge_tproxy_port: Option<u16>,
    /// Whether the SOCKS listener is on.
    pub verge_socks_enabled: Option<bool>,
    /// Port of the SOCKS listener.
    pub verge_socks_port: Option<u16>,
    /// Whether the HTTP listener is on.
    pub verge_http_enabled: Option<bool>,
    /// Port of the HTTP listener.
    pub verge_port: Option<u16>,
    /// Port of the mixed listener.
    pub verge_mixed_port: Option<u16>,
    /// Whether the engine's control API listens.
    pub enable_external_controller: Option<bool>,
    /// Whether the application starts with the session.
    pub enable_auto_launch: Option<bool>,
    /// Whether the system proxy points at the engine.
    pub enable_system_proxy: Option<bool>,
    /// Hosts that bypass the system proxy.
    pub system_proxy_bypass: Option<String>,
    /// Text of the proxy auto-config script.
    pub pac_file_content: Option<String>,
    /// Whether the system proxy uses the auto-config script.
    pub proxy_auto_config: Option<bool>,
    /// Language of the interface.
    pub language: Option<String>,
    /// Style of the tray icon; read on macOS only.
    pub tray_icon: Option<String>,
    /// Whether a custom icon replaces the ordinary one.
    pub common_tray_icon: Option<bool>,
    /// Whether a custom icon shows the system proxy.
    pub sysproxy_tray_icon: Option<bool>,
    /// Whether a custom icon shows the interface mode.
    pub tun_tray_icon: Option<bool>,
    /// Whether the tray shows the traffic rate.
    pub enable_tray_speed: Option<bool>,
    /// Whether the tray shows an icon at all.
    pub enable_tray_icon: Option<bool>,
    /// The hotkey table, one binding per entry.
    pub hotkeys: Option<Vec<String>>,
    /// What a click on the tray icon does.
    pub tray_event: Option<String>,
    /// Whether lightweight mode starts by itself.
    pub enable_auto_light_weight_mode: Option<bool>,
}

/// What an `IVerge` holds, as mathematical values.
pub ghost struct VergeView {
    pub enable_tun_mode: Option<bool>,
    pub enable_global_hotkey: Option<bool>,
    pub home_cards: Option<Seq<char>>,
    pub verge_redir_enabled: Option<bool>,
    pub verge_redir_port: Option<u16>,
    pub verge_tproxy_enabled: Option<bool>,
    pub verge_tproxy_port: Option<u16>,
    pub verge_socks_enabled: Option<bool>,
    pub verge_socks_port: Option<u16>,
    pub verge_http_enabled: Option<bool>,
    pub verge_port: Option<u16>,
    pub verge_mixed_port: Option<u16>,
    pub enable_external_controller: Option<bool>,
    pub enable_auto_launch: Option<bool>,
    pub enable_system_proxy: Option<bool>,
    pub system_proxy_bypass: Option<Seq<char>>,
    pub pac_file_content: Option<Seq<char>>,
    pub proxy_auto_config: Option<bool>,
    pub language: Option<Seq<char>>,
    pub tray_icon: Option<Seq<char>>,
    pub common_tray_icon: Option<bool>,
    pub sysproxy_tray_icon: Option<bool>,
    pub tun_tray_icon: Option<bool>,
    pub enable_tray_speed: Option<bool>,
    pub enable_tray_icon: Option<bool>,
    pub hotkeys: Option<Seq<Seq<char>>>,
    pub tray_event: Option<Seq<char>>,
    pub enable_auto_light_weight_mode: Option<bool>,
}

/// `patch` where it is present, `base` where it is not.
pub open spec fn or_base<T>(base: Option<T>, patch: Option<T>) -> Option<T> {
    if patch.is_some() {
        patch
    } else {
        base
    }
}

impl VergeView {
    /// The preferences with no field present.
    pub open spec fn absent() -> VergeView {
        VergeView {
            enable_tun_mode: None,
            enable_global_hotkey: None,
            home_cards: None,
            verge_redir_enabled: None,
            verge_redir_port: None,
            verge_tproxy_enabled: None,
            verge_tproxy_port: None,
            verge_socks_enabled: None,
            verge_socks_port: None,
            verge_http_enabled: None,
            verge_port: None,
            verge_mixed_port: None,
            enable_external_controller: None,
            enable_auto_launch: None,
            enable_system_proxy: None,
            system_proxy_bypass: None,
            pac_file_content: None,
            proxy_auto_config: None,
            language: None,
            tray_icon: None,
            common_tray_icon: None,
            sysproxy_tray_icon: None,
            tun_tray_icon: None,
            enable_tray_speed: None,
            enable_tray_icon: None,
            hotkeys: None,
            tray_event: None,
            enable_auto_light_weight_mode: None,
        }
    }

    /// The preferences after `patch` is merged in: each field that the
    /// patch holds replaces the field of `self`, every other field stays.
    pub open spec fn merged(self, patch: VergeView) -> VergeView {
        VergeView {
            enable_tun_mode: or_base(self.enable_tun_mode, patch.enable_tun_mode),
            enable_global_hotkey: or_base(self.enable_global_hotkey, patch.enable_global_hotkey),
            home_cards: or_base(self.home_cards, patch.home_cards),
            verge_redir_enabled: or_base(self.verge_redir_enabled, patch.verge_redir_enabled),
            verge_redir_port: or_base(self.verge_redir_port, patch.verge_redir_port),
            verge_tproxy_enabled: or_base(self.verge_tproxy_enabled, patch.verge_tproxy_enabled),
            verge_tproxy_port: or_base(self.verge_tproxy_port, patch.verge_tproxy_port),
            verge_socks_enabled: or_base(self.verge_socks_enabled, patch.verge_socks_enabled),
            verge_socks_port: or_base(self.verge_socks_port, patch.verge_socks_port),
            verge_http_enabled: or_base(self.verge_http_enabled, patch.verge_http_enabled),
            verge_port: or_base(self.verge_port, patch.verge_port),
            verge_mixed_port: or_base(self.verge_mixed_port, patch.verge_mixed_port),
            enable_external_controller: or_base(self.enable_external_controller, patch.enable_external_controller),
            enable_auto_launch: or_base(self.enable_auto_launch, patch.enable_auto_launch),
            enable_system_proxy: or_base(self.enable_system_proxy, patch.enable_system_proxy),
            system_proxy_bypass: or_base(self.system_proxy_bypass, patch.system_proxy_bypass),
            pac_file_content: or_base(self.pac_file_content, patch.pac_file_content),
            proxy_auto_config: or_base(self.proxy_auto_config, patch.proxy_auto_config),
            language: or_base(self.language, patch.language),
            tray_icon: or_base(self.tray_icon, patch.tray_icon),
            common_tray_icon: or_base(self.common_tray_icon, patch.common_tray_icon),
            sysproxy_tray_icon: or_base(self.sysproxy_tray_icon, patch.sysproxy_tray_icon),
            tun_tray_icon: or_base(self.tun_tray_icon, patch.tun_tray_icon),
            enable_tray_speed: or_base(self.enable_tray_speed, patch.enable_tray_speed),
            enable_tray_icon: or_base(self.enable_tray_icon, patch.enable_tray_icon),
            hotkeys: or_base(self.hotkeys, patch.hotkeys),
            tray_event: or_base(self.tray_event, patch.tray_event),
            enable_auto_light_weight_mode: or_base(self.enable_auto_light_weight_mode, patch.enable_auto_light_weight_mode),
        }
    }
}

/// Merging is idempotent: a patch that was merged changes nothing when it
/// is merged again.
pub proof fn lemma_merge_is_idempotent(base: VergeView, patch: VergeView)
    ensures
        base.merged(patch).merged(patch) == base.merged(patch),
{
}

/// A patch with no field present changes nothing, and a later patch wins
/// over an earlier one wherever both hold a field: merging two patches one
/// after the other is merging what the second makes of the first.
pub proof fn lemma_merge_later_wins(base: VergeView, first: VergeView, second: VergeView)
    ensures
        base.merged(VergeView::absent()) == base,
        base.merged(first).merged(second) == base.merged(first.merged(second)),
{
    let left = base.merged(first).merged(second);
    let right = base.merged(first.merged(second));
    assert(left.enable_tun_mode == right.enable_tun_mode) by {
        lemma_or_base_nests(base.enable_tun_mode, first.enable_tun_mode, second.enable_tun_mode);
    }
    assert(left.enable_global_hotkey == right.enable_global_hotkey) by {
        lemma_or_base_nests(base.enable_global_hotkey, first.enable_global_hotkey, second.enable_global_hotkey);
    }
    assert(left.home_cards == right.home_cards) by {
        lemma_or_base_nests(base.home_cards, first.home_cards, second.home_cards);
    }
    assert(left.verge_redir_enabled == right.verge_redir_enabled) by {
        lemma_or_base_nests(base.verge_redir_enabled, first.verge_redir_enabled, second.verge_redir_enabled);
    }
    assert(left.verge_redir_port == right.verge_redir_port) by {
        lemma_or_base_nests(base.verge_redir_port, first.verge_redir_port, second.verge_redir_port);
    }
    assert(left.verge_tproxy_enabled == right.verge_tproxy_enabled) by {
        lemma_or_base_nests(base.verge_tproxy_enabled, first.verge_tproxy_enabled, second.verge_tproxy_enabled);
    }
    assert(left.verge_tproxy_port == right.verge_tproxy_port) by {
        lemma_or_base_nests(base.verge_tproxy_port, first.verge_tproxy_port, second.verge_tproxy_port);
    }
    assert(left.verge_socks_enabled == right.verge_socks_enabled) by {
        lemma_or_base_nests(base.verge_socks_enabled, first.verge_socks_enabled, second.verge_socks_enabled);
    }
    assert(left.verge_socks_port == right.verge_socks_port) by {
        lemma_or_base_nests(base.verge_socks_port, first.verge_socks_port, second.verge_socks_port);
    }
    assert(left.verge_http_enabled == right.verge_http_enabled) by {
        lemma_or_base_nests(base.verge_http_enabled, first.verge_http_enabled, second.verge_http_enabled);
    }
    assert(left.verge_port == right.verge_port) by {
        lemma_or_base_nests(base.verge_port, first.verge_port, second.verge_port);
    }
    assert(left.verge_mixed_port == right.verge_mixed_port) by {
        lemma_or_base_nests(base.verge_mixed_port, first.verge_mixed_port, second.verge_mixed_port);
    }
    assert(left.enable_external_controller == right.enable_external_controller) by {
        lemma_or_base_nests(base.enable_external_controller, first.enable_external_controller, second.enable_external_controller);
    }
    assert(left.enable_auto_launch == right.enable_auto_launch) by {
        lemma_or_base_nests(base.enable_auto_launch, first.enable_auto_launch, second.enable_auto_launch);
    }
    assert(left.enable_system_proxy == right.enable_system_proxy) by {
        lemma_or_base_nests(base.enable_system_proxy, first.enable_system_proxy, second.enable_system_proxy);
    }
    assert(left.system_proxy_bypass == right.system_proxy_bypass) by {
        lemma_or_base_nests(base.system_proxy_bypass, first.system_proxy_bypass, second.system_proxy_bypass);
    }
    assert(left.pac_file_content == right.pac_file_content) by {
        lemma_or_base_nests(base.pac_file_content, first.pac_file_content, second.pac_file_content);
    }
    assert(left.proxy_auto_config == right.proxy_auto_config) by {
        lemma_or_base_nests(base.proxy_auto_config, first.proxy_auto_config, second.proxy_auto_config);
    }
    assert(left.language == right.language) by {
        lemma_or_base_nests(base.language, first.language, second.language);
    }
    assert(left.tray_icon == right.tray_icon) by {
        lemma_or_base_nests(base.tray_icon, first.tray_icon, second.tray_icon);
    }
    assert(left.common_tray_icon == right.common_tray_icon) by {
        lemma_or_base_nests(base.common_tray_icon, first.common_tray_icon, second.common_tray_icon);
    }
    assert(left.sysproxy_tray_icon == right.sysproxy_tray_icon) by {
        lemma_or_base_nests(base.sysproxy_tray_icon, first.sysproxy_tray_icon, second.sysproxy_tray_icon);
    }
    assert(left.tun_tray_icon == right.tun_tray_icon) by {
        lemma_or_base_nests(base.tun_tray_icon, first.tun_tray_icon, second.tun_tray_icon);
    }
    assert(left.enable_tray_speed == right.enable_tray_speed) by {
        lemma_or_base_nests(base.enable_tray_speed, first.enable_tray_speed, second.enable_tray_speed);
    }
    assert(left.enable_tray_icon == right.enable_tray_icon) by {
        lemma_or_base_nests(base.enable_tray_icon, first.enable_tray_icon, second.enable_tray_icon);
    }
    assert(left.hotkeys == right.hotkeys) by {
        lemma_or_base_nests(base.hotkeys, first.hotkeys, second.hotkeys);
    }
    assert(left.tray_event == right.tray_event) by {
        lemma_or_base_nests(base.tray_event, first.tray_event, second.tray_event);
    }
    assert(left.enable_auto_light_weight_mode == right.enable_auto_light_weight_mode) by {
        lemma_or_base_nests(base.enable_auto_light_weight_mode, first.enable_auto_light_weight_mode, second.enable_auto_light_weight_mode);
    }
}

proof fn lemma_or_base_nests<T>(base: Option<T>, first: Option<T>, second: Option<T>)
    ensures
        or_base(or_base(base, first), second) == or_base(base, or_base(first, second)),
{
}

impl View for IVerge {
    type V = VergeView;

    open spec fn view(&self) -> VergeView {
        VergeView {
            enable_tun_mode: self.enable_tun_mode,
            enable_global_hotkey: self.enable_global_hotkey,
            home_cards: self.home_cards.deep_view(),
            verge_redir_enabled: self.verge_redir_enabled,
            verge_redir_port: self.verge_redir_port,
            verge_tproxy_enabled: self.verge_tproxy_enabled,
            verge_tproxy_port: self.verge_tproxy_port,
            verge_socks_enabled: self.verge_socks_enabled,
            verge_socks_port: self.verge_socks_port,
            verge_http_enabled: self.verge_http_enabled,
            verge_port: self.verge_port,
            verge_mixed_port: self.verge_mixed_port,
            enable_external_controller: self.enable_external_controller,
            enable_auto_launch: self.enable_auto_launch,
            enable_system_proxy: self.enable_system_proxy,
            system_proxy_bypass: self.system_proxy_bypass.deep_view(),
            pac_file_content: self.pac_file_content.deep_view(),
            proxy_auto_config: self.proxy_auto_config,
            language: self.language.deep_view(),
            tray_icon: self.tray_icon.deep_view(),
            common_tray_icon: self.common_tray_icon,
            sysproxy_tray_icon: self.sysproxy_tray_icon,
            tun_tray_icon: self.tun_tray_icon,
            enable_tray_speed: self.enable_tray_speed,
            enable_tray_icon: self.enable_tray_icon,
            hotkeys: self.hotkeys.deep_view(),
            tray_event: self.tray_event.deep_view(),
            enable_auto_light_weight_mode: self.enable_auto_light_weight_mode,
        }
    }
}

impl Default for IVerge {
    fn default() -> (r: Self)
        ensures
            r@ == VergeView::absent(),
    {
        IVerge {
            enable_tun_mode: None,
            enable_global_hotkey: None,
            home_cards: None,
            verge_redir_enabled: None,
            verge_redir_port: None,
            verge_tproxy_enabled: None,
            verge_tproxy_port: None,
            verge_socks_enabled: None,
            verge_socks_port: None,
            verge_http_enabled: None,
            verge_port: None,
            verge_mixed_port: None,
            enable_external_controller: None,
            enable_auto_launch: None,
            enable_system_proxy: None,
            system_proxy_bypass: None,
            pac_file_content: None,
            proxy_auto_config: None,
            language: None,
            tray_icon: None,
            common_tray_icon: None,
            sysproxy_tray_icon: None,
            tun_tray_icon: None,
            enable_tray_speed: None,
            enable_tray_icon: None,
            hotkeys: None,
            tray_event: None,
            enable_auto_light_weight_mode: None,
        }
    }
}

fn merge_field<T>(base: &mut Option<T>, patch: Option<T>)
    ensures
        *final(base) == or_base(*old(base), patch),
{
    if patch.is_some() {
        *base = patch;
    }
}

fn copy_text(text: &Option<String>) -> (r: Option<String>)
    ensures
        r.deep_view() == text.deep_view(),
{
    match text {
        Some(s) => Some(s.clone()),
        None => None,
    }
}

fn copy_texts(texts: &Option<Vec<String>>) -> (r: Option<Vec<String>>)
    ensures
        r.deep_view() == texts.deep_view(),
{
    match texts {
        Some(list) => Some(copy_strings(list)),
        None => None,
    }
}

impl IVerge {
    /// A copy that holds the same values.
    pub fn duplicate(&self) -> (r: IVerge)
        ensures
            r@ == self@,
    {
        IVerge {
            enable_tun_mode: self.enable_tun_mode,
            enable_global_hotkey: self.enable_global_hotkey,
            home_cards: copy_text(&self.home_cards),
            verge_redir_enabled: self.verge_redir_enabled,
            verge_redir_port: self.verge_redir_port,
            verge_tproxy_enabled: self.verge_tproxy_enabled,
            verge_tproxy_port: self.verge_tproxy_port,
            verge_socks_enabled: self.verge_socks_enabled,
            verge_socks_port: self.verge_socks_port,
            verge_http_enabled: self.verge_http_enabled,
            verge_port: self.verge_port,
            verge_mixed_port: self.verge_mixed_port,
            enable_external_controller: self.enable_external_controller,
            enable_auto_launch: self.enable_auto_launch,
            enable_system_proxy: self.enable_system_proxy,
            system_proxy_bypass: copy_text(&self.system_proxy_bypass),
            pac_file_content: copy_text(&self.pac_file_content),
            proxy_auto_config: self.proxy_auto_config,
            language: copy_text(&self.language),
            tray_icon: copy_text(&self.tray_icon),
            common_tray_icon: self.common_tray_icon,
            sysproxy_tray_icon: self.sysproxy_tray_icon,
            tun_tray_icon: self.tun_tray_icon,
            enable_tray_speed: self.enable_tray_speed,
            enable_tray_icon: self.enable_tray_icon,
            hotkeys: copy_texts(&self.hotkeys),
            tray_event: copy_text(&self.tray_event),
            enable_auto_light_weight_mode: self.enable_auto_light_weight_mode,
        }
    }

    /// Merges `patch` into `self`: a field that the patch holds overwrites
    /// the field of `self`, a field that it lacks leaves `self` as it was.
    pub fn patch_config(&mut self, patch: IVerge)
        ensures
            final(self)@ == old(self)@.merged(patch@),
    {
        merge_field(&mut self.enable_tun_mode, patch.enable_tun_mode);
        merge_field(&mut self.enable_global_hotkey, patch.enable_global_hotkey);
        merge_field(&mut self.home_cards, patch.home_cards);
        merge_field(&mut self.verge_redir_enabled, patch.verge_redir_enabled);
        merge_field(&mut self.verge_redir_port, patch.verge_redir_port);
        merge_field(&mut self.verge_tproxy_enabled, patch.verge_tproxy_enabled);
        merge_field(&mut self.verge_tproxy_port, patch.verge_tproxy_port);
        merge_field(&mut self.verge_socks_enabled, patch.verge_socks_enabled);
        merge_field(&mut self.verge_socks_port, patch.verge_socks_port);
        merge_field(&mut self.verge_http_enabled, patch.verge_http_enabled);
        merge_field(&mut self.verge_port, patch.verge_port);
        merge_field(&mut self.verge_mixed_port, patch.verge_mixed_port);
        merge_field(&mut self.enable_external_controller, patch.enable_external_controller);
        merge_field(&mut self.enable_auto_launch, patch.enable_auto_launch);
        merge_field(&mut self.enable_system_proxy, patch.enable_system_proxy);
        merge_field(&mut self.system_proxy_bypass, patch.system_proxy_bypass);
        merge_field(&mut self.pac_file_content, patch.pac_file_content);
        merge_field(&mut self.proxy_auto_config, patch.proxy_auto_config);
        merge_field(&mut self.language, patch.language);
        merge_field(&mut self.tray_icon, patch.tray_icon);
        merge_field(&mut self.common_tray_icon, patch.common_tray_icon);
        merge_field(&mut self.sysproxy_tray_icon, patch.sysproxy_tray_icon);
        merge_field(&mut self.tun_tray_icon, patch.tun_tray_icon);
        merge_field(&mut self.enable_tray_speed, patch.enable_tray_speed);
        merge_field(&mut self.enable_tray_icon, patch.enable_tray_icon);
        merge_field(&mut self.hotkeys, patch.hotkeys);
        merge_field(&mut self.tray_event, patch.tray_event);
        merge_field(&mut self.enable_auto_light_weight_mode, patch.enable_auto_light_weight_mode);
    }
}

/// The draft of `store`, taken out of it; where it has none, a copy of
/// the committed value.
fn take_draft(store: &mut Draft<IVerge>) -> (draft: IVerge)
    ensures
        draft@ == old(store)@.latest()@,
        final(store)@ == old(store)@.discarded(),
{
    match store.discard() {
        Some(draft) => draft,
        None => store.data_ref().duplicate(),
    }
}

/// Stages a patch: merges it into the draft of `store`, which starts out
/// as a copy of the committed value where no mutation is in flight yet.
/// The committed value stays as it is.
pub fn stage_patch(store: &mut Draft<IVerge>, patch: IVerge)
    ensures
        final(store)@.committed == old(store)@.committed,
        final(store)@.pending.is_some(),
        final(store)@.latest()@ == old(store)@.latest()@.merged(patch@),
{
    let mut next = take_draft(store);
    next.patch_config(patch);
    store.stage(next);
}

} // verus!
