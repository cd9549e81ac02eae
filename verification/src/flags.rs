use crate::platform::Platform;
use crate::verge::{IVerge, VergeView};
use vstd::prelude::*;

verus! {

/// One reconciliation action that a configuration patch may call for.
#[derive(Clone, Copy, Debug, PartialEq, Eq, Structural)]
pub enum Action {
    /// Regenerate the runtime configuration and restart the engine.
    RestartCore,
    /// Push the runtime configuration to the running engine.
    ClashConfig,
    /// Tell the interface that the preferences changed.
    VergeConfig,
    /// Bring launch-on-boot in line with the preferences.
    Launch,
    /// Bring the system proxy in line with the preferences.
    SysProxy,
    /// Redraw the tray icon.
    SystrayIcon,
    /// Register the hotkey table again.
    Hotkey,
    /// Rebuild the tray menu.
    SystrayMenu,
    /// Rewrite the tray tooltip.
    SystrayTooltip,
    /// Rebind what a click on the tray icon does.
    SystrayClickBehavior,
    /// Switch automatic lightweight mode on or off.
    LightWeight,
}

/// The bit that stands for an action inside an `UpdateFlags` value.
spec fn action_bit(action: Action) -> u32 {
    match action {
        Action::RestartCore => 0x001,
        Action::ClashConfig => 0x002,
        Action::VergeConfig => 0x004,
        Action::Launch => 0x008,
        Action::SysProxy => 0x010,
        Action::SystrayIcon => 0x020,
        Action::Hotkey => 0x040,
        Action::SystrayMenu => 0x080,
        Action::SystrayTooltip => 0x100,
        Action::SystrayClickBehavior => 0x200,
        Action::LightWeight => 0x400,
    }
}

/// Whether every bit of `mask` is set in `bits`.
spec fn bits_cover(bits: u32, mask: u32) -> bool {
    bits & mask == mask
}

/// `mask` is the bit of one of the actions.
spec fn is_action_mask(mask: u32) -> bool {
    mask == 0x001 || mask == 0x002 || mask == 0x004 || mask == 0x008 || mask == 0x010
        || mask == 0x020 || mask == 0x040 || mask == 0x080 || mask == 0x100 || mask == 0x200
        || mask == 0x400
}

proof fn lemma_action_bit_is_mask(action: Action)
    ensures
        is_action_mask(action_bit(action)),
{
}

proof fn lemma_mask_of_empty(mask: u32)
    requires
        is_action_mask(mask),
    ensures
        !bits_cover(0, mask),
{
    assert((mask == 0x001 || mask == 0x002 || mask == 0x004 || mask == 0x008 || mask == 0x010
        || mask == 0x020 || mask == 0x040 || mask == 0x080 || mask == 0x100 || mask == 0x200
        || mask == 0x400) ==> 0u32 & mask != mask) by (bit_vector);
}

proof fn lemma_mask_of_single(bits: u32, mask: u32)
    requires
        is_action_mask(bits),
        is_action_mask(mask),
    ensures
        bits_cover(bits, mask) <==> bits == mask,
{
    assert((bits == 0x001 || bits == 0x002 || bits == 0x004 || bits == 0x008 || bits == 0x010
        || bits == 0x020 || bits == 0x040 || bits == 0x080 || bits == 0x100 || bits == 0x200
        || bits == 0x400) && (mask == 0x001 || mask == 0x002 || mask == 0x004 || mask == 0x008
        || mask == 0x010 || mask == 0x020 || mask == 0x040 || mask == 0x080 || mask == 0x100
        || mask == 0x200 || mask == 0x400) ==> ((bits & mask == mask) <==> bits == mask))
        by (bit_vector);
}

proof fn lemma_mask_of_union(x: u32, y: u32, mask: u32)
    requires
        is_action_mask(mask),
    ensures
        bits_cover(x | y, mask) <==> bits_cover(x, mask) || bits_cover(y, mask),
{
    assert((mask == 0x001 || mask == 0x002 || mask == 0x004 || mask == 0x008 || mask == 0x010
        || mask == 0x020 || mask == 0x040 || mask == 0x080 || mask == 0x100 || mask == 0x200
        || mask == 0x400) ==> (((x | y) & mask == mask) <==> (x & mask == mask || y & mask
        == mask))) by (bit_vector);
}

proof fn lemma_union_in_range(x: u32, y: u32)
    requires
        x < 0x800,
        y < 0x800,
    ensures
        (x | y) < 0x800,
{
    assert(x < 0x800 && y < 0x800 ==> (x | y) < 0x800) by (bit_vector);
}

proof fn lemma_cover_by_masks(x: u32, y: u32)
    requires
        x < 0x800,
        y < 0x800,
    ensures
        bits_cover(x, y) ==> forall|a: Action|
            bits_cover(y, #[trigger] action_bit(a)) ==> bits_cover(x, action_bit(a)),
        !bits_cover(x, y) ==> exists|a: Action|
            bits_cover(y, #[trigger] action_bit(a)) && !bits_cover(x, action_bit(a)),
{
    assert(x < 0x800 && y < 0x800 ==> ((x & y == y) <==> ((y & 0x001 == 0x001 ==> x & 0x001
        == 0x001) && (y & 0x002 == 0x002 ==> x & 0x002 == 0x002) && (y & 0x004 == 0x004 ==> x
        & 0x004 == 0x004) && (y & 0x008 == 0x008 ==> x & 0x008 == 0x008) && (y & 0x010 == 0x010
        ==> x & 0x010 == 0x010) && (y & 0x020 == 0x020 ==> x & 0x020 == 0x020) && (y & 0x040
        == 0x040 ==> x & 0x040 == 0x040) && (y & 0x080 == 0x080 ==> x & 0x080 == 0x080) && (y
        & 0x100 == 0x100 ==> x & 0x100 == 0x100) && (y & 0x200 == 0x200 ==> x & 0x200 == 0x200)
        && (y & 0x400 == 0x400 ==> x & 0x400 == 0x400)))) by (bit_vector);
    if !bits_cover(x, y) {
        // one of the eleven bits of `y` is missing in `x`: name the action it belongs to
        assert(exists|a: Action|
            bits_cover(y, #[trigger] action_bit(a)) && !bits_cover(x, action_bit(a))) by {
            if bits_cover(y, 0x001) && !bits_cover(x, 0x001) {
                assert(action_bit(Action::RestartCore) == 0x001);
            } else if bits_cover(y, 0x002) && !bits_cover(x, 0x002) {
                assert(action_bit(Action::ClashConfig) == 0x002);
            } else if bits_cover(y, 0x004) && !bits_cover(x, 0x004) {
                assert(action_bit(Action::VergeConfig) == 0x004);
            } else if bits_cover(y, 0x008) && !bits_cover(x, 0x008) {
                assert(action_bit(Action::Launch) == 0x008);
            } else if bits_cover(y, 0x010) && !bits_cover(x, 0x010) {
                assert(action_bit(Action::SysProxy) == 0x010);
            } else if bits_cover(y, 0x020) && !bits_cover(x, 0x020) {
                assert(action_bit(Action::SystrayIcon) == 0x020);
            } else if bits_cover(y, 0x040) && !bits_cover(x, 0x040) {
                assert(action_bit(Action::Hotkey) == 0x040);
            } else if bits_cover(y, 0x080) && !bits_cover(x, 0x080) {
                assert(action_bit(Action::SystrayMenu) == 0x080);
            } else if bits_cover(y, 0x100) && !bits_cover(x, 0x100) {
                assert(action_bit(Action::SystrayTooltip) == 0x100);
            } else if bits_cover(y, 0x200) && !bits_cover(x, 0x200) {
                assert(action_bit(Action::SystrayClickBehavior) == 0x200);
            } else {
                assert(action_bit(Action::LightWeight) == 0x400);
            }
        }
    }
}

/// A set of reconciliation actions, kept as one bit per action.
///
/// The view is the set itself; the bits are an implementation detail.
#[derive(Clone, Copy, Debug, PartialEq, Eq, Structural)]
pub struct UpdateFlags(u32);

impl View for UpdateFlags {
    type V = Set<Action>;

    closed spec fn view(&self) -> Set<Action> {
        Set::new(|a: Action| bits_cover(self.0, action_bit(a)))
    }
}

impl UpdateFlags {
    #[verifier::type_invariant]
    spec fn only_action_bits(self) -> bool {
        self.0 < 0x800
    }

    /// The set without any action.
    pub fn empty() -> (r: Self)
        ensures
            r@ == Set::<Action>::empty(),
    {
        let r = Self(0);
        proof {
            assert forall|a: Action| !r@.contains(a) by {
                lemma_action_bit_is_mask(a);
                lemma_mask_of_empty(action_bit(a));
            }
            assert(r@ =~= Set::<Action>::empty());
        }
        r
    }

    /// The set that holds `action` and nothing else.
    pub fn of(action: Action) -> (r: Self)
        ensures
            r@ == set![action],
    {
        let bits: u32 = match action {
            Action::RestartCore => 0x001,
            Action::ClashConfig => 0x002,
            Action::VergeConfig => 0x004,
            Action::Launch => 0x008,
            Action::SysProxy => 0x010,
            Action::SystrayIcon => 0x020,
            Action::Hotkey => 0x040,
            Action::SystrayMenu => 0x080,
            Action::SystrayTooltip => 0x100,
            Action::SystrayClickBehavior => 0x200,
            Action::LightWeight => 0x400,
        };
        let r = Self(bits);
        proof {
            assert forall|a: Action| r@.contains(a) <==> a == action by {
                lemma_action_bit_is_mask(a);
                lemma_action_bit_is_mask(action);
                lemma_mask_of_single(bits, action_bit(a));
            }
            assert(r@ =~= set![action]);
        }
        r
    }

    /// Whether every action of `other` is in `self`.
    pub fn contains(&self, other: Self) -> (r: bool)
        ensures
            r == other@.subset_of(self@),
    {
        proof {
            use_type_invariant(self);
            use_type_invariant(&other);
            lemma_cover_by_masks(self.0, other.0);
            if bits_cover(self.0, other.0) {
                assert forall|a: Action| other@.contains(a) implies self@.contains(a) by {}
            } else {
                let a = choose|a: Action|
                    bits_cover(other.0, #[trigger] action_bit(a)) && !bits_cover(
                        self.0,
                        action_bit(a),
                    );
                assert(other@.contains(a) && !self@.contains(a));
            }
        }
        (self.0 & other.0) == other.0
    }

    /// The actions of either set.
    pub fn bitor(self, rhs: Self) -> (r: Self)
        ensures
            r@ == self@.union(rhs@),
    {
        proof {
            use_type_invariant(&self);
            use_type_invariant(&rhs);
            lemma_union_in_range(self.0, rhs.0);
        }
        let r = Self(self.0 | rhs.0);
        proof {
            assert forall|a: Action| r@.contains(a) <==> self@.union(rhs@).contains(a) by {
                lemma_action_bit_is_mask(a);
                lemma_mask_of_union(self.0, rhs.0, action_bit(a));
            }
            assert(r@ =~= self@.union(rhs@));
        }
        r
    }

    /// Adds the actions of `group` to `self` where `wanted` holds.
    fn add_if(&mut self, wanted: bool, group: Self)
        ensures
            final(self)@ == if wanted {
                old(self)@.union(group@)
            } else {
                old(self)@
            },
    {
        if wanted {
            self.bitor_assign(group);
        }
    }

    /// Adds the actions of `rhs` to `self`.
    pub fn bitor_assign(&mut self, rhs: Self)
        ensures
            final(self)@ == old(self)@.union(rhs@),
    {
        let merged = self.bitor(rhs);
        *self = merged;
    }
}

/// Whether a patch asks for any change to a listener of the engine that
/// exists on every platform.
pub open spec fn touches_listener(patch: VergeView) -> bool {
    patch.verge_socks_enabled.is_some() || patch.verge_http_enabled.is_some()
        || patch.verge_socks_port.is_some() || patch.verge_port.is_some()
        || patch.verge_mixed_port.is_some() || patch.enable_external_controller.is_some()
}

/// Whether a patch asks for any change to a listener that only some
/// platforms have: the redirect listener everywhere but on Windows, the
/// transparent-proxy listener on Linux.
pub open spec fn touches_platform_listener(patch: VergeView, platform: Platform) -> bool {
    (platform != Platform::Windows && (patch.verge_redir_enabled.is_some()
        || patch.verge_redir_port.is_some())) || (platform == Platform::Linux && (
    patch.verge_tproxy_enabled.is_some() || patch.verge_tproxy_port.is_some()))
}

/// Whether a patch holds a field that changes how the tray icon looks.
/// The icon style counts on macOS only.
pub open spec fn touches_tray_icon(patch: VergeView, platform: Platform) -> bool {
    (platform == Platform::MacOs && patch.tray_icon.is_some())
        || patch.common_tray_icon.is_some() || patch.sysproxy_tray_icon.is_some()
        || patch.tun_tray_icon.is_some() || patch.enable_tray_speed.is_some()
        || patch.enable_tray_icon.is_some()
}

/// Whether a patch calls for `action`. Only the presence of fields
/// counts, never what they hold.
pub open spec fn implies_action(patch: VergeView, platform: Platform, action: Action) -> bool {
    match action {
        Action::RestartCore => touches_listener(patch) || touches_platform_listener(
            patch,
            platform,
        ),
        Action::ClashConfig => patch.enable_tun_mode.is_some(),
        Action::VergeConfig => patch.enable_global_hotkey.is_some() || patch.home_cards.is_some(),
        Action::Launch => patch.enable_auto_launch.is_some(),
        Action::SysProxy => patch.enable_system_proxy.is_some()
            || patch.system_proxy_bypass.is_some() || patch.pac_file_content.is_some()
            || patch.proxy_auto_config.is_some(),
        Action::SystrayIcon => patch.enable_tun_mode.is_some()
            || patch.enable_system_proxy.is_some() || touches_tray_icon(patch, platform),
        Action::Hotkey => patch.hotkeys.is_some(),
        Action::SystrayMenu => patch.enable_tun_mode.is_some()
            || patch.enable_system_proxy.is_some() || patch.language.is_some()
            || patch.hotkeys.is_some(),
        Action::SystrayTooltip => patch.enable_tun_mode.is_some()
            || patch.enable_system_proxy.is_some(),
        Action::SystrayClickBehavior => patch.tray_event.is_some(),
        Action::LightWeight => patch.enable_auto_light_weight_mode.is_some(),
    }
}

/// The actions that a patch calls for.
pub open spec fn required_actions(patch: VergeView, platform: Platform) -> Set<Action> {
    Set::new(|action: Action| implies_action(patch, platform, action))
}

/// Whether two patches have the same fields present, whatever they hold.
pub open spec fn same_presence(first: VergeView, second: VergeView) -> bool {
    &&& first.enable_tun_mode.is_some() == second.enable_tun_mode.is_some()
    &&& first.enable_global_hotkey.is_some() == second.enable_global_hotkey.is_some()
    &&& first.home_cards.is_some() == second.home_cards.is_some()
    &&& first.verge_redir_enabled.is_some() == second.verge_redir_enabled.is_some()
    &&& first.verge_redir_port.is_some() == second.verge_redir_port.is_some()
    &&& first.verge_tproxy_enabled.is_some() == second.verge_tproxy_enabled.is_some()
    &&& first.verge_tproxy_port.is_some() == second.verge_tproxy_port.is_some()
    &&& first.verge_socks_enabled.is_some() == second.verge_socks_enabled.is_some()
    &&& first.verge_socks_port.is_some() == second.verge_socks_port.is_some()
    &&& first.verge_http_enabled.is_some() == second.verge_http_enabled.is_some()
    &&& first.verge_port.is_some() == second.verge_port.is_some()
    &&& first.verge_mixed_port.is_some() == second.verge_mixed_port.is_some()
    &&& first.enable_external_controller.is_some() == second.enable_external_controller.is_some()
    &&& first.enable_auto_launch.is_some() == second.enable_auto_launch.is_some()
    &&& first.enable_system_proxy.is_some() == second.enable_system_proxy.is_some()
    &&& first.system_proxy_bypass.is_some() == second.system_proxy_bypass.is_some()
    &&& first.pac_file_content.is_some() == second.pac_file_content.is_some()
    &&& first.proxy_auto_config.is_some() == second.proxy_auto_config.is_some()
    &&& first.language.is_some() == second.language.is_some()
    &&& first.tray_icon.is_some() == second.tray_icon.is_some()
    &&& first.common_tray_icon.is_some() == second.common_tray_icon.is_some()
    &&& first.sysproxy_tray_icon.is_some() == second.sysproxy_tray_icon.is_some()
    &&& first.tun_tray_icon.is_some() == second.tun_tray_icon.is_some()
    &&& first.enable_tray_speed.is_some() == second.enable_tray_speed.is_some()
    &&& first.enable_tray_icon.is_some() == second.enable_tray_icon.is_some()
    &&& first.hotkeys.is_some() == second.hotkeys.is_some()
    &&& first.tray_event.is_some() == second.tray_event.is_some()
    &&& first.enable_auto_light_weight_mode.is_some() == second.enable_auto_light_weight_mode.is_some()
}

/// Computes the actions that a patch calls for on `platform`.
pub fn analyze_patch(patch: &IVerge, platform: Platform) -> (flags: UpdateFlags)
    ensures
        flags@ == required_actions(patch@, platform),
{
    let tun_and_proxy_tray = UpdateFlags::of(Action::SystrayMenu).bitor(
        UpdateFlags::of(Action::SystrayTooltip),
    ).bitor(UpdateFlags::of(Action::SystrayIcon));
    let has_redirect = match platform {
        Platform::Windows => false,
        _ => patch.verge_redir_enabled.is_some() || patch.verge_redir_port.is_some(),
    };
    let has_transparent = match platform {
        Platform::Linux => patch.verge_tproxy_enabled.is_some()
            || patch.verge_tproxy_port.is_some(),
        _ => false,
    };
    let tray_icon_changed = match platform {
        Platform::MacOs => patch.tray_icon.is_some(),
        _ => false,
    };

    let mut flags = UpdateFlags::empty();
    flags.add_if(
        patch.enable_tun_mode.is_some(),
        UpdateFlags::of(Action::ClashConfig).bitor(tun_and_proxy_tray),
    );
    flags.add_if(
        patch.enable_global_hotkey.is_some() || patch.home_cards.is_some(),
        UpdateFlags::of(Action::VergeConfig),
    );
    flags.add_if(has_redirect, UpdateFlags::of(Action::RestartCore));
    flags.add_if(has_transparent, UpdateFlags::of(Action::RestartCore));
    flags.add_if(
        patch.verge_socks_enabled.is_some() || patch.verge_http_enabled.is_some()
            || patch.verge_socks_port.is_some() || patch.verge_port.is_some()
            || patch.verge_mixed_port.is_some() || patch.enable_external_controller.is_some(),
        UpdateFlags::of(Action::RestartCore),
    );
    flags.add_if(patch.enable_auto_launch.is_some(), UpdateFlags::of(Action::Launch));
    flags.add_if(
        patch.enable_system_proxy.is_some(),
        UpdateFlags::of(Action::SysProxy).bitor(tun_and_proxy_tray),
    );
    flags.add_if(
        patch.system_proxy_bypass.is_some() || patch.pac_file_content.is_some()
            || patch.proxy_auto_config.is_some(),
        UpdateFlags::of(Action::SysProxy),
    );
    flags.add_if(patch.language.is_some(), UpdateFlags::of(Action::SystrayMenu));
    flags.add_if(
        tray_icon_changed || patch.common_tray_icon.is_some()
            || patch.sysproxy_tray_icon.is_some() || patch.tun_tray_icon.is_some()
            || patch.enable_tray_speed.is_some() || patch.enable_tray_icon.is_some(),
        UpdateFlags::of(Action::SystrayIcon),
    );
    flags.add_if(
        patch.hotkeys.is_some(),
        UpdateFlags::of(Action::Hotkey).bitor(UpdateFlags::of(Action::SystrayMenu)),
    );
    flags.add_if(patch.tray_event.is_some(), UpdateFlags::of(Action::SystrayClickBehavior));
    flags.add_if(
        patch.enable_auto_light_weight_mode.is_some(),
        UpdateFlags::of(Action::LightWeight),
    );
    proof {
        let view = patch@;
        assert forall|action: Action|
            flags@.contains(action) == implies_action(view, platform, action) by {
            match action {
                Action::RestartCore => {},
                Action::ClashConfig => {},
                Action::VergeConfig => {},
                Action::Launch => {},
                Action::SysProxy => {},
                Action::SystrayIcon => {},
                Action::Hotkey => {},
                Action::SystrayMenu => {},
                Action::SystrayTooltip => {},
                Action::SystrayClickBehavior => {},
                Action::LightWeight => {},
            }
        }
        assert(flags@ =~= required_actions(view, platform));
    }
    flags
}

/// The actions of a patch depend on which of its fields are present and on
/// nothing else: two patches with the same fields present call for the same
/// actions, whatever the fields hold. In particular the analysis of equal
/// patches is equal.
pub proof fn lemma_actions_depend_on_presence_only(
    first: VergeView,
    second: VergeView,
    platform: Platform,
)
    requires
        same_presence(first, second),
    ensures
        required_actions(first, platform) == required_actions(second, platform),
{
    assert forall|action: Action|
        implies_action(first, platform, action) == implies_action(second, platform, action) by {}
    assert(required_actions(first, platform) =~= required_actions(second, platform));
}

} // verus!
