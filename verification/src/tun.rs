use crate::error::ControlError;
use crate::platform::{Platform, RunningMode};
use crate::verge::{IVerge, VergeView};
use vstd::prelude::*;

verus! {

/// Seconds that a push of the interface-mode setting to the engine may take.
pub const TUN_PUSH_TIMEOUT_SECS: u64 = 10;

/// Milliseconds to wait after a push that the engine accepted, before the
/// new state is announced.
pub const TUN_SETTLE_MILLIS: u64 = 100;

/// State of the virtual network interface mode.
#[derive(Debug, Clone, PartialEq, Eq)]
pub enum TunStatus {
    /// The mode is on.
    Enabled,
    /// The mode is off.
    Disabled,
    /// The engine was asked to switch the mode on and has not answered.
    Enabling,
    /// The engine was asked to switch the mode off and has not answered.
    Disabling,
    /// The last switch failed for this reason.
    Error(String),
}

/// What a `TunStatus` holds, as mathematical values.
pub ghost enum TunStatusView {
    Enabled,
    Disabled,
    Enabling,
    Disabling,
    Error(Seq<char>),
}

impl View for TunStatus {
    type V = TunStatusView;

    open spec fn view(&self) -> TunStatusView {
        match self {
            TunStatus::Enabled => TunStatusView::Enabled,
            TunStatus::Disabled => TunStatusView::Disabled,
            TunStatus::Enabling => TunStatusView::Enabling,
            TunStatus::Disabling => TunStatusView::Disabling,
            TunStatus::Error(reason) => TunStatusView::Error(reason@),
        }
    }
}

/// The setting to push to the engine's control API.
#[derive(Clone, Copy, Debug, PartialEq, Eq, Structural)]
pub struct TunConfigPush {
    /// Whether the interface is to be on.
    pub enable: bool,
}

/// How a push to the engine ended.
#[derive(Debug, Clone, PartialEq, Eq)]
pub enum PushOutcome {
    /// The engine accepted the setting.
    Applied,
    /// The engine did not answer within `TUN_PUSH_TIMEOUT_SECS`.
    TimedOut,
    /// The engine refused the setting, with this message.
    Failed(String),
}

/// Whether the interface mode may be switched on: the engine runs under
/// the privileged helper, or this process holds elevated rights.
pub open spec fn may_enable_tun(mode: RunningMode, elevated: bool) -> bool {
    mode == RunningMode::Service || elevated
}

/// The text of the error that refuses to switch the mode on.
pub open spec fn capability_text(platform: Platform) -> Seq<char> {
    if platform == Platform::Windows {
        "TUN mode requires Service Mode or Administrator privileges"@
    } else {
        "TUN mode requires Service Mode or root privileges"@
    }
}

/// `r` is the error that refuses to switch the mode on.
pub open spec fn capability_denied<T>(r: Result<T, ControlError>, platform: Platform) -> bool {
    &&& r matches Err(ControlError::CapabilityDenied(text))
    &&& text@ == capability_text(platform)
}

/// Why a push that was not accepted failed, in words.
pub open spec fn push_failure_reason(outcome: PushOutcome) -> Seq<char> {
    match outcome {
        PushOutcome::Failed(message) => "TUN 配置应用失败: "@ + message@,
        _ => "TUN 配置应用超时"@,
    }
}

/// The text that a failed switch leaves in the status and returns.
pub open spec fn switch_failure_text(push: TunConfigPush, outcome: PushOutcome) -> Seq<char> {
    if push.enable {
        "启用 TUN 模式失败: "@ + push_failure_reason(outcome)
    } else {
        "禁用 TUN 模式失败: "@ + push_failure_reason(outcome)
    }
}

fn switch_failure_prefix(push: TunConfigPush) -> (text: String)
    ensures
        text@ == if push.enable {
            "启用 TUN 模式失败: "@
        } else {
            "禁用 TUN 模式失败: "@
        },
{
    if push.enable {
        String::from_str("启用 TUN 模式失败: ")
    } else {
        String::from_str("禁用 TUN 模式失败: ")
    }
}

/// The status in which a switch ends.
pub open spec fn status_after_push(push: TunConfigPush, outcome: PushOutcome) -> TunStatusView {
    match outcome {
        PushOutcome::Applied => if push.enable {
            TunStatusView::Enabled
        } else {
            TunStatusView::Disabled
        },
        _ => TunStatusView::Error(switch_failure_text(push, outcome)),
    }
}

/// The mode that the preferences ask for; an absent preference asks for
/// "off".
pub open spec fn wanted_tun(enable_tun_mode: Option<bool>) -> bool {
    match enable_tun_mode {
        Some(on) => on,
        None => false,
    }
}

/// The state machine of the virtual network interface mode.
///
/// A switch takes two calls: `enable_tun` or `disable_tun` starts it and
/// hands out the setting to push to the engine, `finish_push` ends it with
/// what the engine said. In between the status is `Enabling` or
/// `Disabling`.
pub struct TunManager {
    status: TunStatus,
}

impl View for TunManager {
    type V = TunStatusView;

    closed spec fn view(&self) -> TunStatusView {
        self.status@
    }
}

impl Default for TunManager {
    fn default() -> (r: Self)
        ensures
            r@ == TunStatusView::Disabled,
    {
        TunManager { status: TunStatus::Disabled }
    }
}

impl TunManager {
    /// The current status.
    pub fn get_status(&self) -> (status: TunStatus)
        ensures
            status@ == self@,
    {
        match &self.status {
            TunStatus::Enabled => TunStatus::Enabled,
            TunStatus::Disabled => TunStatus::Disabled,
            TunStatus::Enabling => TunStatus::Enabling,
            TunStatus::Disabling => TunStatus::Disabling,
            TunStatus::Error(reason) => TunStatus::Error(reason.clone()),
        }
    }

    fn set_status(&mut self, status: TunStatus)
        ensures
            final(self)@ == status@,
    {
        self.status = status;
    }

    /// Checks the privilege predicate of the mode: the engine runs under
    /// the privileged helper, or this process is elevated.
    pub fn can_enable_tun(mode: RunningMode, elevated: bool, platform: Platform) -> (r: Result<
        (),
        ControlError,
    >)
        ensures
            may_enable_tun(mode, elevated) ==> r is Ok,
            !may_enable_tun(mode, elevated) ==> capability_denied(r, platform),
    {
        let in_service = match mode {
            RunningMode::Service => true,
            RunningMode::Sidecar => false,
        };
        if !in_service && !elevated {
            let text = match platform {
                Platform::Windows => String::from_str(
                    "TUN mode requires Service Mode or Administrator privileges",
                ),
                _ => String::from_str("TUN mode requires Service Mode or root privileges"),
            };
            return Err(ControlError::CapabilityDenied(text));
        }
        Ok(())
    }

    /// Starts switching the mode on.
    ///
    /// Without the privilege the status stays as it is and the error says
    /// so. With it the status becomes `Enabling`, and the caller pushes the
    /// returned setting and reports with `finish_push`.
    pub fn enable_tun(&mut self, mode: RunningMode, elevated: bool, platform: Platform) -> (r:
        Result<TunConfigPush, ControlError>)
        ensures
            may_enable_tun(mode, elevated) ==> r == Ok::<TunConfigPush, ControlError>(
                TunConfigPush { enable: true },
            ) && final(self)@ == TunStatusView::Enabling,
            !may_enable_tun(mode, elevated) ==> *final(self) == *old(self) && capability_denied(
                r,
                platform,
            ),
    {
        match Self::can_enable_tun(mode, elevated, platform) {
            Err(error) => Err(error),
            Ok(_) => {
                self.set_status(TunStatus::Enabling);
                Ok(TunConfigPush { enable: true })
            },
        }
    }

    /// Starts switching the mode off. This needs no privilege: the status
    /// becomes `Disabling` whatever it was.
    pub fn disable_tun(&mut self) -> (push: TunConfigPush)
        ensures
            push == (TunConfigPush { enable: false }),
            final(self)@ == TunStatusView::Disabling,
    {
        self.set_status(TunStatus::Disabling);
        TunConfigPush { enable: false }
    }

    /// Ends a switch with what the engine said to `push`.
    ///
    /// An accepted push ends in `Enabled` or `Disabled`. A push that timed
    /// out or was refused ends in `Error` with the reason, which is also
    /// returned: as `Timeout` for the one, `ExternalProcessFailure` for the
    /// other.
    pub fn finish_push(&mut self, push: TunConfigPush, outcome: PushOutcome) -> (r: Result<
        (),
        ControlError,
    >)
        ensures
            final(self)@ == status_after_push(push, outcome),
            match outcome {
                PushOutcome::Applied => r is Ok,
                PushOutcome::TimedOut => r matches Err(ControlError::Timeout(text)) && text@
                    == switch_failure_text(push, outcome),
                PushOutcome::Failed(_) => r matches Err(
                    ControlError::ExternalProcessFailure(text),
                ) && text@ == switch_failure_text(push, outcome),
            },
    {
        match outcome {
            PushOutcome::Applied => {
                if push.enable {
                    self.set_status(TunStatus::Enabled);
                } else {
                    self.set_status(TunStatus::Disabled);
                }
                Ok(())
            },
            PushOutcome::TimedOut => {
                let mut text = switch_failure_prefix(push);
                text.append("TUN 配置应用超时");
                self.set_status(TunStatus::Error(text.clone()));
                Err(ControlError::Timeout(text))
            },
            PushOutcome::Failed(message) => {
                let mut text = switch_failure_prefix(push);
                text.append("TUN 配置应用失败: ");
                text.append(message.as_str());
                assert(text@ =~= switch_failure_text(push, outcome));
                self.set_status(TunStatus::Error(text.clone()));
                Err(ControlError::ExternalProcessFailure(text))
            },
        }
    }

    /// Corrects drift between the preference and the status: where the
    /// preference asks for "on" and the status is not `Enabled`, or asks
    /// for "off" and the status is `Enabled`, the matching switch is
    /// started. Without drift nothing happens and `None` is returned.
    pub fn sync_tun_status(
        &mut self,
        enable_tun_mode: Option<bool>,
        mode: RunningMode,
        elevated: bool,
        platform: Platform,
    ) -> (r: Result<Option<TunConfigPush>, ControlError>)
        ensures
            wanted_tun(enable_tun_mode) == (old(self)@ is Enabled) ==> *final(self) == *old(self)
                && r == Ok::<Option<TunConfigPush>, ControlError>(None),
            wanted_tun(enable_tun_mode) != (old(self)@ is Enabled) ==> switch_started(
                *old(self),
                *final(self),
                wanted_tun(enable_tun_mode),
                mode,
                elevated,
                platform,
                r,
            ),
    {
        let wanted = match enable_tun_mode {
            Some(on) => on,
            None => false,
        };
        let enabled = match &self.status {
            TunStatus::Enabled => true,
            _ => false,
        };
        if wanted != enabled {
            if wanted {
                match self.enable_tun(mode, elevated, platform) {
                    Ok(push) => Ok(Some(push)),
                    Err(error) => Err(error),
                }
            } else {
                Ok(Some(self.disable_tun()))
            }
        } else {
            Ok(None)
        }
    }

    /// Starts the switch that the preference asks for, whatever the status
    /// is. Used after an engine restart, which resets the engine's side.
    pub fn reapply_tun(
        &mut self,
        enable_tun_mode: Option<bool>,
        mode: RunningMode,
        elevated: bool,
        platform: Platform,
    ) -> (r: Result<TunConfigPush, ControlError>)
        ensures
            switch_started(
                *old(self),
                *final(self),
                wanted_tun(enable_tun_mode),
                mode,
                elevated,
                platform,
                match r {
                    Ok(push) => Ok(Some(push)),
                    Err(error) => Err(error),
                },
            ),
    {
        let wanted = match enable_tun_mode {
            Some(on) => on,
            None => false,
        };
        if wanted {
            self.enable_tun(mode, elevated, platform)
        } else {
            Ok(self.disable_tun())
        }
    }
}

/// What starting a switch towards `enable` does: towards "off" it always
/// starts; towards "on" it starts with the privilege, and without it
/// leaves the manager alone and fails with `CapabilityDenied`.
pub open spec fn switch_started(
    before: TunManager,
    after: TunManager,
    enable: bool,
    mode: RunningMode,
    elevated: bool,
    platform: Platform,
    r: Result<Option<TunConfigPush>, ControlError>,
) -> bool {
    if !enable {
        after@ == TunStatusView::Disabling && r == Ok::<Option<TunConfigPush>, ControlError>(
            Some(TunConfigPush { enable: false }),
        )
    } else if may_enable_tun(mode, elevated) {
        after@ == TunStatusView::Enabling && r == Ok::<Option<TunConfigPush>, ControlError>(
            Some(TunConfigPush { enable: true }),
        )
    } else {
        after == before && capability_denied(r, platform)
    }
}

/// Switching the mode off never leaves the status where it was: whatever
/// the engine says, the switch ends in `Disabled` or in `Error`. Switching
/// it on ends in `Enabled` or in `Error`.
pub proof fn lemma_switch_ends_settled(push: TunConfigPush, outcome: PushOutcome)
    ensures
        !push.enable ==> status_after_push(push, outcome) is Disabled || status_after_push(
            push,
            outcome,
        ) is Error,
        push.enable ==> status_after_push(push, outcome) is Enabled || status_after_push(
            push,
            outcome,
        ) is Error,
        status_after_push(push, outcome) is Error <==> !(outcome is Applied),
{
}

/// Whether the interface mode can be switched on. Never fails: a refusal
/// is reported as `false`.
pub fn check_tun_available(mode: RunningMode, elevated: bool, platform: Platform) -> (available:
    bool)
    ensures
        available == may_enable_tun(mode, elevated),
{
    match TunManager::can_enable_tun(mode, elevated, platform) {
        Ok(_) => true,
        Err(_) => false,
    }
}

/// What formatting a string with `{:?}` gives: the string between double
/// quotes, with the characters that Rust escapes in a literal written as
/// their escapes.
pub uninterp spec fn debug_quoted(text: Seq<char>) -> Seq<char>;

/// Formats `text` as `{:?}` does. The contract only names the result: it
/// is the debug rendering of `str`, which depends on the text alone.
#[verifier::external_body]
fn debug_quote(text: &str) -> (quoted: String)
    ensures
        quoted@ == debug_quoted(text@),
{
    format!("{:?}", text)
}

/// The rendering of a status, where `quoted_reason` is the rendering of
/// the reason that an `Error` holds.
pub open spec fn status_text(status: TunStatusView, quoted_reason: Seq<char>) -> Seq<char> {
    match status {
        TunStatusView::Enabled => "Enabled"@,
        TunStatusView::Disabled => "Disabled"@,
        TunStatusView::Enabling => "Enabling"@,
        TunStatusView::Disabling => "Disabling"@,
        TunStatusView::Error(_) => "Error("@ + quoted_reason + ")"@,
    }
}

/// The reason that a status holds; empty where it holds none.
pub open spec fn status_reason(status: TunStatusView) -> Seq<char> {
    match status {
        TunStatusView::Error(reason) => reason,
        _ => Seq::empty(),
    }
}

/// Renders a status as text: the name of the state, and for `Error` the
/// given rendering of its reason in brackets behind it.
pub fn render_status(status: &TunStatus, quoted_reason: &str) -> (text: String)
    ensures
        text@ == status_text(status@, quoted_reason@),
{
    match status {
        TunStatus::Enabled => String::from_str("Enabled"),
        TunStatus::Disabled => String::from_str("Disabled"),
        TunStatus::Enabling => String::from_str("Enabling"),
        TunStatus::Disabling => String::from_str("Disabling"),
        TunStatus::Error(_) => {
            let mut text = String::from_str("Error(");
            text.append(quoted_reason);
            text.append(")");
            text
        },
    }
}

/// The status of `manager` as text, an `Error` with its reason quoted.
pub fn get_tun_status(manager: &TunManager) -> (text: String)
    ensures
        text@ == status_text(manager@, debug_quoted(status_reason(manager@))),
{
    let status = manager.get_status();
    let quoted = match &status {
        TunStatus::Error(reason) => debug_quote(reason.as_str()),
        _ => String::new(),
    };
    render_status(&status, quoted.as_str())
}

/// Works out the toggle of the interface mode: the new state is the
/// opposite of the preference, an absent preference counting as "off".
/// Turning the mode on needs the privilege; without it nothing is to be
/// patched. Otherwise the new state comes back with the patch that asks
/// for it and for nothing else.
pub fn toggle_tun_mode(
    enable_tun_mode: Option<bool>,
    mode: RunningMode,
    elevated: bool,
    platform: Platform,
) -> (r: Result<(bool, IVerge), ControlError>)
    ensures
        wanted_tun(enable_tun_mode) || may_enable_tun(mode, elevated) ==> {
            &&& r matches Ok(toggled)
            &&& toggled.0 == !wanted_tun(enable_tun_mode)
            &&& toggled.1@ == (VergeView {
                enable_tun_mode: Some(toggled.0),
                ..VergeView::absent()
            })
        },
        !wanted_tun(enable_tun_mode) && !may_enable_tun(mode, elevated) ==> capability_denied(
            r,
            platform,
        ),
{
    let current = match enable_tun_mode {
        Some(on) => on,
        None => false,
    };
    let new_state = !current;
    if new_state {
        match TunManager::can_enable_tun(mode, elevated, platform) {
            Err(error) => {
                return Err(error);
            },
            Ok(_) => {},
        }
    }
    let mut patch = IVerge::default();
    patch.enable_tun_mode = Some(new_state);
    Ok((new_state, patch))
}

} // verus!
