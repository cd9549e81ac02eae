use tokio::sync::mpsc::{UnboundedReceiver, UnboundedSender};
use vstd::prelude::*;

verus! {

/// Milliseconds that the delivery loop waits for an event before it looks
/// at the exit flag again.
pub const POLL_TIMEOUT_MILLIS: u64 = 100;

/// Milliseconds between two deliveries, so that the interface's event loop
/// is not saturated.
pub const EMIT_DELAY_MILLIS: u64 = 20;

/// Seconds between the end of startup and the first buffered notice.
pub const STARTUP_FLUSH_DELAY_SECS: u64 = 2;

/// Milliseconds between two buffered notices.
pub const STARTUP_NOTICE_GAP_MILLIS: u64 = 300;

/// Number of failed deliveries that is still tolerated; one more switches
/// emergency mode on.
pub const EMERGENCY_THRESHOLD: u64 = 10;

/// The sending half of tokio's unbounded channel.
#[verifier::external_type_specification]
#[verifier::external_body]
#[verifier::reject_recursive_types(T)]
pub struct ExUnboundedSender<T>(tokio::sync::mpsc::UnboundedSender<T>);

/// The receiving half of tokio's unbounded channel.
#[verifier::external_type_specification]
#[verifier::external_body]
#[verifier::reject_recursive_types(T)]
pub struct ExUnboundedReceiver<T>(tokio::sync::mpsc::UnboundedReceiver<T>);

/// A state change that the interface is told about.
#[derive(Debug, Clone, PartialEq, Eq)]
pub enum FrontendEvent {
    /// The engine configuration changed.
    RefreshClash,
    /// The preferences changed.
    RefreshVerge,
    /// A message for the user; `status` is its severity.
    NoticeMessage { status: String, message: String },
    /// Another profile became the current one.
    ProfileChanged { current_profile_id: String },
    /// The update timer of a profile was set again.
    TimerUpdated { profile_index: String },
    /// The update of a profile began.
    ProfileUpdateStarted { uid: String },
    /// The update of a profile ended.
    ProfileUpdateCompleted { uid: String },
}

/// Opens a channel with tokio's `mpsc::unbounded_channel`. Nothing is
/// claimed of the two halves.
#[verifier::external_body]
fn open_channel() -> (halves: (UnboundedSender<FrontendEvent>, UnboundedReceiver<FrontendEvent>)) {
    tokio::sync::mpsc::unbounded_channel()
}

/// Hands `event` to tokio's `UnboundedSender::send` and says whether the
/// channel took it. The channel refuses once its receiving half is closed
/// or dropped, which this side cannot know: nothing is claimed of the
/// answer. The call does not wait and, short of a channel that holds more
/// messages than a `usize` can count, always returns.
#[verifier::external_body]
fn channel_send(sender: &UnboundedSender<FrontendEvent>, event: FrontendEvent) -> (accepted: bool) {
    sender.send(event).is_ok()
}

/// What a `FrontendEvent` holds, as mathematical values.
pub ghost enum EventView {
    RefreshClash,
    RefreshVerge,
    NoticeMessage { status: Seq<char>, message: Seq<char> },
    ProfileChanged { current_profile_id: Seq<char> },
    TimerUpdated { profile_index: Seq<char> },
    ProfileUpdateStarted { uid: Seq<char> },
    ProfileUpdateCompleted { uid: Seq<char> },
}

impl View for FrontendEvent {
    type V = EventView;

    open spec fn view(&self) -> EventView {
        match self {
            FrontendEvent::RefreshClash => EventView::RefreshClash,
            FrontendEvent::RefreshVerge => EventView::RefreshVerge,
            FrontendEvent::NoticeMessage { status, message } => EventView::NoticeMessage {
                status: status@,
                message: message@,
            },
            FrontendEvent::ProfileChanged { current_profile_id } => EventView::ProfileChanged {
                current_profile_id: current_profile_id@,
            },
            FrontendEvent::TimerUpdated { profile_index } => EventView::TimerUpdated {
                profile_index: profile_index@,
            },
            FrontendEvent::ProfileUpdateStarted { uid } => EventView::ProfileUpdateStarted {
                uid: uid@,
            },
            FrontendEvent::ProfileUpdateCompleted { uid } => EventView::ProfileUpdateCompleted {
                uid: uid@,
            },
        }
    }
}

impl EventView {
    /// Whether the event is a notice of severity "info". These are the
    /// events that emergency mode drops.
    pub open spec fn is_info_notice(self) -> bool {
        self matches EventView::NoticeMessage { status, .. } && status == "info"@
    }
}

/// What an event carries to the interface.
#[derive(Debug, Clone, PartialEq, Eq)]
pub enum Payload {
    /// One string.
    Text(String),
    /// A pair of strings: severity and message of a notice.
    Pair(String, String),
    /// An object with the one key `uid`.
    Uid(String),
}

/// What a `Payload` holds, as mathematical values.
pub ghost enum PayloadView {
    Text(Seq<char>),
    Pair(Seq<char>, Seq<char>),
    Uid(Seq<char>),
}

impl View for Payload {
    type V = PayloadView;

    open spec fn view(&self) -> PayloadView {
        match self {
            Payload::Text(text) => PayloadView::Text(text@),
            Payload::Pair(first, second) => PayloadView::Pair(first@, second@),
            Payload::Uid(uid) => PayloadView::Uid(uid@),
        }
    }
}

/// An event as the interface receives it: the name to emit under and the
/// payload.
#[derive(Debug, Clone, PartialEq, Eq)]
pub struct Emission {
    pub name: String,
    pub payload: Payload,
}

/// What the delivery loop does with an event that it took off the queue.
#[derive(Debug, Clone, PartialEq, Eq)]
pub enum Delivery {
    /// Emergency mode drops the event. The loop goes on at once.
    Skipped,
    /// The interface has no window yet: the event is dropped, without
    /// this counting as an error. The loop waits `EMIT_DELAY_MILLIS`.
    NoWindow,
    /// Emit this, report the result with `record_emit`, and wait
    /// `EMIT_DELAY_MILLIS`.
    Emit(Emission),
}

/// The name under which an event is emitted.
pub open spec fn event_name(event: EventView) -> Seq<char> {
    match event {
        EventView::RefreshClash => "verge://refresh-clash-config"@,
        EventView::RefreshVerge => "verge://refresh-verge-config"@,
        EventView::NoticeMessage { .. } => "verge://notice-message"@,
        EventView::ProfileChanged { .. } => "profile-changed"@,
        EventView::TimerUpdated { .. } => "verge://timer-updated"@,
        EventView::ProfileUpdateStarted { .. } => "profile-update-started"@,
        EventView::ProfileUpdateCompleted { .. } => "profile-update-completed"@,
    }
}

/// The payload with which an event is emitted.
pub open spec fn event_payload(event: EventView) -> PayloadView {
    match event {
        EventView::RefreshClash => PayloadView::Text("yes"@),
        EventView::RefreshVerge => PayloadView::Text("yes"@),
        EventView::NoticeMessage { status, message } => PayloadView::Pair(status, message),
        EventView::ProfileChanged { current_profile_id } => PayloadView::Text(current_profile_id),
        EventView::TimerUpdated { profile_index } => PayloadView::Text(profile_index),
        EventView::ProfileUpdateStarted { uid } => PayloadView::Uid(uid),
        EventView::ProfileUpdateCompleted { uid } => PayloadView::Uid(uid),
    }
}

/// Turns an event into what is emitted for it.
pub fn emission_for(event: FrontendEvent) -> (emission: Emission)
    ensures
        emission.name@ == event_name(event@),
        emission.payload@ == event_payload(event@),
{
    match event {
        FrontendEvent::RefreshClash => Emission {
            name: String::from_str("verge://refresh-clash-config"),
            payload: Payload::Text(String::from_str("yes")),
        },
        FrontendEvent::RefreshVerge => Emission {
            name: String::from_str("verge://refresh-verge-config"),
            payload: Payload::Text(String::from_str("yes")),
        },
        FrontendEvent::NoticeMessage { status, message } => Emission {
            name: String::from_str("verge://notice-message"),
            payload: Payload::Pair(status, message),
        },
        FrontendEvent::ProfileChanged { current_profile_id } => Emission {
            name: String::from_str("profile-changed"),
            payload: Payload::Text(current_profile_id),
        },
        FrontendEvent::TimerUpdated { profile_index } => Emission {
            name: String::from_str("verge://timer-updated"),
            payload: Payload::Text(profile_index),
        },
        FrontendEvent::ProfileUpdateStarted { uid } => Emission {
            name: String::from_str("profile-update-started"),
            payload: Payload::Uid(uid),
        },
        FrontendEvent::ProfileUpdateCompleted { uid } => Emission {
            name: String::from_str("profile-update-completed"),
            payload: Payload::Uid(uid),
        },
    }
}

/// Whether an event is a notice of severity "info".
pub fn is_info_notice(event: &FrontendEvent) -> (r: bool)
    ensures
        r == event@.is_info_notice(),
{
    match event {
        FrontendEvent::NoticeMessage { status, .. } => {
            let info = String::from_str("info");
            *status == info
        },
        _ => false,
    }
}

/// One more than `count`, or `count` where it is the largest number.
pub open spec fn counted_up(count: u64) -> u64 {
    if count < u64::MAX {
        (count + 1) as u64
    } else {
        count
    }
}

fn count_up(count: u64) -> (r: u64)
    ensures
        r == counted_up(count),
{
    if count < u64::MAX {
        count + 1
    } else {
        count
    }
}

/// State of the notification dispatcher, as mathematical values.
pub ghost struct NotifierView {
    /// Whether the dispatcher was started and not shut down since; it
    /// holds the sending half of the queue exactly then.
    pub running: bool,
    /// Number of events that reached the interface. Never decreases.
    pub total_sent: u64,
    /// Number of events that the queue or the interface refused. Never
    /// decreases.
    pub total_errors: u64,
    /// When the last of those refusals happened.
    pub last_error_time: Option<u64>,
    /// When the last event was handed to the interface.
    pub last_emit_time: u64,
    /// Whether notices of severity "info" are dropped. Once on it stays
    /// on.
    pub emergency: bool,
}

impl NotifierView {
    /// Whether the dispatcher drops `event` instead of queueing or
    /// delivering it.
    pub open spec fn drops(self, event: EventView) -> bool {
        self.emergency && event.is_info_notice()
    }

    /// The state after the queue took an event (`accepted`) or refused it.
    pub open spec fn after_enqueue(self, accepted: bool, now: u64) -> NotifierView {
        if accepted {
            self
        } else {
            NotifierView {
                total_errors: counted_up(self.total_errors),
                last_error_time: Some(now),
                ..self
            }
        }
    }

    /// The state after the interface took an event (`delivered`) or
    /// refused it. A refusal that brings the number of errors above the
    /// threshold switches emergency mode on.
    pub open spec fn after_emit(self, delivered: bool, now: u64) -> NotifierView {
        if delivered {
            NotifierView { total_sent: counted_up(self.total_sent), ..self }
        } else {
            NotifierView {
                total_errors: counted_up(self.total_errors),
                last_error_time: Some(now),
                emergency: self.emergency || counted_up(self.total_errors) > EMERGENCY_THRESHOLD,
                ..self
            }
        }
    }
}

/// What beginning the delivery of `event` does to a dispatcher in state
/// `before`: the state `after` and the answer `delivery`.
pub open spec fn delivery_begun(
    before: NotifierView,
    event: EventView,
    window_ready: bool,
    now: u64,
    after: NotifierView,
    delivery: Delivery,
) -> bool {
    if before.drops(event) {
        delivery is Skipped && after == before
    } else if !window_ready {
        delivery is NoWindow && after == before
    } else {
        &&& delivery matches Delivery::Emit(emission)
        &&& emission.name@ == event_name(event)
        &&& emission.payload@ == event_payload(event)
        &&& after == (NotifierView { last_emit_time: now, ..before })
    }
}

/// Counters of the dispatcher.
#[derive(Debug)]
struct EventStats {
    total_sent: u64,
    total_errors: u64,
    last_error_time: Option<u64>,
}

/// The notification dispatcher: the producers' side of the queue, and the
/// bookkeeping of the delivery loop.
///
/// Times are milliseconds on a clock of the caller's choice.
pub struct NotificationSystem {
    sender: Option<UnboundedSender<FrontendEvent>>,
    is_running: bool,
    stats: EventStats,
    last_emit_time: u64,
    emergency_mode: bool,
}

impl View for NotificationSystem {
    type V = NotifierView;

    closed spec fn view(&self) -> NotifierView {
        NotifierView {
            running: self.is_running,
            total_sent: self.stats.total_sent,
            total_errors: self.stats.total_errors,
            last_error_time: self.stats.last_error_time,
            last_emit_time: self.last_emit_time,
            emergency: self.emergency_mode,
        }
    }
}

impl NotificationSystem {
    #[verifier::type_invariant]
    spec fn sender_while_running(self) -> bool {
        self.is_running == self.sender.is_some()
    }

    /// A dispatcher that was not started yet.
    pub fn new(now: u64) -> (system: Self)
        ensures
            system@ == (NotifierView {
                running: false,
                total_sent: 0,
                total_errors: 0,
                last_error_time: None,
                last_emit_time: now,
                emergency: false,
            }),
    {
        NotificationSystem {
            sender: None,
            is_running: false,
            stats: EventStats { total_sent: 0, total_errors: 0, last_error_time: None },
            last_emit_time: now,
            emergency_mode: false,
        }
    }

    /// Starts the dispatcher: opens the queue and hands its receiving half
    /// to the caller, who runs the delivery loop on it. A dispatcher that
    /// runs already is left alone.
    pub fn start(&mut self, now: u64) -> (receiver: Option<UnboundedReceiver<FrontendEvent>>)
        ensures
            old(self)@.running ==> receiver.is_none() && final(self)@ == old(self)@,
            !old(self)@.running ==> receiver.is_some() && final(self)@ == (NotifierView {
                running: true,
                last_emit_time: now,
                ..old(self)@
            }),
    {
        proof {
            use_type_invariant(&*self);
        }
        if self.is_running {
            return None;
        }
        let (sender, receiver) = open_channel();
        let stats = EventStats {
            total_sent: self.stats.total_sent,
            total_errors: self.stats.total_errors,
            last_error_time: self.stats.last_error_time,
        };
        *self = NotificationSystem {
            sender: Some(sender),
            is_running: true,
            stats,
            last_emit_time: now,
            emergency_mode: self.emergency_mode,
        };
        Some(receiver)
    }

    /// Whether the dispatcher runs.
    pub fn is_running(&self) -> (r: bool)
        ensures
            r == self@.running,
    {
        self.is_running
    }

    /// Whether notices of severity "info" are dropped.
    pub fn in_emergency_mode(&self) -> (r: bool)
        ensures
            r == self@.emergency,
    {
        self.emergency_mode
    }

    /// Number of events that reached the interface.
    pub fn total_sent(&self) -> (r: u64)
        ensures
            r == self@.total_sent,
    {
        self.stats.total_sent
    }

    /// Number of events that the queue or the interface refused.
    pub fn total_errors(&self) -> (r: u64)
        ensures
            r == self@.total_errors,
    {
        self.stats.total_errors
    }

    /// When the last refusal happened.
    pub fn last_error_time(&self) -> (r: Option<u64>)
        ensures
            r == self@.last_error_time,
    {
        self.stats.last_error_time
    }

    /// Books what the queue said to an event: a refusal counts as an
    /// error at time `now`. Returns `accepted`.
    pub fn record_enqueue(&mut self, accepted: bool, now: u64) -> (r: bool)
        ensures
            r == accepted,
            final(self)@ == old(self)@.after_enqueue(accepted, now),
    {
        proof {
            use_type_invariant(&*self);
        }
        if !accepted {
            self.stats.total_errors = count_up(self.stats.total_errors);
            self.stats.last_error_time = Some(now);
        }
        accepted
    }

    /// Queues an event for delivery and says whether the queue took it.
    ///
    /// In emergency mode a notice of severity "info" is dropped: it is
    /// not handed to the queue, nothing is counted, and the answer is
    /// `false`. So is every event while the dispatcher does not run. Any
    /// other event is handed to the queue; if the queue refuses it, that
    /// counts as an error at time `now`.
    pub fn send_event(&mut self, event: FrontendEvent, now: u64) -> (accepted: bool)
        ensures
            old(self)@.drops(event@) || !old(self)@.running ==> !accepted && final(self)@ == old(
                self,
            )@,
            !old(self)@.drops(event@) && old(self)@.running ==> final(self)@ == old(
                self,
            )@.after_enqueue(accepted, now),
    {
        proof {
            use_type_invariant(&*self);
        }
        if self.emergency_mode && is_info_notice(&event) {
            return false;
        }
        let accepted = match &self.sender {
            Some(sender) => channel_send(sender, event),
            None => {
                return false;
            },
        };
        self.record_enqueue(accepted, now)
    }

    /// Decides what the delivery loop does with an event that it took off
    /// the queue.
    ///
    /// An event that emergency mode drops is skipped, whether or not
    /// there is a window. Any other event is dropped while the interface
    /// has no window (`window_ready` is false); neither leaves a trace.
    /// Otherwise the time of the delivery is noted and the emission comes
    /// back, for the caller to emit and to report with `record_emit`.
    pub fn begin_delivery(&mut self, event: FrontendEvent, window_ready: bool, now: u64) -> (delivery:
        Delivery)
        ensures
            delivery_begun(old(self)@, event@, window_ready, now, final(self)@, delivery),
    {
        proof {
            use_type_invariant(&*self);
        }
        if self.emergency_mode && is_info_notice(&event) {
            return Delivery::Skipped;
        }
        if !window_ready {
            return Delivery::NoWindow;
        }
        self.last_emit_time = now;
        Delivery::Emit(emission_for(event))
    }

    /// Books what the interface said to an emission. A success is
    /// counted as sent. A failure is counted as an error at time `now`,
    /// and once there are more errors than `EMERGENCY_THRESHOLD`,
    /// emergency mode is on for good.
    pub fn record_emit(&mut self, delivered: bool, now: u64)
        ensures
            final(self)@ == old(self)@.after_emit(delivered, now),
    {
        proof {
            use_type_invariant(&*self);
        }
        if delivered {
            self.stats.total_sent = count_up(self.stats.total_sent);
        } else {
            self.stats.total_errors = count_up(self.stats.total_errors);
            self.stats.last_error_time = Some(now);
            if self.stats.total_errors > EMERGENCY_THRESHOLD {
                self.emergency_mode = true;
            }
        }
    }

    /// Stops the dispatcher: the sending half of the queue is dropped, so
    /// that the delivery loop sees the queue closed. The counters stay.
    pub fn shutdown(&mut self)
        ensures
            final(self)@ == (NotifierView { running: false, ..old(self)@ }),
    {
        proof {
            use_type_invariant(&*self);
        }
        if !self.is_running {
            return ;
        }
        let stats = EventStats {
            total_sent: self.stats.total_sent,
            total_errors: self.stats.total_errors,
            last_error_time: self.stats.last_error_time,
        };
        *self = NotificationSystem {
            sender: None,
            is_running: false,
            stats,
            last_emit_time: self.last_emit_time,
            emergency_mode: self.emergency_mode,
        };
    }
}

/// Emergency mode has no way back: no enqueue and no delivery, however it
/// ends, switches it off.
pub proof fn lemma_emergency_is_sticky(state: NotifierView, ok: bool, now: u64)
    requires
        state.emergency,
    ensures
        state.after_enqueue(ok, now).emergency,
        state.after_emit(ok, now).emergency,
{
}

/// A failed delivery that brings the number of errors above the threshold
/// switches emergency mode on.
pub proof fn lemma_errors_past_threshold_enter_emergency(state: NotifierView, now: u64)
    requires
        state.total_errors >= EMERGENCY_THRESHOLD,
    ensures
        state.after_emit(false, now).emergency,
{
}

/// In emergency mode the notices of severity "info" are dropped and
/// nothing else is.
pub proof fn lemma_emergency_drops_info_notices_only(state: NotifierView, event: EventView)
    requires
        state.emergency,
    ensures
        state.drops(event) == event.is_info_notice(),
{
}

/// The counters never decrease.
pub proof fn lemma_counters_never_decrease(state: NotifierView, ok: bool, now: u64)
    ensures
        state.after_enqueue(ok, now).total_sent >= state.total_sent,
        state.after_enqueue(ok, now).total_errors >= state.total_errors,
        state.after_emit(ok, now).total_sent >= state.total_sent,
        state.after_emit(ok, now).total_errors >= state.total_errors,
{
}

} // verus!
