use crate::notify::{
    delivery_begun, Delivery, EventView, FrontendEvent, NotificationSystem, NotifierView,
};
use tokio::sync::mpsc::UnboundedReceiver;
use vstd::prelude::*;

verus! {

/// A notice that arrived before the interface was ready.
#[derive(Debug, Clone, PartialEq, Eq)]
pub struct ErrorMessage {
    pub status: String,
    pub message: String,
}

impl View for ErrorMessage {
    type V = (Seq<char>, Seq<char>);

    open spec fn view(&self) -> (Seq<char>, Seq<char>) {
        (self.status@, self.message@)
    }
}

/// The views of a list of buffered notices.
pub open spec fn notice_views(notices: Seq<ErrorMessage>) -> Seq<(Seq<char>, Seq<char>)> {
    notices.map_values(|n: ErrorMessage| n@)
}

/// State of a `Handle`, as mathematical values.
pub ghost struct HandleView {
    /// Whether the application is shutting down. Once set it stays set.
    pub exiting: bool,
    /// Whether the interface has declared itself ready.
    pub startup_completed: bool,
    /// The notices that arrived before that, oldest first.
    pub startup_errors: Seq<(Seq<char>, Seq<char>)>,
    /// The dispatcher.
    pub notifier: Option<NotifierView>,
}

impl HandleView {
    /// Whether the dispatcher can be started: the application is not
    /// shutting down and the dispatcher does not run yet.
    pub open spec fn can_start(self) -> bool {
        &&& !self.exiting
        &&& self.notifier matches Some(notifier)
        &&& !notifier.running
    }

    /// The state after the dispatcher was started at time `now`, where it
    /// can be; else the state as it is.
    pub open spec fn started(self, now: u64) -> HandleView {
        match self.notifier {
            Some(notifier) if self.can_start() => HandleView {
                notifier: Some(NotifierView { running: true, last_emit_time: now, ..notifier }),
                ..self
            },
            _ => self,
        }
    }

    /// Whether an event is handed to the queue: the application is not
    /// shutting down, the dispatcher runs, and it does not drop the event.
    pub open spec fn attempts(self, event: EventView) -> bool {
        &&& !self.exiting
        &&& self.notifier matches Some(notifier)
        &&& notifier.running
        &&& !notifier.drops(event)
    }

    /// The state after an event was handed to the queue, which took it
    /// (`accepted`) or refused it.
    pub open spec fn after_enqueue(self, accepted: bool, now: u64) -> HandleView {
        match self.notifier {
            Some(notifier) => HandleView {
                notifier: Some(notifier.after_enqueue(accepted, now)),
                ..self
            },
            None => self,
        }
    }

    /// What sending `event` does: where it is not handed to the queue, the
    /// answer is `false` and nothing changes; where it is, the answer is
    /// the queue's and a refusal is counted.
    pub open spec fn sent(self, event: EventView, now: u64, after: HandleView, accepted: bool) -> bool {
        if self.attempts(event) {
            after == self.after_enqueue(accepted, now)
        } else {
            !accepted && after == self
        }
    }
}

/// The one place through which components tell the interface of state
/// changes: the exit flag, the buffer of notices from before the interface
/// was ready, and the dispatcher.
pub struct Handle {
    is_exiting: bool,
    startup_errors: Vec<ErrorMessage>,
    startup_completed: bool,
    notification_system: Option<NotificationSystem>,
}

impl View for Handle {
    type V = HandleView;

    closed spec fn view(&self) -> HandleView {
        HandleView {
            exiting: self.is_exiting,
            startup_completed: self.startup_completed,
            startup_errors: notice_views(self.startup_errors@),
            notifier: match self.notification_system {
                Some(system) => Some(system@),
                None => None,
            },
        }
    }
}

impl Handle {
    /// A handle at process start: not exiting, startup not completed, no
    /// notices buffered, the dispatcher not started.
    pub fn new(now: u64) -> (handle: Self)
        ensures
            handle@ == (HandleView {
                exiting: false,
                startup_completed: false,
                startup_errors: Seq::empty(),
                notifier: Some(
                    NotifierView {
                        running: false,
                        total_sent: 0,
                        total_errors: 0,
                        last_error_time: None,
                        last_emit_time: now,
                        emergency: false,
                    },
                ),
            }),
    {
        let handle = Handle {
            is_exiting: false,
            startup_errors: Vec::new(),
            startup_completed: false,
            notification_system: Some(NotificationSystem::new(now)),
        };
        assert(handle@.startup_errors =~= Seq::empty());
        handle
    }

    /// Starts the dispatcher unless it runs already or the application is
    /// shutting down. Where it was started, the receiving half of the
    /// queue comes back, for the caller to run the delivery loop on.
    pub fn init(&mut self, now: u64) -> (receiver: Option<UnboundedReceiver<FrontendEvent>>)
        ensures
            receiver.is_some() == old(self)@.can_start(),
            final(self)@ == old(self)@.started(now),
    {
        if self.is_exiting {
            return None;
        }
        match &mut self.notification_system {
            Some(system) => system.start(now),
            None => None,
        }
    }

    /// Whether the application is shutting down.
    pub fn is_exiting(&self) -> (r: bool)
        ensures
            r == self@.exiting,
    {
        self.is_exiting
    }

    /// Whether the interface has declared itself ready.
    pub fn is_startup_completed(&self) -> (r: bool)
        ensures
            r == self@.startup_completed,
    {
        self.startup_completed
    }

    /// The dispatcher, for its counters.
    pub fn notification_system(&self) -> (system: Option<&NotificationSystem>)
        ensures
            match system {
                Some(s) => self@.notifier == Some(s@),
                None => self@.notifier.is_none(),
            },
    {
        self.notification_system.as_ref()
    }

    /// Sends an event unless the application is shutting down.
    fn send(&mut self, event: FrontendEvent, now: u64) -> (accepted: bool)
        ensures
            old(self)@.sent(event@, now, final(self)@, accepted),
    {
        if self.is_exiting {
            return false;
        }
        match &mut self.notification_system {
            Some(system) => system.send_event(event, now),
            None => false,
        }
    }

    /// Tells the interface that the engine configuration changed.
    pub fn refresh_clash(&mut self, now: u64) -> (accepted: bool)
        ensures
            old(self)@.sent(EventView::RefreshClash, now, final(self)@, accepted),
    {
        self.send(FrontendEvent::RefreshClash, now)
    }

    /// Tells the interface that the preferences changed.
    pub fn refresh_verge(&mut self, now: u64) -> (accepted: bool)
        ensures
            old(self)@.sent(EventView::RefreshVerge, now, final(self)@, accepted),
    {
        self.send(FrontendEvent::RefreshVerge, now)
    }

    /// Tells the interface that another profile became the current one.
    pub fn notify_profile_changed(&mut self, profile_id: String, now: u64) -> (accepted: bool)
        ensures
            old(self)@.sent(
                EventView::ProfileChanged { current_profile_id: profile_id@ },
                now,
                final(self)@,
                accepted,
            ),
    {
        self.send(FrontendEvent::ProfileChanged { current_profile_id: profile_id }, now)
    }

    /// Tells the interface that the update timer of a profile was set.
    pub fn notify_timer_updated(&mut self, profile_index: String, now: u64) -> (accepted: bool)
        ensures
            old(self)@.sent(
                EventView::TimerUpdated { profile_index: profile_index@ },
                now,
                final(self)@,
                accepted,
            ),
    {
        self.send(FrontendEvent::TimerUpdated { profile_index }, now)
    }

    /// Tells the interface that the update of a profile began.
    pub fn notify_profile_update_started(&mut self, uid: String, now: u64) -> (accepted: bool)
        ensures
            old(self)@.sent(
                EventView::ProfileUpdateStarted { uid: uid@ },
                now,
                final(self)@,
                accepted,
            ),
    {
        self.send(FrontendEvent::ProfileUpdateStarted { uid }, now)
    }

    /// Tells the interface that the update of a profile ended.
    pub fn notify_profile_update_completed(&mut self, uid: String, now: u64) -> (accepted: bool)
        ensures
            old(self)@.sent(
                EventView::ProfileUpdateCompleted { uid: uid@ },
                now,
                final(self)@,
                accepted,
            ),
    {
        self.send(FrontendEvent::ProfileUpdateCompleted { uid }, now)
    }

    /// Shows a message to the user.
    ///
    /// Before the interface is ready the notice is appended to the startup
    /// buffer, whatever else holds, and the answer is `true`. Afterwards it
    /// is sent like any other event.
    pub fn notice_message(&mut self, status: String, msg: String, now: u64) -> (taken: bool)
        ensures
            !old(self)@.startup_completed ==> taken && final(self)@ == (HandleView {
                startup_errors: old(self)@.startup_errors.push((status@, msg@)),
                ..old(self)@
            }),
            old(self)@.startup_completed ==> old(self)@.sent(
                EventView::NoticeMessage { status: status@, message: msg@ },
                now,
                final(self)@,
                taken,
            ),
    {
        if !self.startup_completed {
            let ghost before = self.startup_errors@;
            let notice = ErrorMessage { status, message: msg };
            self.startup_errors.push(notice);
            assert(notice_views(self.startup_errors@) =~= notice_views(before).push(notice@));
            return true;
        }
        self.send(FrontendEvent::NoticeMessage { status, message: msg }, now)
    }

    /// Declares the interface ready and drains the startup buffer: the
    /// buffered notices come back oldest first, and the buffer is empty
    /// from then on. The caller sends them one by one with
    /// `send_startup_error`.
    pub fn mark_startup_completed(&mut self) -> (buffered: Vec<ErrorMessage>)
        ensures
            notice_views(buffered@) == old(self)@.startup_errors,
            final(self)@ == (HandleView {
                startup_completed: true,
                startup_errors: Seq::empty(),
                ..old(self)@
            }),
    {
        self.startup_completed = true;
        let mut buffered: Vec<ErrorMessage> = Vec::new();
        std::mem::swap(&mut self.startup_errors, &mut buffered);
        assert(notice_views(self.startup_errors@) =~= Seq::empty());
        buffered
    }

    /// Sends one notice of the drained startup buffer. `None` says that
    /// the application is shutting down and that the rest of the buffer is
    /// to be dropped; otherwise the answer is that of the queue.
    pub fn send_startup_error(&mut self, notice: ErrorMessage, now: u64) -> (sent: Option<bool>)
        ensures
            old(self)@.exiting ==> sent.is_none() && final(self)@ == old(self)@,
            !old(self)@.exiting ==> {
                &&& sent matches Some(accepted)
                &&& old(self)@.sent(
                    EventView::NoticeMessage { status: notice.status@, message: notice.message@ },
                    now,
                    final(self)@,
                    accepted,
                )
            },
    {
        if self.is_exiting {
            return None;
        }
        Some(
            self.send(
                FrontendEvent::NoticeMessage { status: notice.status, message: notice.message },
                now,
            ),
        )
    }

    /// Marks the application as shutting down and stops the dispatcher.
    pub fn set_is_exiting(&mut self)
        ensures
            final(self)@ == (HandleView {
                exiting: true,
                notifier: match old(self)@.notifier {
                    Some(n) => Some(NotifierView { running: false, ..n }),
                    None => None,
                },
                ..old(self)@
            }),
    {
        self.is_exiting = true;
        match &mut self.notification_system {
            Some(system) => {
                system.shutdown();
            },
            None => {},
        }
    }

    /// Decides what the delivery loop does with an event that it took off
    /// the queue; see `NotificationSystem::begin_delivery`. Without a
    /// dispatcher the event is skipped.
    pub fn begin_delivery(&mut self, event: FrontendEvent, window_ready: bool, now: u64) -> (delivery:
        Delivery)
        ensures
            match old(self)@.notifier {
                Some(before) => {
                    &&& final(self)@.notifier matches Some(after)
                    &&& delivery_begun(before, event@, window_ready, now, after, delivery)
                    &&& final(self)@ == (HandleView { notifier: Some(after), ..old(self)@ })
                },
                None => delivery is Skipped && final(self)@ == old(self)@,
            },
    {
        match &mut self.notification_system {
            Some(system) => system.begin_delivery(event, window_ready, now),
            None => Delivery::Skipped,
        }
    }

    /// Books what the interface said to an emission.
    pub fn record_emit(&mut self, delivered: bool, now: u64)
        ensures
            final(self)@ == (HandleView {
                notifier: match old(self)@.notifier {
                    Some(n) => Some(n.after_emit(delivered, now)),
                    None => None,
                },
                ..old(self)@
            }),
    {
        match &mut self.notification_system {
            Some(system) => {
                system.record_emit(delivered, now);
            },
            None => {},
        }
    }
}

/// While the application shuts down no event is handed to the queue, and
/// no enqueue and no start of the dispatcher takes the exit flag back.
pub proof fn lemma_exiting_suppresses_events(
    state: HandleView,
    event: EventView,
    accepted: bool,
    now: u64,
)
    requires
        state.exiting,
    ensures
        !state.attempts(event),
        !state.can_start(),
        state.started(now) == state,
        state.after_enqueue(accepted, now).exiting,
{
}

/// Sets up the handle at application start.
pub fn resolve_setup_handle(handle: &mut Handle, now: u64) -> (receiver: Option<
    UnboundedReceiver<FrontendEvent>,
>)
    ensures
        receiver.is_some() == old(handle)@.can_start(),
        final(handle)@ == old(handle)@.started(now),
{
    init_handle(handle, now)
}

/// Starts the dispatcher of the handle; see `Handle::init`.
pub fn init_handle(handle: &mut Handle, now: u64) -> (receiver: Option<
    UnboundedReceiver<FrontendEvent>,
>)
    ensures
        receiver.is_some() == old(handle)@.can_start(),
        final(handle)@ == old(handle)@.started(now),
{
    handle.init(now)
}

} // verus!
