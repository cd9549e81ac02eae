use tokio::sync::mpsc::error::TryRecvError;
use verge_core::handle::{init_handle, resolve_setup_handle, ErrorMessage, Handle};
use verge_core::notify::{
    emission_for, is_info_notice, Delivery, Emission, FrontendEvent, NotificationSystem, Payload,
    EMERGENCY_THRESHOLD, EMIT_DELAY_MILLIS, POLL_TIMEOUT_MILLIS, STARTUP_FLUSH_DELAY_SECS,
    STARTUP_NOTICE_GAP_MILLIS,
};

fn notice(status: &str, message: &str) -> FrontendEvent {
    FrontendEvent::NoticeMessage { status: String::from(status), message: String::from(message) }
}

fn emergency_system() -> NotificationSystem {
    let mut system = NotificationSystem::new(0);
    for at in 0..11 {
        system.record_emit(false, at);
    }
    system
}

#[test]
fn delays_and_threshold() {
    assert_eq!(POLL_TIMEOUT_MILLIS, 100);
    assert_eq!(EMIT_DELAY_MILLIS, 20);
    assert_eq!(STARTUP_FLUSH_DELAY_SECS, 2);
    assert_eq!(STARTUP_NOTICE_GAP_MILLIS, 300);
    assert_eq!(EMERGENCY_THRESHOLD, 10);
}

#[test]
fn emissions_have_their_names_and_payloads() {
    assert_eq!(
        emission_for(FrontendEvent::RefreshClash),
        Emission {
            name: String::from("verge://refresh-clash-config"),
            payload: Payload::Text(String::from("yes")),
        }
    );
    assert_eq!(
        emission_for(FrontendEvent::RefreshVerge),
        Emission {
            name: String::from("verge://refresh-verge-config"),
            payload: Payload::Text(String::from("yes")),
        }
    );
    assert_eq!(
        emission_for(notice("error", "engine is down")),
        Emission {
            name: String::from("verge://notice-message"),
            payload: Payload::Pair(String::from("error"), String::from("engine is down")),
        }
    );
    assert_eq!(
        emission_for(FrontendEvent::ProfileChanged { current_profile_id: String::from("p1") }),
        Emission { name: String::from("profile-changed"), payload: Payload::Text(String::from("p1")) }
    );
    assert_eq!(
        emission_for(FrontendEvent::TimerUpdated { profile_index: String::from("3") }),
        Emission {
            name: String::from("verge://timer-updated"),
            payload: Payload::Text(String::from("3")),
        }
    );
    assert_eq!(
        emission_for(FrontendEvent::ProfileUpdateStarted { uid: String::from("u") }),
        Emission {
            name: String::from("profile-update-started"),
            payload: Payload::Uid(String::from("u")),
        }
    );
    assert_eq!(
        emission_for(FrontendEvent::ProfileUpdateCompleted { uid: String::from("u") }),
        Emission {
            name: String::from("profile-update-completed"),
            payload: Payload::Uid(String::from("u")),
        }
    );
}

#[test]
fn info_notices_are_recognised() {
    assert!(is_info_notice(&notice("info", "x")));
    assert!(!is_info_notice(&notice("Info", "x")));
    assert!(!is_info_notice(&notice("information", "x")));
    assert!(!is_info_notice(&notice("", "info")));
    assert!(!is_info_notice(&notice("warn", "x")));
    assert!(!is_info_notice(&notice("error", "x")));
    assert!(!is_info_notice(&FrontendEvent::RefreshClash));
    assert!(!is_info_notice(&FrontendEvent::ProfileChanged {
        current_profile_id: String::from("info")
    }));
}

#[test]
fn system_that_was_not_started_takes_nothing() {
    let mut system = NotificationSystem::new(5);
    assert!(!system.is_running());
    assert!(!system.send_event(FrontendEvent::RefreshClash, 6));
    assert_eq!(system.total_errors(), 0);
    assert_eq!(system.total_sent(), 0);
    assert_eq!(system.last_error_time(), None);
    assert!(!system.in_emergency_mode());
}

#[test]
fn started_system_queues_events_in_order() {
    let mut system = NotificationSystem::new(0);
    let mut receiver = system.start(1).unwrap();
    assert!(system.is_running());
    assert!(system.start(2).is_none());
    assert!(system.send_event(FrontendEvent::RefreshClash, 3));
    assert!(system.send_event(notice("info", "hello"), 4));
    assert!(system.send_event(FrontendEvent::RefreshVerge, 5));
    assert_eq!(receiver.try_recv(), Ok(FrontendEvent::RefreshClash));
    assert_eq!(receiver.try_recv(), Ok(notice("info", "hello")));
    assert_eq!(receiver.try_recv(), Ok(FrontendEvent::RefreshVerge));
    assert_eq!(receiver.try_recv(), Err(TryRecvError::Empty));
    assert_eq!(system.total_errors(), 0);
}

#[test]
fn refused_enqueue_counts_as_an_error() {
    let mut system = NotificationSystem::new(0);
    let receiver = system.start(1).unwrap();
    drop(receiver);
    assert!(!system.send_event(FrontendEvent::RefreshClash, 42));
    assert_eq!(system.total_errors(), 1);
    assert_eq!(system.last_error_time(), Some(42));
    assert_eq!(system.total_sent(), 0);
    assert!(!system.in_emergency_mode());
}

#[test]
fn record_enqueue_counts_refusals_only() {
    let mut system = NotificationSystem::new(0);
    assert!(system.record_enqueue(true, 1));
    assert_eq!(system.total_errors(), 0);
    assert_eq!(system.last_error_time(), None);
    assert!(!system.record_enqueue(false, 2));
    assert_eq!(system.total_errors(), 1);
    assert_eq!(system.last_error_time(), Some(2));
}

#[test]
fn shutdown_closes_the_queue() {
    let mut system = NotificationSystem::new(0);
    let mut receiver = system.start(1).unwrap();
    assert!(system.send_event(FrontendEvent::RefreshClash, 2));
    system.shutdown();
    assert!(!system.is_running());
    assert!(!system.send_event(FrontendEvent::RefreshVerge, 3));
    assert_eq!(system.total_errors(), 0);
    assert_eq!(receiver.try_recv(), Ok(FrontendEvent::RefreshClash));
    assert_eq!(receiver.try_recv(), Err(TryRecvError::Disconnected));
    system.shutdown();
    assert!(!system.is_running());
}

#[test]
fn delivery_counts_successes_and_failures() {
    let mut system = NotificationSystem::new(0);
    system.record_emit(true, 1);
    system.record_emit(true, 2);
    system.record_emit(false, 3);
    assert_eq!(system.total_sent(), 2);
    assert_eq!(system.total_errors(), 1);
    assert_eq!(system.last_error_time(), Some(3));
    system.record_emit(true, 4);
    assert_eq!(system.last_error_time(), Some(3));
}

#[test]
fn emergency_mode_starts_with_the_eleventh_error() {
    let mut system = NotificationSystem::new(0);
    for at in 0..10 {
        system.record_emit(false, at);
        assert!(!system.in_emergency_mode());
    }
    assert_eq!(system.total_errors(), 10);
    system.record_emit(false, 10);
    assert_eq!(system.total_errors(), 11);
    assert!(system.in_emergency_mode());
}

#[test]
fn emergency_mode_is_sticky() {
    let mut system = emergency_system();
    for at in 0..50 {
        system.record_emit(true, at);
    }
    assert!(system.in_emergency_mode());
    let _receiver = system.start(100);
    assert!(system.in_emergency_mode());
    system.shutdown();
    assert!(system.in_emergency_mode());
}

#[test]
fn emergency_mode_drops_info_notices_at_the_producer() {
    let mut system = emergency_system();
    let mut receiver = system.start(20).unwrap();
    let errors = system.total_errors();
    assert!(!system.send_event(notice("info", "dropped"), 21));
    assert_eq!(system.total_errors(), errors);
    assert_eq!(receiver.try_recv(), Err(TryRecvError::Empty));
    assert!(system.send_event(notice("warn", "kept"), 22));
    assert!(system.send_event(notice("error", "kept too"), 23));
    assert!(system.send_event(FrontendEvent::RefreshClash, 24));
    assert_eq!(receiver.try_recv(), Ok(notice("warn", "kept")));
    assert_eq!(receiver.try_recv(), Ok(notice("error", "kept too")));
    assert_eq!(receiver.try_recv(), Ok(FrontendEvent::RefreshClash));
}

#[test]
fn enqueue_errors_alone_do_not_start_emergency_mode() {
    let mut system = NotificationSystem::new(0);
    drop(system.start(1).unwrap());
    for at in 0..20 {
        assert!(!system.send_event(FrontendEvent::RefreshClash, at));
    }
    assert_eq!(system.total_errors(), 20);
    assert!(!system.in_emergency_mode());
    system.record_emit(false, 21);
    assert!(system.in_emergency_mode());
}

#[test]
fn delivery_drops_without_a_window() {
    let mut system = NotificationSystem::new(0);
    assert_eq!(system.begin_delivery(FrontendEvent::RefreshClash, false, 9), Delivery::NoWindow);
    assert_eq!(system.total_errors(), 0);
    assert_eq!(system.total_sent(), 0);
    assert_eq!(
        system.begin_delivery(FrontendEvent::RefreshClash, true, 9),
        Delivery::Emit(emission_for(FrontendEvent::RefreshClash))
    );
}

#[test]
fn delivery_drops_info_notices_in_emergency_mode() {
    let mut system = emergency_system();
    assert_eq!(system.begin_delivery(notice("info", "late"), true, 30), Delivery::Skipped);
    assert_eq!(system.begin_delivery(notice("info", "late"), false, 30), Delivery::Skipped);
    assert_eq!(
        system.begin_delivery(notice("warn", "late"), true, 31),
        Delivery::Emit(emission_for(notice("warn", "late")))
    );
    assert_eq!(system.begin_delivery(notice("warn", "late"), false, 31), Delivery::NoWindow);
}

#[test]
fn handle_starts_the_dispatcher_once() {
    let mut handle = Handle::new(0);
    assert!(!handle.is_exiting());
    assert!(!handle.is_startup_completed());
    assert!(!handle.notification_system().unwrap().is_running());
    let receiver = handle.init(1);
    assert!(receiver.is_some());
    assert!(handle.notification_system().unwrap().is_running());
    assert!(handle.init(2).is_none());
    assert!(init_handle(&mut handle, 3).is_none());
    assert!(resolve_setup_handle(&mut handle, 4).is_none());
}

#[test]
fn setup_starts_the_dispatcher() {
    let mut handle = Handle::new(0);
    let mut receiver = resolve_setup_handle(&mut handle, 1).unwrap();
    assert!(handle.refresh_clash(2));
    assert_eq!(receiver.try_recv(), Ok(FrontendEvent::RefreshClash));
    let mut other = Handle::new(0);
    assert!(init_handle(&mut other, 1).is_some());
}

#[test]
fn handle_does_not_start_while_exiting() {
    let mut handle = Handle::new(0);
    handle.set_is_exiting();
    assert!(handle.is_exiting());
    assert!(handle.init(1).is_none());
    assert!(!handle.notification_system().unwrap().is_running());
}

#[test]
fn handle_sends_every_kind_of_event() {
    let mut handle = Handle::new(0);
    let mut receiver = handle.init(1).unwrap();
    handle.mark_startup_completed();
    assert!(handle.refresh_clash(2));
    assert!(handle.refresh_verge(2));
    assert!(handle.notify_profile_changed(String::from("p"), 2));
    assert!(handle.notify_timer_updated(String::from("7"), 2));
    assert!(handle.notify_profile_update_started(String::from("u1"), 2));
    assert!(handle.notify_profile_update_completed(String::from("u2"), 2));
    assert!(handle.notice_message(String::from("info"), String::from("m"), 2));
    assert_eq!(receiver.try_recv(), Ok(FrontendEvent::RefreshClash));
    assert_eq!(receiver.try_recv(), Ok(FrontendEvent::RefreshVerge));
    assert_eq!(
        receiver.try_recv(),
        Ok(FrontendEvent::ProfileChanged { current_profile_id: String::from("p") })
    );
    assert_eq!(
        receiver.try_recv(),
        Ok(FrontendEvent::TimerUpdated { profile_index: String::from("7") })
    );
    assert_eq!(
        receiver.try_recv(),
        Ok(FrontendEvent::ProfileUpdateStarted { uid: String::from("u1") })
    );
    assert_eq!(
        receiver.try_recv(),
        Ok(FrontendEvent::ProfileUpdateCompleted { uid: String::from("u2") })
    );
    assert_eq!(receiver.try_recv(), Ok(notice("info", "m")));
    assert_eq!(receiver.try_recv(), Err(TryRecvError::Empty));
}

#[test]
fn exiting_suppresses_events() {
    let mut handle = Handle::new(0);
    let mut receiver = handle.init(1).unwrap();
    handle.mark_startup_completed();
    handle.set_is_exiting();
    assert!(!handle.refresh_clash(2));
    assert!(!handle.refresh_verge(2));
    assert!(!handle.notify_profile_changed(String::from("p"), 2));
    assert!(!handle.notice_message(String::from("error"), String::from("m"), 2));
    assert_eq!(handle.notification_system().unwrap().total_errors(), 0);
    assert_eq!(receiver.try_recv(), Err(TryRecvError::Disconnected));
}

#[test]
fn notices_before_startup_are_buffered_in_order() {
    let mut handle = Handle::new(0);
    let mut receiver = handle.init(1).unwrap();
    assert!(handle.notice_message(String::from("error"), String::from("first"), 2));
    assert!(handle.notice_message(String::from("info"), String::from("second"), 3));
    assert_eq!(receiver.try_recv(), Err(TryRecvError::Empty));
    let buffered = handle.mark_startup_completed();
    assert!(handle.is_startup_completed());
    assert_eq!(
        buffered,
        vec![
            ErrorMessage { status: String::from("error"), message: String::from("first") },
            ErrorMessage { status: String::from("info"), message: String::from("second") },
        ]
    );
    assert_eq!(handle.mark_startup_completed(), Vec::new());
    for notice in buffered {
        assert_eq!(handle.send_startup_error(notice, 4), Some(true));
    }
    assert_eq!(receiver.try_recv(), Ok(notice("error", "first")));
    assert_eq!(receiver.try_recv(), Ok(notice("info", "second")));
    assert!(handle.notice_message(String::from("warn"), String::from("third"), 5));
    assert_eq!(receiver.try_recv(), Ok(notice("warn", "third")));
}

#[test]
fn notices_before_startup_are_buffered_even_while_exiting() {
    let mut handle = Handle::new(0);
    handle.set_is_exiting();
    assert!(handle.notice_message(String::from("error"), String::from("late"), 1));
    assert_eq!(
        handle.mark_startup_completed(),
        vec![ErrorMessage { status: String::from("error"), message: String::from("late") }]
    );
}

#[test]
fn flush_of_the_buffer_stops_when_exiting() {
    let mut handle = Handle::new(0);
    let _receiver = handle.init(1).unwrap();
    handle.notice_message(String::from("error"), String::from("a"), 2);
    let mut buffered = handle.mark_startup_completed();
    handle.set_is_exiting();
    assert_eq!(handle.send_startup_error(buffered.remove(0), 3), None);
}

#[test]
fn handle_books_deliveries() {
    let mut handle = Handle::new(0);
    assert_eq!(
        handle.begin_delivery(FrontendEvent::RefreshVerge, true, 1),
        Delivery::Emit(emission_for(FrontendEvent::RefreshVerge))
    );
    assert_eq!(handle.begin_delivery(FrontendEvent::RefreshVerge, false, 1), Delivery::NoWindow);
    handle.record_emit(true, 2);
    for at in 0..11 {
        handle.record_emit(false, at);
    }
    let system = handle.notification_system().unwrap();
    assert_eq!(system.total_sent(), 1);
    assert_eq!(system.total_errors(), 11);
    assert_eq!(system.last_error_time(), Some(10));
    assert!(system.in_emergency_mode());
    assert_eq!(handle.begin_delivery(notice("info", "x"), true, 3), Delivery::Skipped);
}

#[test]
fn handle_in_emergency_mode_drops_info_and_attempts_the_rest() {
    let mut handle = Handle::new(0);
    let mut receiver = handle.init(1).unwrap();
    handle.mark_startup_completed();
    for at in 0..11 {
        handle.record_emit(false, at);
    }
    assert!(!handle.notice_message(String::from("info"), String::from("dropped"), 20));
    assert!(handle.notice_message(String::from("warn"), String::from("w"), 21));
    assert!(handle.notice_message(String::from("error"), String::from("e"), 22));
    assert_eq!(receiver.try_recv(), Ok(notice("warn", "w")));
    assert_eq!(receiver.try_recv(), Ok(notice("error", "e")));
    assert_eq!(receiver.try_recv(), Err(TryRecvError::Empty));
    assert_eq!(handle.notification_system().unwrap().total_errors(), 11);
}
