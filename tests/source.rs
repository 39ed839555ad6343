use wisp::source::{
    delivery_result, BusSignal, Effect, SendOutcome, SourceConfig, SourceError, WispSource,
};
use wisp::types::{
    close_reason_code, CloseReason, Notification, NotificationAction, NotificationEvent,
    NotificationHints, Urgency,
};

fn test_notification(summary: &str) -> Notification {
    Notification {
        app_name: "test".into(),
        app_icon: String::new(),
        summary: summary.into(),
        body: String::new(),
        urgency: Default::default(),
        timeout_ms: -1,
        actions: vec![],
        hints: NotificationHints::default(),
    }
}

fn test_notification_with_action(summary: &str, action_key: &str) -> Notification {
    Notification {
        actions: vec![NotificationAction {
            key: action_key.to_string(),
            label: "Test Action".to_string(),
        }],
        ..test_notification(summary)
    }
}

fn events(fx: &[Effect]) -> Vec<NotificationEvent> {
    fx.iter()
        .filter_map(|e| match e {
            Effect::Emit(ev) => Some(ev.clone()),
            _ => None,
        })
        .collect()
}

#[test]
fn replacement_uses_same_id() {
    let mut source = WispSource::new(SourceConfig::default());
    let (id, _) = source.notify(test_notification("first"), 0).unwrap();
    let (replaced_id, fx) = source.notify(test_notification("second"), id).unwrap();
    assert_eq!(id, replaced_id);
    match events(&fx).last().unwrap() {
        NotificationEvent::Replaced { id: event_id, .. } => assert_eq!(*event_id, id),
        other => panic!("unexpected event: {other:?}"),
    }
}

#[test]
fn timeout_emits_closed_expired_event() {
    let cfg = SourceConfig { default_timeout_ms: 20, ..SourceConfig::default() };
    let mut source = WispSource::new(cfg);
    let (id, fx) = source.notify(test_notification("expires"), 0).unwrap();
    assert_eq!(fx[0], Effect::ScheduleExpiry { id, generation: 0, after_ms: 20 });
    match &events(&fx)[0] {
        NotificationEvent::Received { id: event_id, .. } => assert_eq!(*event_id, id),
        other => panic!("unexpected event: {other:?}"),
    }
    let fx = source.expire_if_current(id, 0);
    match &events(&fx)[0] {
        NotificationEvent::Closed { id: event_id, reason } => {
            assert_eq!(*event_id, id);
            assert_eq!(*reason, CloseReason::Expired);
        }
        other => panic!("unexpected event: {other:?}"),
    }
}

#[test]
fn invoke_action_emits_action_and_closed_events() {
    let mut source = WispSource::new(SourceConfig::default());
    let (id, fx) = source.notify(test_notification_with_action("action", "open"), 0).unwrap();
    match &events(&fx)[0] {
        NotificationEvent::Received { id: event_id, .. } => assert_eq!(*event_id, id),
        other => panic!("unexpected event: {other:?}"),
    }
    let (invoked, fx) = source.invoke_action(id, "open");
    assert!(invoked);
    let evs = events(&fx);
    match &evs[0] {
        NotificationEvent::ActionInvoked { id: event_id, .. } => assert_eq!(*event_id, id),
        other => panic!("unexpected event: {other:?}"),
    }
    match &evs[1] {
        NotificationEvent::Closed { id: event_id, reason } => {
            assert_eq!(*event_id, id);
            assert_eq!(*reason, CloseReason::Dismissed);
        }
        other => panic!("unexpected event: {other:?}"),
    }
}

#[test]
fn invoke_action_returns_false_for_unknown_action() {
    let mut source = WispSource::new(SourceConfig::default());
    let (id, _) = source.notify(test_notification("no action"), 0).unwrap();
    let (invoked, fx) = source.invoke_action(id, "open");
    assert!(!invoked);
    assert!(fx.is_empty(), "unexpected event was emitted");
}

#[test]
fn simple_notify_then_expire() {
    let cfg = SourceConfig { default_timeout_ms: 20, ..SourceConfig::default() };
    let mut source = WispSource::new(cfg);
    let n = Notification {
        app_name: "t".into(),
        summary: "hi".into(),
        timeout_ms: -1,
        ..Notification::default()
    };
    let (id, fx) = source.notify(n.clone(), 0).unwrap();
    assert_eq!(id, 1);
    assert_eq!(
        fx,
        vec![
            Effect::ScheduleExpiry { id: 1, generation: 0, after_ms: 20 },
            Effect::Emit(NotificationEvent::Received { id: 1, notification: Box::new(n) }),
        ]
    );
    assert_eq!(
        source.expire_if_current(1, 0),
        vec![
            Effect::Emit(NotificationEvent::Closed { id: 1, reason: CloseReason::Expired }),
            Effect::Signal(BusSignal::NotificationClosed { id: 1, reason: 1 }),
        ]
    );
    assert!(source.snapshot().is_empty());
}

#[test]
fn in_place_replace_preserves_id() {
    let mut source = WispSource::new(SourceConfig::default());
    let a = Notification { summary: "a".into(), ..Notification::default() };
    let b = Notification { summary: "b".into(), ..Notification::default() };
    let (first, fx) = source.notify(a.clone(), 0).unwrap();
    assert_eq!(first, 1);
    assert_eq!(fx, vec![Effect::Emit(NotificationEvent::Received { id: 1, notification: Box::new(a.clone()) })]);
    let (second, fx) = source.notify(b.clone(), 1).unwrap();
    assert_eq!(second, 1);
    assert_eq!(
        fx,
        vec![Effect::Emit(NotificationEvent::Replaced {
            id: 1,
            previous: Box::new(a),
            current: Box::new(b.clone()),
        })]
    );
    assert_eq!(source.snapshot(), vec![(1, b)]);
}

#[test]
fn action_invocation_on_existing_key() {
    let mut source = WispSource::new(SourceConfig::default());
    let n = Notification {
        summary: "x".into(),
        actions: vec![NotificationAction { key: "open".into(), label: "Open".into() }],
        ..Notification::default()
    };
    let (id, _) = source.notify(n, 0).unwrap();
    assert_eq!(id, 1);
    let (invoked, fx) = source.invoke_action(1, "open");
    assert!(invoked);
    assert_eq!(
        fx,
        vec![
            Effect::Emit(NotificationEvent::ActionInvoked { id: 1, action_key: "open".into() }),
            Effect::Signal(BusSignal::ActionInvoked { id: 1, action_key: "open".into() }),
            Effect::Emit(NotificationEvent::Closed { id: 1, reason: CloseReason::Dismissed }),
            Effect::Signal(BusSignal::NotificationClosed { id: 1, reason: 2 }),
        ]
    );
    assert!(source.snapshot().is_empty());
}

#[test]
fn action_invocation_on_unknown_key_keeps_notification() {
    let mut source = WispSource::new(SourceConfig::default());
    let n = Notification { summary: "x".into(), ..Notification::default() };
    let (id, _) = source.notify(n.clone(), 0).unwrap();
    assert_eq!(id, 1);
    let (invoked, fx) = source.invoke_action(1, "open");
    assert!(!invoked);
    assert!(fx.is_empty());
    assert_eq!(source.snapshot(), vec![(1, n)]);
}

#[test]
fn timer_race_with_replace() {
    let mut source = WispSource::new(SourceConfig::default());
    let first = Notification { timeout_ms: 50, ..Notification::default() };
    let (id, fx) = source.notify(first, 0).unwrap();
    assert_eq!(id, 1);
    assert_eq!(fx[0], Effect::ScheduleExpiry { id: 1, generation: 0, after_ms: 50 });
    let second = Notification { timeout_ms: 0, ..Notification::default() };
    let (id, fx) = source.notify(second, 1).unwrap();
    assert_eq!(id, 1);
    assert_eq!(fx.len(), 1);
    assert!(matches!(fx[0], Effect::Emit(NotificationEvent::Replaced { id: 1, .. })));
    assert!(source.expire_if_current(1, 0).is_empty());
    assert_eq!(source.snapshot().len(), 1);
}

#[test]
fn close_of_absent_id_is_noop() {
    let mut source = WispSource::new(SourceConfig::default());
    let (closed, fx) = source.close(42, CloseReason::ClosedByCall);
    assert!(!closed);
    assert!(fx.is_empty());
}

#[test]
fn close_twice_second_is_noop() {
    let mut source = WispSource::new(SourceConfig::default());
    let (id, _) = source.notify(test_notification("x"), 0).unwrap();
    let (closed, fx) = source.close(id, CloseReason::ClosedByCall);
    assert!(closed);
    assert_eq!(
        fx,
        vec![
            Effect::Emit(NotificationEvent::Closed { id, reason: CloseReason::ClosedByCall }),
            Effect::Signal(BusSignal::NotificationClosed { id, reason: 3 }),
        ]
    );
    let (closed, fx) = source.close(id, CloseReason::ClosedByCall);
    assert!(!closed);
    assert!(fx.is_empty());
}

#[test]
fn server_information_returns_configured_values() {
    let cfg = SourceConfig {
        server_name: "n".into(),
        server_vendor: "v".into(),
        server_version: "9.9".into(),
        spec_version: "1.2".into(),
        ..SourceConfig::default()
    };
    let source = WispSource::new(cfg);
    assert_eq!(
        source.server_information(),
        ("n".to_string(), "v".to_string(), "9.9".to_string(), "1.2".to_string())
    );
}

#[test]
fn capabilities_default_to_body() {
    let source = WispSource::new(SourceConfig::default());
    assert_eq!(source.capabilities(), &["body".to_string()]);
    let cfg = SourceConfig::default();
    assert_eq!(cfg.channel_capacity, 256);
    assert_eq!(cfg.default_timeout_ms, 5000);
    assert_eq!(cfg.spec_version, "1.2");
    assert_eq!(cfg.dbus_name, "org.freedesktop.Notifications");
    assert_eq!(cfg.dbus_path, "/org/freedesktop/Notifications");
}

#[test]
fn generation_rises_on_each_replace() {
    let mut source = WispSource::new(SourceConfig::default());
    let timed = Notification { timeout_ms: 100, ..Notification::default() };
    let (id, fx) = source.notify(timed.clone(), 0).unwrap();
    assert_eq!(fx[0], Effect::ScheduleExpiry { id, generation: 0, after_ms: 100 });
    let (_, fx) = source.notify(timed.clone(), id).unwrap();
    assert_eq!(fx[0], Effect::ScheduleExpiry { id, generation: 1, after_ms: 100 });
    let (_, fx) = source.notify(timed, id).unwrap();
    assert_eq!(fx[0], Effect::ScheduleExpiry { id, generation: 2, after_ms: 100 });
    assert!(source.expire_if_current(id, 1).is_empty());
    assert_eq!(source.expire_if_current(id, 2).len(), 2);
}

#[test]
fn events_for_one_id_follow_the_lifecycle() {
    let mut source = WispSource::new(SourceConfig::default());
    let with_action = test_notification_with_action("a", "go");
    let mut all = Vec::new();
    let (id, fx) = source.notify(test_notification("a"), 0).unwrap();
    all.extend(events(&fx));
    let (_, fx) = source.notify(with_action, id).unwrap();
    all.extend(events(&fx));
    let (_, fx) = source.invoke_action(id, "go");
    all.extend(events(&fx));
    let (again, fx) = source.notify(test_notification("b"), id).unwrap();
    all.extend(events(&fx));
    let kinds: Vec<&str> = all
        .iter()
        .map(|e| match e {
            NotificationEvent::Received { .. } => "received",
            NotificationEvent::Replaced { .. } => "replaced",
            NotificationEvent::ActionInvoked { .. } => "action",
            NotificationEvent::Closed { .. } => "closed",
        })
        .collect();
    assert_eq!(kinds, vec!["received", "replaced", "action", "closed", "received"]);
    assert_eq!(again, 2);
}

#[test]
fn negative_default_timeout_schedules_nothing() {
    let cfg = SourceConfig { default_timeout_ms: 0, ..SourceConfig::default() };
    let mut source = WispSource::new(cfg);
    assert_eq!(source.effective_timeout_duration(-1), None);
    assert_eq!(source.effective_timeout_duration(0), None);
    assert_eq!(source.effective_timeout_duration(7), Some(7));
    let (_, fx) = source.notify(test_notification("x"), 0).unwrap();
    assert_eq!(fx.len(), 1);
}

#[test]
fn delivery_policy_drops_on_full_queue() {
    assert_eq!(delivery_result(SendOutcome::Delivered), Ok(()));
    assert_eq!(delivery_result(SendOutcome::QueueFull), Ok(()));
    assert_eq!(delivery_result(SendOutcome::ReceiverGone), Err(SourceError::EventChannelClosed));
}

#[test]
fn reason_codes_match_the_wire() {
    assert_eq!(close_reason_code(CloseReason::Expired), 1);
    assert_eq!(close_reason_code(CloseReason::Dismissed), 2);
    assert_eq!(close_reason_code(CloseReason::ClosedByCall), 3);
    assert_eq!(close_reason_code(CloseReason::Undefined), 4);
    assert_eq!(Urgency::default(), Urgency::Normal);
}
