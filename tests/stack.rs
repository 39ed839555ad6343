use wisp::stack::{PopupAction, PopupStack};
use wisp::types::{CloseReason, Notification, NotificationEvent, Urgency};

fn sample(id: u32, summary: &str) -> NotificationEvent {
    NotificationEvent::Received {
        id,
        notification: Box::new(Notification {
            app_name: String::from("app"),
            app_icon: String::new(),
            summary: summary.to_string(),
            body: String::new(),
            urgency: Urgency::Normal,
            timeout_ms: 1000,
            actions: vec![],
            hints: Default::default(),
        }),
    }
}

#[test]
fn newest_goes_to_front() {
    let mut ui = PopupStack::new(5, None);
    let _ = ui.apply_event(sample(1, "one"));
    let _ = ui.apply_event(sample(2, "two"));
    assert_eq!(ui.windows().len(), 2);
    assert_eq!(ui.windows()[0], 2);
    assert_eq!(ui.windows()[1], 1);
}

#[test]
fn replacement_keeps_slot() {
    let mut ui = PopupStack::new(5, None);
    let _ = ui.apply_event(sample(1, "one"));
    let _ = ui.apply_event(sample(2, "two"));
    let _ = ui.apply_event(NotificationEvent::Replaced {
        id: 1,
        previous: Box::new(Notification::default()),
        current: Box::new(Notification { summary: String::from("one-new"), ..Notification::default() }),
    });
    assert_eq!(ui.windows()[1], 1);
    assert_eq!(ui.notification(1).unwrap().summary, "one-new");
}

#[test]
fn close_removes_notification() {
    let mut ui = PopupStack::new(5, None);
    let _ = ui.apply_event(sample(1, "one"));
    let _ = ui.apply_event(NotificationEvent::Closed { id: 1, reason: CloseReason::ClosedByCall });
    assert!(ui.is_empty());
}

#[test]
fn oldest_windows_are_evicted_beyond_the_limit() {
    let mut ui = PopupStack::new(2, Some(3000));
    assert_eq!(ui.apply_event(sample(1, "one")), vec![PopupAction::Open { id: 1 }, PopupAction::Relayout]);
    let _ = ui.apply_event(sample(2, "two"));
    let actions = ui.apply_event(sample(3, "three"));
    assert_eq!(
        actions,
        vec![PopupAction::Open { id: 3 }, PopupAction::Close { id: 1 }, PopupAction::Relayout]
    );
    assert_eq!(ui.windows(), &[3, 2]);
    assert!(ui.notification(1).is_none());
    assert_eq!(ui.notification(3).unwrap().timeout_ms, Some(1000));
    assert!(ui.apply_event(sample(3, "again")).is_empty());
    assert_eq!(ui.notification(3).unwrap().summary, "again");
    assert_eq!(
        ui.apply_event(NotificationEvent::Closed { id: 2, reason: CloseReason::Dismissed }),
        vec![PopupAction::Close { id: 2 }, PopupAction::Relayout]
    );
    assert_eq!(ui.windows(), &[3]);
}
