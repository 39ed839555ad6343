use wisp::monitor::{
    classify_message, rules_all_notifications, rules_notify_only, MessageKind, MessageTag,
};

#[test]
fn rules_cover_notifications_interface() {
    assert_eq!(
        rules_all_notifications(),
        vec![
            "type='method_call',interface='org.freedesktop.Notifications'".to_string(),
            "type='signal',interface='org.freedesktop.Notifications'".to_string(),
        ]
    );
    assert_eq!(
        rules_notify_only(),
        vec!["type='method_call',interface='org.freedesktop.Notifications',member='Notify'".to_string()]
    );
}

#[test]
fn messages_are_classified_by_interface_type_and_member() {
    let iface = Some("org.freedesktop.Notifications");
    assert_eq!(classify_message(iface, MessageKind::MethodCall, Some("Notify")), Some(MessageTag::Notify));
    assert_eq!(
        classify_message(iface, MessageKind::MethodCall, Some("CloseNotification")),
        Some(MessageTag::CloseNotification)
    );
    assert_eq!(
        classify_message(iface, MessageKind::Signal, Some("NotificationClosed")),
        Some(MessageTag::NotificationClosed)
    );
    assert_eq!(
        classify_message(iface, MessageKind::Signal, Some("ActionInvoked")),
        Some(MessageTag::ActionInvoked)
    );
    assert_eq!(classify_message(iface, MessageKind::Signal, Some("Notify")), None);
    assert_eq!(classify_message(iface, MessageKind::MethodReturn, Some("Notify")), None);
    assert_eq!(classify_message(Some("org.other"), MessageKind::MethodCall, Some("Notify")), None);
    assert_eq!(classify_message(None, MessageKind::MethodCall, Some("Notify")), None);
    assert_eq!(classify_message(iface, MessageKind::MethodCall, None), None);
}
