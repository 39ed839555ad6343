use std::path::PathBuf;
use wisp::popup::{
    effective_timeout_ms, namespace, resolve_icon_path, to_ui_action, to_ui_notification,
    urgency_label, wrapped_line_count,
};
use wisp::types::{Notification, NotificationAction, Urgency};

#[test]
fn wrapped_line_count_wraps_long_words() {
    assert_eq!(wrapped_line_count("abcdefghij", 4), 3);
}

#[test]
fn wrapped_line_count_wraps_words_with_spaces() {
    assert_eq!(wrapped_line_count("one two three four", 7), 3);
}

#[test]
fn wrapped_line_count_edge_cases() {
    assert_eq!(wrapped_line_count("", 0), 1);
    assert_eq!(wrapped_line_count("   ", 5), 1);
    assert_eq!(wrapped_line_count("abcd", 4), 1);
    assert_eq!(wrapped_line_count("ab cd", 5), 1);
    assert_eq!(wrapped_line_count("ab cd", 4), 2);
    assert_eq!(wrapped_line_count("x abcdefghij", 4), 4);
}

#[test]
fn resolve_icon_path_supports_file_uri() {
    assert_eq!(
        resolve_icon_path("file:///tmp/icon.png").map(PathBuf::from),
        Some(PathBuf::from("/tmp/icon.png"))
    );
}

#[test]
fn resolve_icon_path_trims_and_rejects_blank() {
    assert_eq!(resolve_icon_path("   "), None);
    assert_eq!(resolve_icon_path(" dialog-information "), Some("dialog-information".to_string()));
}

#[test]
fn empty_action_labels_are_filtered_from_ui() {
    let ui_notification = to_ui_notification(
        1,
        Notification {
            actions: vec![
                NotificationAction { key: "default".to_string(), label: " ".to_string() },
                NotificationAction { key: "open".to_string(), label: "Open".to_string() },
            ],
            ..Notification::default()
        },
        None,
    );
    assert_eq!(ui_notification.actions.len(), 1);
    assert_eq!(ui_notification.actions[0].key, "open");
    assert_eq!(ui_notification.actions[0].label, "Open");
}

#[test]
fn effective_timeout_uses_default_for_negative() {
    assert_eq!(effective_timeout_ms(-1, Some(5_000)), Some(5_000));
}

#[test]
fn effective_timeout_disables_for_zero() {
    assert_eq!(effective_timeout_ms(0, Some(5_000)), None);
}

#[test]
fn effective_timeout_other_cases() {
    assert_eq!(effective_timeout_ms(-1, None), None);
    assert_eq!(effective_timeout_ms(-1, Some(-3)), None);
    assert_eq!(effective_timeout_ms(250, None), Some(250));
}

#[test]
fn ui_notification_keeps_texts() {
    let n = Notification {
        app_name: "mail".into(),
        summary: "new".into(),
        body: "hello".into(),
        urgency: Urgency::Critical,
        timeout_ms: -1,
        ..Notification::default()
    };
    let ui = to_ui_notification(9, n, Some(1200));
    assert_eq!(ui.id, 9);
    assert_eq!(ui.app_name, "mail");
    assert_eq!(ui.summary, "new");
    assert_eq!(ui.body, "hello");
    assert_eq!(ui.urgency, Urgency::Critical);
    assert_eq!(ui.timeout_ms, Some(1200));
    assert!(to_ui_action(NotificationAction { key: "k".into(), label: "\n\t".into() }).is_none());
}

#[test]
fn urgency_labels_and_namespace() {
    assert_eq!(urgency_label(Urgency::Low), "low");
    assert_eq!(urgency_label(Urgency::Normal), "normal");
    assert_eq!(urgency_label(Urgency::Critical), "critical");
    assert_eq!(namespace(), "wispd");
}

#[test]
fn format_string_substitutes_placeholders() {
    let n = wisp::popup::UiNotification {
        id: 9,
        app_name: "mail".to_string(),
        app_icon: String::new(),
        summary: "new message".to_string(),
        body: "hello".to_string(),
        urgency: Urgency::Critical,
        actions: vec![],
        timeout_ms: None,
    };
    let rendered = wisp::popup::render_format("{id} {app_name} {summary} {body} {urgency}", &n);
    assert_eq!(rendered, "9 mail new message hello critical");
}

#[test]
fn format_string_keeps_other_text() {
    let n = wisp::popup::UiNotification {
        id: 12,
        app_name: "a".to_string(),
        app_icon: String::new(),
        summary: "{body}".to_string(),
        body: "b".to_string(),
        urgency: Urgency::Low,
        actions: vec![],
        timeout_ms: None,
    };
    assert_eq!(wisp::popup::render_format("[{summary}] {id}{id} {x}", &n), "[b] 1212 {x}");
}
