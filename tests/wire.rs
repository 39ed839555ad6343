use wisp::wire::{notification_from_wire, parse_actions, parse_hints, urgency_from_hints, Hint, HintValue};
use wisp::types::{NotificationAction, Urgency};

fn hint(key: &str, value: HintValue, rendered: &str) -> Hint {
    Hint { key: key.to_string(), value, rendered: rendered.to_string() }
}

#[test]
fn hint_parsing_round_trip() {
    let hints = vec![
        hint("urgency", HintValue::Byte(2), "OwnedValue(U8(2))"),
        hint("category", HintValue::Text("mail".into()), "OwnedValue(Str(\"mail\"))"),
        hint("desktop-entry", HintValue::Text("org.e.M".into()), "OwnedValue(Str(\"org.e.M\"))"),
        hint("transient", HintValue::Flag(true), "OwnedValue(Bool(true))"),
        hint("x-foo", HintValue::Other, "OwnedValue(I32(42))"),
    ];
    let (urgency, parsed) = parse_hints(&hints);
    assert_eq!(urgency, Urgency::Critical);
    assert_eq!(parsed.category.as_deref(), Some("mail"));
    assert_eq!(parsed.desktop_entry.as_deref(), Some("org.e.M"));
    assert_eq!(parsed.transient, Some(true));
    assert!(parsed.extra.iter().any(|(k, _)| k == "x-foo"));
    assert_eq!(parsed.extra, vec![("x-foo".to_string(), "OwnedValue(I32(42))".to_string())]);
}

#[test]
fn notify_arguments_become_a_notification() {
    let hints = vec![
        hint("urgency", HintValue::Byte(2), "2"),
        hint("category", HintValue::Text("mail.arrived".into()), "mail.arrived"),
        hint("desktop-entry", HintValue::Text("org.example.Mail".into()), "org.example.Mail"),
        hint("transient", HintValue::Flag(true), "true"),
        hint("x-foo", HintValue::Other, "42"),
    ];
    let n = notification_from_wire(
        "test-client".into(),
        "test-icon".into(),
        "hello".into(),
        "world".into(),
        vec!["open".into(), "Open".into(), "dangling".into()],
        &hints,
        2500,
    );
    assert_eq!(n.app_name, "test-client");
    assert_eq!(n.app_icon, "test-icon");
    assert_eq!(n.summary, "hello");
    assert_eq!(n.body, "world");
    assert_eq!(n.urgency, Urgency::Critical);
    assert_eq!(n.timeout_ms, 2500);
    assert_eq!(n.actions, vec![NotificationAction { key: "open".into(), label: "Open".into() }]);
    assert_eq!(n.hints.category.as_deref(), Some("mail.arrived"));
    assert_eq!(n.hints.desktop_entry.as_deref(), Some("org.example.Mail"));
    assert_eq!(n.hints.transient, Some(true));
    assert!(n.hints.extra.iter().any(|(k, _)| k == "x-foo"));
}

#[test]
fn urgency_defaults_to_normal() {
    assert_eq!(urgency_from_hints(&vec![]), Urgency::Normal);
    assert_eq!(urgency_from_hints(&vec![hint("urgency", HintValue::Byte(0), "0")]), Urgency::Low);
    assert_eq!(urgency_from_hints(&vec![hint("urgency", HintValue::Byte(1), "1")]), Urgency::Normal);
    assert_eq!(
        urgency_from_hints(&vec![hint("urgency", HintValue::Text("2".into()), "2")]),
        Urgency::Normal
    );
}

#[test]
fn mistyped_known_hints_are_dropped() {
    let hints = vec![
        hint("category", HintValue::Byte(1), "1"),
        hint("transient", HintValue::Text("yes".into()), "yes"),
    ];
    let (_, parsed) = parse_hints(&hints);
    assert_eq!(parsed.category, None);
    assert_eq!(parsed.transient, None);
    assert!(parsed.extra.is_empty());
}

#[test]
fn actions_are_read_in_pairs() {
    let actions = parse_actions(vec!["a".into(), "A".into(), "b".into(), "B".into(), "c".into()]);
    assert_eq!(
        actions,
        vec![
            NotificationAction { key: "a".into(), label: "A".into() },
            NotificationAction { key: "b".into(), label: "B".into() },
        ]
    );
    assert!(parse_actions(vec![]).is_empty());
}
