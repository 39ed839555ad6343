use wisp::config::{click_command, AppConfig, ClickAction, SourceCommand, UiSection};

#[test]
fn ui_output_defaults_to_focused() {
    assert_eq!(AppConfig::default().ui.output, "focused");
}

#[test]
fn click_command_invokes_default_action() {
    assert_eq!(
        click_command(42, ClickAction::InvokeDefaultAction),
        SourceCommand::InvokeAction { id: 42, key: "default".to_string() }
    );
}

#[test]
fn click_command_dismisses() {
    assert_eq!(click_command(11, ClickAction::Dismiss), SourceCommand::Dismiss { id: 11 });
}

#[test]
fn ui_defaults() {
    let ui = UiSection::default();
    assert_eq!(ui.max_visible, 5);
    assert_eq!(ui.width, 420);
    assert_eq!(ui.anchor, "top-right");
    assert_eq!(ui.colors.critical, "#ff6b6b");
    assert_eq!(ui.buttons.background, "#3c3836");
    assert_eq!(ui.left_click_action, ClickAction::Dismiss);
    assert_eq!(ui.right_click_action, ClickAction::InvokeDefaultAction);
    let cfg = AppConfig::default();
    assert_eq!(cfg.source.capabilities, vec!["body".to_string(), "actions".to_string()]);
    assert_eq!(cfg.source.default_timeout_ms, None);
}

#[test]
fn left_click_can_invoke_default_action() {
    let ui_cfg = UiSection { left_click_action: ClickAction::InvokeDefaultAction, ..UiSection::default() };
    assert_eq!(
        click_command(42, ui_cfg.left_click_action),
        SourceCommand::InvokeAction { id: 42, key: "default".to_string() }
    );
}

#[test]
fn right_click_can_dismiss() {
    let ui_cfg = UiSection { right_click_action: ClickAction::Dismiss, ..UiSection::default() };
    assert_eq!(click_command(11, ui_cfg.right_click_action), SourceCommand::Dismiss { id: 11 });
}
