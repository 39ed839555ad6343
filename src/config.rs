//! Settings of the popup daemon, with their defaults.
use vstd::prelude::*;

verus! {

/// What a click on a popup does.
#[derive(Debug, Clone, Copy, PartialEq, Eq, Structural)]
pub enum ClickAction {
    /// Close the notification as dismissed.
    Dismiss,
    /// Invoke the notification's `default` action.
    InvokeDefaultAction,
}

/// What the popup daemon asks of the source.
#[derive(Debug, Clone, PartialEq, Eq)]
pub enum SourceCommand {
    InvokeAction { id: u32, key: String },
    Dismiss { id: u32 },
}

/// `c` invokes the `default` action of notification `id`.
pub open spec fn invokes_default(c: SourceCommand, id: u32) -> bool {
    c matches SourceCommand::InvokeAction { id: i, key: k } && i == id && k@ == "default"@
}

/// The command a click on the popup of notification `id` sends.
pub fn click_command(id: u32, action: ClickAction) -> (r: SourceCommand)
    ensures
        action == ClickAction::Dismiss ==> r == (SourceCommand::Dismiss { id }),
        action == ClickAction::InvokeDefaultAction ==> invokes_default(r, id),
{
    match action {
        ClickAction::Dismiss => SourceCommand::Dismiss { id },
        ClickAction::InvokeDefaultAction => SourceCommand::InvokeAction {
            id,
            key: "default".to_owned(),
        },
    }
}

/// The source settings of the popup daemon.
#[derive(Debug, Clone)]
pub struct SourceSection {
    pub default_timeout_ms: Option<i32>,
    pub capabilities: Vec<String>,
}

impl Default for SourceSection {
    fn default() -> (r: Self)
        ensures
            r.default_timeout_ms is None,
            r.capabilities@.len() == 2,
            r.capabilities@[0]@ == "body"@,
            r.capabilities@[1]@ == "actions"@,
    {
        SourceSection {
            default_timeout_ms: None,
            capabilities: vec!["body".to_owned(), "actions".to_owned()],
        }
    }
}

/// Margins of the popup stack from the screen edges.
#[derive(Debug, Clone, Copy, PartialEq, Eq)]
pub struct MarginConfig {
    pub top: i32,
    pub right: i32,
    pub bottom: i32,
    pub left: i32,
}

impl Default for MarginConfig {
    fn default() -> (r: Self)
        ensures
            r.top == 16 && r.right == 16 && r.bottom == 16 && r.left == 16,
    {
        MarginConfig { top: 16, right: 16, bottom: 16, left: 16 }
    }
}

/// Colors of the popups, as `#rrggbb` or `#rrggbbaa`.
#[derive(Debug, Clone)]
pub struct UrgencyColors {
    pub low: String,
    pub normal: String,
    pub critical: String,
    pub background: String,
    pub text: String,
    pub timeout_progress: String,
}

impl Default for UrgencyColors {
    fn default() -> (r: Self)
        ensures
            r.low@ == "#6aa9ff"@,
            r.normal@ == "#7dcf7d"@,
            r.critical@ == "#ff6b6b"@,
            r.background@ == "#1e1e2ecc"@,
            r.text@ == "#f8f8f2"@,
            r.timeout_progress@ == "#f8f8f2"@,
    {
        UrgencyColors {
            low: "#6aa9ff".to_owned(),
            normal: "#7dcf7d".to_owned(),
            critical: "#ff6b6b".to_owned(),
            background: "#1e1e2ecc".to_owned(),
            text: "#f8f8f2".to_owned(),
            timeout_progress: "#f8f8f2".to_owned(),
        }
    }
}

/// Style of one part of a popup's text.
#[derive(Debug, Clone)]
pub struct TextPartStyle {
    pub color: String,
    pub font_size: Option<u16>,
}

impl Default for TextPartStyle {
    fn default() -> (r: Self)
        ensures
            r.color@ == "#f8f8f2"@,
            r.font_size is None,
    {
        TextPartStyle { color: "#f8f8f2".to_owned(), font_size: None }
    }
}

/// Styles of the app name, summary and body.
#[derive(Debug, Clone)]
pub struct TextStyleConfig {
    pub app_name: TextPartStyle,
    pub summary: TextPartStyle,
    pub body: TextPartStyle,
}

impl Default for TextStyleConfig {
    fn default() -> (r: Self)
        ensures
            r.app_name.color@ == "#a89984"@ && r.app_name.font_size is None,
            r.summary.color@ == "#fabd2f"@ && r.summary.font_size is None,
            r.body.color@ == "#ebdbb2"@ && r.body.font_size is None,
    {
        TextStyleConfig {
            app_name: TextPartStyle { color: "#a89984".to_owned(), font_size: None },
            summary: TextPartStyle { color: "#fabd2f".to_owned(), font_size: None },
            body: TextPartStyle { color: "#ebdbb2".to_owned(), font_size: None },
        }
    }
}

/// Style of the action and close buttons.
#[derive(Debug, Clone)]
pub struct ButtonStyleConfig {
    pub text_color: String,
    pub background: String,
    pub border_color: String,
    pub hover_background: String,
    pub hover_text_color: String,
    pub font_family: Option<String>,
    pub font_size: Option<u16>,
    pub close_font_size: Option<u16>,
}

impl Default for ButtonStyleConfig {
    fn default() -> (r: Self)
        ensures
            r.text_color@ == "#ebdbb2"@,
            r.background@ == "#3c3836"@,
            r.border_color@ == "#665c54"@,
            r.hover_background@ == "#504945"@,
            r.hover_text_color@ == "#fbf1c7"@,
            r.font_family is None,
            r.font_size is None,
            r.close_font_size is None,
    {
        ButtonStyleConfig {
            text_color: "#ebdbb2".to_owned(),
            background: "#3c3836".to_owned(),
            border_color: "#665c54".to_owned(),
            hover_background: "#504945".to_owned(),
            hover_text_color: "#fbf1c7".to_owned(),
            font_family: None,
            font_size: None,
            close_font_size: None,
        }
    }
}

/// Layout and behaviour of the popups.
#[derive(Debug, Clone)]
pub struct UiSection {
    pub format: String,
    pub max_visible: usize,
    pub width: u32,
    pub height: u32,
    pub gap: u16,
    pub padding: u16,
    pub font_size: u16,
    pub font_family: String,
    pub show_icons: bool,
    pub max_icon_size: u16,
    pub anchor: String,
    pub output: String,
    pub focused_output_command: Option<String>,
    pub margin: MarginConfig,
    pub colors: UrgencyColors,
    pub text: TextStyleConfig,
    pub buttons: ButtonStyleConfig,
    pub show_timeout_progress: bool,
    pub timeout_progress_height: u16,
    pub timeout_progress_position: String,
    pub left_click_action: ClickAction,
    pub right_click_action: ClickAction,
}

impl Default for UiSection {
    fn default() -> (r: Self)
        ensures
            r.format@ == "{app_name}: {summary}\n{body}"@,
            r.max_visible == 5,
            r.width == 420,
            r.height == 64,
            r.gap == 8,
            r.padding == 10,
            r.font_size == 15,
            r.font_family@ == "sans-serif"@,
            r.show_icons,
            r.max_icon_size == 32,
            r.anchor@ == "top-right"@,
            r.output@ == "focused"@,
            r.focused_output_command is None,
            r.margin == (MarginConfig { top: 16, right: 16, bottom: 16, left: 16 }),
            r.show_timeout_progress,
            r.timeout_progress_height == 3,
            r.timeout_progress_position@ == "bottom"@,
            r.left_click_action == ClickAction::Dismiss,
            r.right_click_action == ClickAction::InvokeDefaultAction,
    {
        UiSection {
            format: "{app_name}: {summary}\n{body}".to_owned(),
            max_visible: 5,
            width: 420,
            height: 64,
            gap: 8,
            padding: 10,
            font_size: 15,
            font_family: "sans-serif".to_owned(),
            show_icons: true,
            max_icon_size: 32,
            anchor: "top-right".to_owned(),
            output: "focused".to_owned(),
            focused_output_command: None,
            margin: MarginConfig::default(),
            colors: UrgencyColors::default(),
            text: TextStyleConfig::default(),
            buttons: ButtonStyleConfig::default(),
            show_timeout_progress: true,
            timeout_progress_height: 3,
            timeout_progress_position: "bottom".to_owned(),
            left_click_action: ClickAction::Dismiss,
            right_click_action: ClickAction::InvokeDefaultAction,
        }
    }
}

/// All settings of the popup daemon.
#[derive(Debug, Clone)]
pub struct AppConfig {
    pub source: SourceSection,
    pub ui: UiSection,
}

impl Default for AppConfig {
    fn default() -> (r: Self)
        ensures
            r.source.default_timeout_ms is None,
            r.ui.output@ == "focused"@,
            r.ui.max_visible == 5,
    {
        AppConfig { source: SourceSection::default(), ui: UiSection::default() }
    }
}

} // verus!
