use wisp::appearance::{
    eq_ignore_case, focused_output_name, layer_anchor_from_str, output_choice,
    output_option_from_config, parse_hex_color, Anchor, OutputChoice, OutputOption, Rgba8,
};

#[test]
fn hex_colors_with_and_without_alpha() {
    assert_eq!(parse_hex_color("#6aa9ff"), Some(Rgba8 { r: 0x6a, g: 0xa9, b: 0xff, a: 255 }));
    assert_eq!(parse_hex_color(" ##1e1e2ecc "), Some(Rgba8 { r: 0x1e, g: 0x1e, b: 0x2e, a: 0xcc }));
    assert_eq!(parse_hex_color("FFFFFF"), Some(Rgba8 { r: 255, g: 255, b: 255, a: 255 }));
    assert_eq!(parse_hex_color("#+f+f+f"), Some(Rgba8 { r: 15, g: 15, b: 15, a: 255 }));
}

#[test]
fn bad_hex_colors_are_none() {
    assert_eq!(parse_hex_color("#12345"), None);
    assert_eq!(parse_hex_color("#12345g"), None);
    assert_eq!(parse_hex_color("red"), None);
    assert_eq!(parse_hex_color("#ééé"), None);
    assert_eq!(parse_hex_color(""), None);
}

#[test]
fn anchors_by_name() {
    let top_right = Anchor { top: true, bottom: false, left: false, right: true };
    assert_eq!(layer_anchor_from_str("top-right"), top_right);
    assert_eq!(layer_anchor_from_str("nowhere"), top_right);
    assert_eq!(
        layer_anchor_from_str("bottom-left"),
        Anchor { top: false, bottom: true, left: true, right: false }
    );
    assert_eq!(layer_anchor_from_str("left"), Anchor { top: false, bottom: false, left: true, right: false });
}

#[test]
fn output_choice_by_setting() {
    assert_eq!(output_choice("focused"), OutputChoice::Focused);
    assert_eq!(output_choice(" Focused "), OutputChoice::Focused);
    assert_eq!(output_choice("last-output"), OutputChoice::LastOutput);
    assert_eq!(output_choice("LAST_OUTPUT"), OutputChoice::LastOutput);
    assert_eq!(output_choice("none"), OutputChoice::Default);
    assert_eq!(output_choice("  "), OutputChoice::Default);
    assert_eq!(output_choice("DP-1"), OutputChoice::Named("DP-1".to_string()));
    assert!(eq_ignore_case("AnY", "any"));
}

#[test]
fn focused_output_from_command_output() {
    assert_eq!(focused_output_name("DP-3\n"), Some("DP-3".to_string()));
    assert_eq!(focused_output_name(" HDMI-A-1 \nother\n"), Some("HDMI-A-1".to_string()));
    assert_eq!(focused_output_name(""), None);
    assert_eq!(focused_output_name("  \nDP-1"), None);
}

#[test]
fn output_option_parses_focused() {
    assert_eq!(output_option_from_config("focused", None), OutputOption::Default);
}

#[test]
fn output_option_parses_last_output() {
    assert_eq!(output_option_from_config("last-output", None), OutputOption::LastOutput);
}

#[test]
fn output_option_parses_output_name() {
    assert_eq!(
        output_option_from_config("DP-1", None),
        OutputOption::OutputName("DP-1".to_string())
    );
}

#[test]
fn output_option_uses_focused_command_when_provided() {
    // What `printf 'DP-3\n'` prints; the command itself is run by the daemon.
    assert_eq!(
        output_option_from_config("focused", Some("DP-3\n")),
        OutputOption::OutputName("DP-3".to_string())
    );
}
