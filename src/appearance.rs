//! Reading the popup daemon's appearance settings: colors, the screen edge the
//! popups stick to, and the output they appear on.
use crate::text::{same_text, trim, trimmed};
use vstd::prelude::*;

verus! {

/// A color with 8-bit channels.
#[derive(Debug, Clone, Copy, PartialEq, Eq, Structural)]
pub struct Rgba8 {
    pub r: u8,
    pub g: u8,
    pub b: u8,
    pub a: u8,
}

/// The value of a hexadecimal digit.
pub open spec fn hex_value(c: char) -> Option<u8> {
    if '0' <= c <= '9' {
        Some((c as u32 - '0' as u32) as u8)
    } else if 'a' <= c <= 'f' {
        Some((c as u32 - 'a' as u32 + 10) as u8)
    } else if 'A' <= c <= 'F' {
        Some((c as u32 - 'A' as u32 + 10) as u8)
    } else {
        None
    }
}

/// The byte that two characters spell in hexadecimal, as `u8::from_str_radix` reads
/// them: two digits, or `+` and one digit.
pub open spec fn hex_byte(c0: char, c1: char) -> Option<u8> {
    if c0 == '+' {
        hex_value(c1)
    } else {
        match (hex_value(c0), hex_value(c1)) {
            (Some(h), Some(l)) => Some((h * 16 + l) as u8),
            _ => None,
        }
    }
}

/// `s` without its leading `#` characters.
pub open spec fn strip_hashes(s: Seq<char>) -> Seq<char>
    decreases s.len(),
{
    if s.len() > 0 && s[0] == '#' {
        strip_hashes(s.drop_first())
    } else {
        s
    }
}

/// Whether every character of `s` is ASCII.
pub open spec fn ascii_only(s: Seq<char>) -> bool {
    forall|i: int| 0 <= i < s.len() ==> (#[trigger] s[i] as u32) < 128
}

/// The color that `#rrggbb` or `#rrggbbaa` spells, after trimming white space and any
/// leading `#`s; opaque where no alpha is given.
pub open spec fn hex_color(raw: Seq<char>) -> Option<Rgba8> {
    let h = strip_hashes(trimmed(raw));
    if !ascii_only(h) || (h.len() != 6 && h.len() != 8) {
        None
    } else {
        match (hex_byte(h[0], h[1]), hex_byte(h[2], h[3]), hex_byte(h[4], h[5])) {
            (Some(r), Some(g), Some(b)) => if h.len() == 6 {
                Some(Rgba8 { r, g, b, a: 255 })
            } else {
                match hex_byte(h[6], h[7]) {
                    Some(a) => Some(Rgba8 { r, g, b, a }),
                    None => None,
                }
            },
            _ => None,
        }
    }
}

fn hex_digit(c: char) -> (r: Option<u8>)
    ensures
        r == hex_value(c),
{
    if '0' <= c && c <= '9' {
        Some((c as u32 - '0' as u32) as u8)
    } else if 'a' <= c && c <= 'f' {
        Some((c as u32 - 'a' as u32 + 10) as u8)
    } else if 'A' <= c && c <= 'F' {
        Some((c as u32 - 'A' as u32 + 10) as u8)
    } else {
        None
    }
}

fn parse_hex_byte(c0: char, c1: char) -> (r: Option<u8>)
    ensures
        r == hex_byte(c0, c1),
{
    if c0 == '+' {
        return hex_digit(c1);
    }
    match (hex_digit(c0), hex_digit(c1)) {
        (Some(h), Some(l)) => Some(h * 16 + l),
        _ => None,
    }
}

/// Reads a `#rrggbb` or `#rrggbbaa` color.
pub fn parse_hex_color(raw: &str) -> (r: Option<Rgba8>)
    ensures
        r == hex_color(raw@),
{
    let t = trim(raw);
    let n = t.unicode_len();
    let mut i: usize = 0;
    proof {
        assert(t@.subrange(0, n as int) =~= t@);
    }
    while i < n && t.get_char(i) == '#'
        invariant
            n == t@.len(),
            i <= n,
            strip_hashes(t@) == strip_hashes(t@.subrange(i as int, n as int)),
        decreases n - i,
    {
        proof {
            assert(t@.subrange(i as int, n as int).drop_first() =~= t@.subrange(i + 1, n as int));
        }
        i = i + 1;
    }
    let h = t.substring_char(i, n);
    proof {
        assert(strip_hashes(t@.subrange(i as int, n as int)) == t@.subrange(i as int, n as int));
        assert(h@ == strip_hashes(trimmed(raw@)));
    }
    let len = h.unicode_len();
    if len != 6 && len != 8 {
        return None;
    }
    let mut k: usize = 0;
    while k < len
        invariant
            len == h@.len(),
            h@ == strip_hashes(trimmed(raw@)),
            k <= len,
            forall|j: int| 0 <= j < k ==> (#[trigger] h@[j] as u32) < 128,
        decreases len - k,
    {
        if h.get_char(k) as u32 >= 128 {
            proof {
                assert(!ascii_only(h@));
            }
            return None;
        }
        k = k + 1;
    }
    proof {
        assert(ascii_only(h@));
    }
    let r = parse_hex_byte(h.get_char(0), h.get_char(1));
    let g = parse_hex_byte(h.get_char(2), h.get_char(3));
    let b = parse_hex_byte(h.get_char(4), h.get_char(5));
    match (r, g, b) {
        (Some(r), Some(g), Some(b)) => if len == 6 {
            Some(Rgba8 { r, g, b, a: 255 })
        } else {
            match parse_hex_byte(h.get_char(6), h.get_char(7)) {
                Some(a) => Some(Rgba8 { r, g, b, a }),
                None => None,
            }
        },
        _ => None,
    }
}

/// The screen edges the popup stack sticks to.
#[derive(Debug, Clone, Copy, PartialEq, Eq, Structural)]
pub struct Anchor {
    pub top: bool,
    pub bottom: bool,
    pub left: bool,
    pub right: bool,
}

/// The edges an anchor name stands for; top right for an unknown name.
pub open spec fn anchor_of(name: Seq<char>) -> Anchor {
    if name == "top-left"@ {
        Anchor { top: true, bottom: false, left: true, right: false }
    } else if name == "bottom-left"@ {
        Anchor { top: false, bottom: true, left: true, right: false }
    } else if name == "bottom-right"@ {
        Anchor { top: false, bottom: true, left: false, right: true }
    } else if name == "top"@ {
        Anchor { top: true, bottom: false, left: false, right: false }
    } else if name == "bottom"@ {
        Anchor { top: false, bottom: true, left: false, right: false }
    } else if name == "left"@ {
        Anchor { top: false, bottom: false, left: true, right: false }
    } else if name == "right"@ {
        Anchor { top: false, bottom: false, left: false, right: true }
    } else {
        Anchor { top: true, bottom: false, left: false, right: true }
    }
}

/// The edges an anchor name stands for.
pub fn layer_anchor_from_str(anchor: &str) -> (r: Anchor)
    ensures
        r == anchor_of(anchor@),
{
    if same_text(anchor, "top-left") {
        Anchor { top: true, bottom: false, left: true, right: false }
    } else if same_text(anchor, "bottom-left") {
        Anchor { top: false, bottom: true, left: true, right: false }
    } else if same_text(anchor, "bottom-right") {
        Anchor { top: false, bottom: true, left: false, right: true }
    } else if same_text(anchor, "top") {
        Anchor { top: true, bottom: false, left: false, right: false }
    } else if same_text(anchor, "bottom") {
        Anchor { top: false, bottom: true, left: false, right: false }
    } else if same_text(anchor, "left") {
        Anchor { top: false, bottom: false, left: true, right: false }
    } else if same_text(anchor, "right") {
        Anchor { top: false, bottom: false, left: false, right: true }
    } else {
        Anchor { top: true, bottom: false, left: false, right: true }
    }
}

/// The ASCII lower case of a character's code.
pub open spec fn folded(c: char) -> u32 {
    if 'A' <= c <= 'Z' {
        (c as u32 + 32) as u32
    } else {
        c as u32
    }
}

/// Whether `a` and `b` are equal up to ASCII case.
pub open spec fn same_ignoring_case(a: Seq<char>, b: Seq<char>) -> bool {
    a.len() == b.len() && forall|i: int| 0 <= i < a.len() ==> folded(#[trigger] a[i]) == folded(b[i])
}

/// Whether `a` and `b` are equal up to ASCII case.
pub fn eq_ignore_case(a: &str, b: &str) -> (r: bool)
    ensures
        r == same_ignoring_case(a@, b@),
{
    let n = a.unicode_len();
    if n != b.unicode_len() {
        return false;
    }
    let mut i: usize = 0;
    while i < n
        invariant
            n == a@.len(),
            n == b@.len(),
            i <= n,
            forall|j: int| 0 <= j < i ==> folded(#[trigger] a@[j]) == folded(b@[j]),
        decreases n - i,
    {
        let x = a.get_char(i);
        let y = b.get_char(i);
        let fx: u32 = if 'A' <= x && x <= 'Z' {
            x as u32 + 32
        } else {
            x as u32
        };
        let fy: u32 = if 'A' <= y && y <= 'Z' {
            y as u32 + 32
        } else {
            y as u32
        };
        if fx != fy {
            return false;
        }
        i = i + 1;
    }
    true
}

/// The output the popups appear on, as the settings choose it.
#[derive(Debug, Clone, PartialEq, Eq)]
pub enum OutputChoice {
    /// The output that has focus, as the configured command names it.
    Focused,
    /// The output this surface family used last.
    LastOutput,
    /// Whatever output the compositor picks.
    Default,
    /// The output with this name.
    Named(String),
}

/// The output choice an `output` setting names: `focused`, `last-output` (or
/// `last_output`), `any`, `none` or `default` in any ASCII case; a blank setting is the
/// default; anything else names an output.
pub open spec fn output_choice_of(output: Seq<char>, r: OutputChoice) -> bool {
    let t = trimmed(output);
    if same_ignoring_case(t, "focused"@) {
        r == OutputChoice::Focused
    } else if same_ignoring_case(t, "last-output"@) || same_ignoring_case(t, "last_output"@) {
        r == OutputChoice::LastOutput
    } else if same_ignoring_case(t, "any"@) || same_ignoring_case(t, "none"@)
        || same_ignoring_case(t, "default"@) || t.len() == 0 {
        r == OutputChoice::Default
    } else {
        r matches OutputChoice::Named(name) && name@ == t
    }
}

/// The output choice an `output` setting names.
pub fn output_choice(output: &str) -> (r: OutputChoice)
    ensures
        output_choice_of(output@, r),
{
    let t = trim(output);
    if eq_ignore_case(t, "focused") {
        OutputChoice::Focused
    } else if eq_ignore_case(t, "last-output") || eq_ignore_case(t, "last_output") {
        OutputChoice::LastOutput
    } else if eq_ignore_case(t, "any") || eq_ignore_case(t, "none") || eq_ignore_case(t, "default")
        || t.is_empty() {
        OutputChoice::Default
    } else {
        OutputChoice::Named(t.to_owned())
    }
}

/// The text before the first line break of `s`.
pub open spec fn first_line(s: Seq<char>) -> Seq<char>
    decreases s.len(),
{
    if s.len() == 0 || s[0] == '\n' {
        seq![]
    } else {
        seq![s[0]] + first_line(s.drop_first())
    }
}

/// The output name that a focused-output command printed: its first line, trimmed,
/// unless that is blank.
pub open spec fn focused_name(stdout: Seq<char>) -> Option<Seq<char>> {
    let name = trimmed(first_line(stdout));
    if name.len() == 0 {
        None
    } else {
        Some(name)
    }
}

/// The output name that a focused-output command printed.
pub fn focused_output_name(stdout: &str) -> (r: Option<String>)
    ensures
        match r {
            Some(name) => focused_name(stdout@) == Some(name@),
            None => focused_name(stdout@) is None,
        },
{
    let n = stdout.unicode_len();
    let mut i: usize = 0;
    proof {
        assert(stdout@.subrange(0, n as int) =~= stdout@);
        assert(stdout@.subrange(0, 0) + first_line(stdout@) =~= first_line(stdout@));
    }
    while i < n && stdout.get_char(i) != '\n'
        invariant
            n == stdout@.len(),
            i <= n,
            first_line(stdout@) == stdout@.subrange(0, i as int) + first_line(
                stdout@.subrange(i as int, n as int),
            ),
        decreases n - i,
    {
        proof {
            let rest = stdout@.subrange(i as int, n as int);
            assert(rest.drop_first() =~= stdout@.subrange(i + 1, n as int));
            assert(stdout@.subrange(0, i + 1) =~= stdout@.subrange(0, i as int) + seq![rest[0]]);
        }
        i = i + 1;
    }
    proof {
        let rest = stdout@.subrange(i as int, n as int);
        assert(first_line(rest) =~= Seq::<char>::empty());
        assert(stdout@.subrange(0, i as int) + Seq::<char>::empty() =~= stdout@.subrange(0, i as int));
    }
    let line = stdout.substring_char(0, i);
    let name = trim(line);
    if name.is_empty() {
        None
    } else {
        Some(name.to_owned())
    }
}

/// The output the popups are placed on, once a focused-output command has been run.
#[derive(Debug, Clone, PartialEq, Eq)]
pub enum OutputOption {
    /// Whatever output the compositor picks.
    Default,
    /// The output this surface family used last.
    LastOutput,
    /// The output with this name.
    OutputName(String),
}

/// The output option for an `output` setting, where `focused_stdout` is what the
/// focused-output command printed, if it ran: `focused` takes the name it printed, or
/// the compositor's choice where there is none.
pub open spec fn output_option_of(
    output: Seq<char>,
    focused_stdout: Option<Seq<char>>,
    r: OutputOption,
) -> bool {
    let t = trimmed(output);
    if same_ignoring_case(t, "focused"@) {
        match focused_stdout {
            Some(out) => match focused_name(out) {
                Some(name) => r matches OutputOption::OutputName(n) && n@ == name,
                None => r == OutputOption::Default,
            },
            None => r == OutputOption::Default,
        }
    } else if same_ignoring_case(t, "last-output"@) || same_ignoring_case(t, "last_output"@) {
        r == OutputOption::LastOutput
    } else if same_ignoring_case(t, "any"@) || same_ignoring_case(t, "none"@)
        || same_ignoring_case(t, "default"@) || t.len() == 0 {
        r == OutputOption::Default
    } else {
        r matches OutputOption::OutputName(n) && n@ == t
    }
}

/// The output option for an `output` setting and what the focused-output command
/// printed, if it ran.
pub fn output_option_from_config(output: &str, focused_stdout: Option<&str>) -> (r: OutputOption)
    ensures
        output_option_of(output@, opt_str(focused_stdout), r),
{
    match output_choice(output) {
        OutputChoice::Focused => match focused_stdout {
            Some(out) => match focused_output_name(out) {
                Some(name) => OutputOption::OutputName(name),
                None => OutputOption::Default,
            },
            None => OutputOption::Default,
        },
        OutputChoice::LastOutput => OutputOption::LastOutput,
        OutputChoice::Default => OutputOption::Default,
        OutputChoice::Named(name) => OutputOption::OutputName(name),
    }
}

/// The view of an optional string slice.
pub open spec fn opt_str(o: Option<&str>) -> Option<Seq<char>> {
    match o {
        Some(s) => Some(s@),
        None => None,
    }
}

} // verus!
