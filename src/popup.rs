//! What the popup renderer shows of a notification: the visible actions, the
//! timeout, the icon path, and how many lines a text wraps to.
use crate::text::{
    after_prefix, decimal, decimal_text, is_space, replace_all, replace_text, split_words,
    strip_prefix, trim, trimmed, views, words, words_from,
};
use crate::types::{Notification, NotificationAction, Urgency};
use vstd::prelude::*;

verus! {

/// An action button as the popup shows it.
#[derive(Debug, Clone, PartialEq, Eq)]
pub struct UiAction {
    pub key: String,
    pub label: String,
}

/// A notification as the popup shows it.
#[derive(Debug, Clone, PartialEq, Eq)]
pub struct UiNotification {
    pub id: u32,
    pub app_name: String,
    pub app_icon: String,
    pub summary: String,
    pub body: String,
    pub urgency: Urgency,
    pub actions: Vec<UiAction>,
    /// How long the popup stays, if it expires at all.
    pub timeout_ms: Option<u32>,
}

/// The popup's timeout for a requested timeout: none for `0`, the default (if any)
/// below `0`, the request itself above `0`; none unless positive.
pub open spec fn ui_timeout(requested: i32, default_ms: Option<i32>) -> Option<u32> {
    if requested == 0 {
        None
    } else {
        let effective = if requested < 0 {
            default_ms
        } else {
            Some(requested)
        };
        match effective {
            Some(ms) => if ms > 0 {
                Some(ms as u32)
            } else {
                None
            },
            None => None,
        }
    }
}

/// The popup's timeout for a requested timeout.
pub fn effective_timeout_ms(requested_timeout_ms: i32, default_timeout_ms: Option<i32>) -> (r:
    Option<u32>)
    ensures
        r == ui_timeout(requested_timeout_ms, default_timeout_ms),
{
    let effective = if requested_timeout_ms == 0 {
        return None;
    } else if requested_timeout_ms < 0 {
        match default_timeout_ms {
            Some(ms) => ms,
            None => {
                return None;
            },
        }
    } else {
        requested_timeout_ms
    };
    if effective > 0 {
        Some(effective as u32)
    } else {
        None
    }
}

/// Whether an action with this label gets a button: its label is not blank.
pub open spec fn shown_label(label: Seq<char>) -> bool {
    trimmed(label).len() > 0
}

/// The button for an action.
pub open spec fn as_ui(a: NotificationAction) -> UiAction {
    UiAction { key: a.key, label: a.label }
}

/// The actions that get a button, in order.
pub open spec fn shown_actions(v: Seq<NotificationAction>) -> Seq<UiAction>
    decreases v.len(),
{
    if v.len() == 0 {
        seq![]
    } else if shown_label(v.last().label@) {
        shown_actions(v.drop_last()).push(as_ui(v.last()))
    } else {
        shown_actions(v.drop_last())
    }
}

/// The button for an action, unless its label is blank.
pub fn to_ui_action(action: NotificationAction) -> (r: Option<UiAction>)
    ensures
        r == if shown_label(action.label@) {
            Some(as_ui(action))
        } else {
            None
        },
{
    if trim(action.label.as_str()).is_empty() {
        return None;
    }
    Some(UiAction { key: action.key, label: action.label })
}

/// The popup's view of a notification.
pub fn to_ui_notification(id: u32, notification: Notification, default_timeout_ms: Option<i32>) -> (r:
    UiNotification)
    ensures
        r.id == id,
        r.app_name == notification.app_name,
        r.app_icon == notification.app_icon,
        r.summary == notification.summary,
        r.body == notification.body,
        r.urgency == notification.urgency,
        r.actions@ == shown_actions(notification.actions@),
        r.timeout_ms == ui_timeout(notification.timeout_ms, default_timeout_ms),
{
    let timeout_ms = effective_timeout_ms(notification.timeout_ms, default_timeout_ms);
    let mut actions: Vec<UiAction> = Vec::new();
    let mut i: usize = 0;
    while i < notification.actions.len()
        invariant
            i <= notification.actions@.len(),
            actions@ == shown_actions(notification.actions@.subrange(0, i as int)),
        decreases notification.actions@.len() - i,
    {
        proof {
            assert(notification.actions@.subrange(0, i + 1).drop_last() =~= notification.actions@.subrange(
                0,
                i as int,
            ));
        }
        match to_ui_action(notification.actions[i].clone()) {
            Some(a) => actions.push(a),
            None => {},
        }
        i = i + 1;
    }
    proof {
        assert(notification.actions@.subrange(0, notification.actions@.len() as int)
            =~= notification.actions@);
    }
    UiNotification {
        id,
        app_name: notification.app_name,
        app_icon: notification.app_icon,
        summary: notification.summary,
        body: notification.body,
        urgency: notification.urgency,
        actions,
        timeout_ms,
    }
}

/// The icon path a notification names: none for a blank name, the path of a `file://`
/// URI, or the trimmed name itself.
pub open spec fn icon_path(raw: Seq<char>) -> Option<Seq<char>> {
    let t = trimmed(raw);
    if t.len() == 0 {
        None
    } else {
        match after_prefix(t, "file://"@) {
            Some(rest) => Some(rest),
            None => Some(t),
        }
    }
}

/// The icon path a notification names.
pub fn resolve_icon_path(raw: &str) -> (r: Option<String>)
    ensures
        match r {
            Some(p) => icon_path(raw@) == Some(p@),
            None => icon_path(raw@) is None,
        },
{
    let trimmed = trim(raw);
    if trimmed.is_empty() {
        return None;
    }
    match strip_prefix(trimmed, "file://") {
        Some(path) => Some(path.to_owned()),
        None => Some(trimmed.to_owned()),
    }
}

/// The name of an urgency level.
pub open spec fn urgency_name(urgency: Urgency) -> Seq<char> {
    match urgency {
        Urgency::Low => "low"@,
        Urgency::Normal => "normal"@,
        Urgency::Critical => "critical"@,
    }
}

/// The name of an urgency level.
pub fn urgency_label(urgency: Urgency) -> (r: &'static str)
    ensures
        r@ == urgency_name(urgency),
{
    match urgency {
        Urgency::Low => "low",
        Urgency::Normal => "normal",
        Urgency::Critical => "critical",
    }
}

/// A popup text: `format` with `{id}`, `{app_name}`, `{summary}`, `{body}` and
/// `{urgency}` replaced, in that order, by the notification's values.
pub open spec fn rendered(format: Seq<char>, n: UiNotification) -> Seq<char> {
    let with_id = replace_all(format, "{id}"@, decimal(n.id as nat));
    let with_app = replace_all(with_id, "{app_name}"@, n.app_name@);
    let with_summary = replace_all(with_app, "{summary}"@, n.summary@);
    let with_body = replace_all(with_summary, "{body}"@, n.body@);
    replace_all(with_body, "{urgency}"@, urgency_name(n.urgency))
}

/// Fills the placeholders of a popup text format.
pub fn render_format(format: &str, n: &UiNotification) -> (r: String)
    ensures
        r@ == rendered(format@, *n),
{
    proof {
        reveal_strlit("{id}");
        reveal_strlit("{app_name}");
        reveal_strlit("{summary}");
        reveal_strlit("{body}");
        reveal_strlit("{urgency}");
    }
    let id = decimal_text(n.id);
    let text = replace_text(format, "{id}", id.as_str());
    let text = replace_text(text.as_str(), "{app_name}", n.app_name.as_str());
    let text = replace_text(text.as_str(), "{summary}", n.summary.as_str());
    let text = replace_text(text.as_str(), "{body}", n.body.as_str());
    replace_text(text.as_str(), "{urgency}", urgency_label(n.urgency))
}

/// The layer-shell namespace of the popups.
pub fn namespace() -> (r: String)
    ensures
        r@ == "wispd"@,
{
    "wispd".to_owned()
}

/// The total length of the words `ws`.
pub open spec fn letters(ws: Seq<Seq<char>>) -> nat
    decreases ws.len(),
{
    if ws.len() == 0 {
        0
    } else {
        letters(ws.drop_last()) + ws.last().len()
    }
}

/// The length of the words `ws` with one separator after each.
pub open spec fn span(ws: Seq<Seq<char>>) -> nat {
    letters(ws) + ws.len()
}

/// `a / b` rounded up.
pub open spec fn ceil_div(a: nat, b: nat) -> nat {
    if a % b == 0 {
        a / b
    } else {
        a / b + 1
    }
}

/// Lines used and the width of the last line after one more word of `w` characters,
/// on lines of `max` characters; a word longer than a line is broken across lines.
pub open spec fn wrap_word(lines: nat, current: nat, w: nat, max: nat) -> (nat, nat) {
    if current == 0 {
        if w <= max {
            (lines, w)
        } else {
            ((lines + ceil_div(w, max) - 1) as nat, w % max)
        }
    } else if current + 1 + w <= max {
        (lines, current + 1 + w)
    } else if w <= max {
        (lines + 1, w)
    } else {
        ((lines + ceil_div(w, max)) as nat, w % max)
    }
}

/// Lines used and the width of the last line after the words `ws`.
pub open spec fn wrap_words(ws: Seq<Seq<char>>, max: nat) -> (nat, nat)
    decreases ws.len(),
{
    if ws.len() == 0 {
        (1, 0)
    } else {
        let prev = wrap_words(ws.drop_last(), max);
        wrap_word(prev.0, prev.1, ws.last().len(), max)
    }
}

/// The number of lines `line` takes on lines of `max` characters, words kept whole
/// where they fit.
pub open spec fn wrapped_lines(line: Seq<char>, max: nat) -> nat {
    if line.len() == 0 {
        1
    } else {
        wrap_words(words(line), max).0
    }
}

proof fn lemma_letters_concat(a: Seq<Seq<char>>, b: Seq<Seq<char>>)
    ensures
        letters(a + b) == letters(a) + letters(b),
    decreases b.len(),
{
    if b.len() == 0 {
        assert(a + b =~= a);
    } else {
        lemma_letters_concat(a, b.drop_last());
        assert((a + b).drop_last() =~= a + b.drop_last());
    }
}

proof fn lemma_words_from(s: Seq<char>, i: int, cur: Seq<char>)
    requires
        0 <= i <= s.len(),
    ensures
        span(words_from(s, i, cur)) <= s.len() - i + cur.len() + 1,
        forall|k: int|
            0 <= k < words_from(s, i, cur).len() ==> (#[trigger] words_from(s, i, cur)[k]).len()
                > 0,
    decreases s.len() - i,
{
    let ws = words_from(s, i, cur);
    if i >= s.len() {
        if cur.len() > 0 {
            assert(seq![cur].drop_last() =~= Seq::<Seq<char>>::empty());
            assert(letters(seq![cur]) == cur.len());
        }
    } else if is_space(s[i]) {
        lemma_words_from(s, i + 1, seq![]);
        let rest = words_from(s, i + 1, seq![]);
        if cur.len() > 0 {
            lemma_letters_concat(seq![cur], rest);
            assert(seq![cur].drop_last() =~= Seq::<Seq<char>>::empty());
            assert(letters(seq![cur].drop_last()) == 0);
            assert(letters(seq![cur]) == cur.len());
            assert(ws == seq![cur] + rest);
            assert forall|k: int| 0 <= k < ws.len() implies (#[trigger] ws[k]).len() > 0 by {
                if k > 0 {
                    assert(ws[k] == rest[k - 1]);
                }
            }
        }
    } else {
        lemma_words_from(s, i + 1, cur.push(s[i]));
    }
}

proof fn lemma_words(s: Seq<char>)
    ensures
        span(words(s)) <= s.len() + 1,
        forall|k: int| 0 <= k < words(s).len() ==> (#[trigger] words(s)[k]).len() > 0,
{
    lemma_words_from(s, 0, seq![]);
}

proof fn lemma_ceil_div(w: nat, max: nat)
    requires
        0 < max < w,
    ensures
        2 <= ceil_div(w, max) <= w,
{
    assert(w / max >= 1) by (nonlinear_arith)
        requires
            0 < max < w,
    ;
    assert(w / max <= w) by (nonlinear_arith)
        requires
            0 < max,
    ;
    if max == 1 {
        assert(w % max == 0);
        assert(w / max == w);
    } else {
        assert(w / max < w) by (nonlinear_arith)
            requires
                1 < max,
                0 < w,
        ;
    }
    if w % max == 0 {
        assert(w / max >= 2) by (nonlinear_arith)
            requires
                0 < max < w,
                w % max == 0,
        ;
    }
}

/// How many lines `line` takes on lines of `max_chars` characters: words are kept
/// whole where they fit and broken across lines where they are longer than a line.
pub fn wrapped_line_count(line: &str, max_chars: usize) -> (r: usize)
    requires
        max_chars > 0 || words(line@).len() == 0,
    ensures
        r == wrapped_lines(line@, max_chars as nat),
{
    if line.is_empty() {
        return 1;
    }
    let n = line.unicode_len();
    let ws = split_words(line);
    let ghost all = words(line@);
    proof {
        lemma_words(line@);
        assert(all.len() == ws@.len());
    }
    let mut lines: usize = 1;
    let mut current: usize = 0;
    let mut i: usize = 0;
    while i < ws.len()
        invariant
            n == line@.len(),
            views(ws@) == all,
            all == words(line@),
            all.len() == ws@.len(),
            max_chars > 0 || all.len() == 0,
            span(all) <= n + 1,
            forall|k: int| 0 <= k < all.len() ==> (#[trigger] all[k]).len() > 0,
            i <= all.len(),
            (lines as nat, current as nat) == wrap_words(all.take(i as int), max_chars as nat),
            i == 0 ==> lines == 1 && current == 0,
            i > 0 ==> lines <= letters(all.take(i as int)) && current + 1 <= span(
                all.take(i as int),
            ),
        decreases all.len() - i,
    {
        let word_len = ws[i].as_str().unicode_len();
        proof {
            assert(ws@[i as int]@ == all[i as int]);
            let next = all.take(i + 1);
            assert(next.drop_last() =~= all.take(i as int));
            assert(all =~= next + all.skip(i + 1));
            lemma_letters_concat(next, all.skip(i + 1));
            if word_len > max_chars {
                lemma_ceil_div(word_len as nat, max_chars as nat);
            }
        }
        if current == 0 {
            if word_len <= max_chars {
                current = word_len;
            } else {
                let up = if word_len % max_chars == 0 {
                    word_len / max_chars
                } else {
                    word_len / max_chars + 1
                };
                lines = lines + (up - 1);
                current = word_len % max_chars;
            }
        } else {
            let needed = 1 + word_len;
            if current + needed <= max_chars {
                current = current + needed;
            } else {
                lines = lines + 1;
                if word_len <= max_chars {
                    current = word_len;
                } else {
                    let up = if word_len % max_chars == 0 {
                        word_len / max_chars
                    } else {
                        word_len / max_chars + 1
                    };
                    lines = lines + (up - 1);
                    current = word_len % max_chars;
                }
            }
        }
        i = i + 1;
    }
    proof {
        assert(all.take(all.len() as int) =~= all);
    }
    lines
}

} // verus!
