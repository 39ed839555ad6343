//! Reading the arguments of a `Notify` call, as the bus delivers them, into a
//! [`Notification`].
use crate::text::same_text;
use crate::types::{
    opt_view, pair_views, HintsModel, Notification, NotificationAction, NotificationHints,
    Urgency,
};
use vstd::prelude::*;

verus! {

/// The part of a hint's variant value that the source reads.
#[derive(Debug, Clone, PartialEq, Eq)]
pub enum HintValue {
    /// A byte (`y`).
    Byte(u8),
    /// A string (`s`).
    Text(String),
    /// A boolean (`b`).
    Flag(bool),
    /// Any other type.
    Other,
}

/// One entry of the `hints` mapping of a `Notify` call.
#[derive(Debug, Clone, PartialEq, Eq)]
pub struct Hint {
    /// The hint's key.
    pub key: String,
    /// Its value, where it is of a type the source reads.
    pub value: HintValue,
    /// Its value rendered as text, kept for hints the source does not know.
    pub rendered: String,
}

/// The value of the first hint with key `key`.
pub open spec fn find_hint(hints: Seq<Hint>, key: Seq<char>) -> Option<HintValue>
    decreases hints.len(),
{
    if hints.len() == 0 {
        None
    } else if hints[0].key@ == key {
        Some(hints[0].value)
    } else {
        find_hint(hints.drop_first(), key)
    }
}

/// Urgency from the `urgency` byte: 0 is low, 2 is critical, anything else or none is
/// normal.
pub open spec fn urgency_of(hints: Seq<Hint>) -> Urgency {
    match find_hint(hints, "urgency"@) {
        Some(HintValue::Byte(b)) => if b == 0 {
            Urgency::Low
        } else if b == 2 {
            Urgency::Critical
        } else {
            Urgency::Normal
        },
        _ => Urgency::Normal,
    }
}

/// The string under `key`, if that hint is a string.
pub open spec fn text_hint(hints: Seq<Hint>, key: Seq<char>) -> Option<Seq<char>> {
    match find_hint(hints, key) {
        Some(HintValue::Text(s)) => Some(s@),
        _ => None,
    }
}

/// The boolean under `key`, if that hint is a boolean.
pub open spec fn flag_hint(hints: Seq<Hint>, key: Seq<char>) -> Option<bool> {
    match find_hint(hints, key) {
        Some(HintValue::Flag(b)) => Some(b),
        _ => None,
    }
}

/// Whether the source reads the hint `key` itself.
pub open spec fn is_known_hint(key: Seq<char>) -> bool {
    key == "urgency"@ || key == "category"@ || key == "desktop-entry"@ || key == "transient"@
}

/// The hints the source does not read, with their rendered values, in order.
pub open spec fn extra_of(hints: Seq<Hint>) -> Seq<(Seq<char>, Seq<char>)>
    decreases hints.len(),
{
    if hints.len() == 0 {
        seq![]
    } else if is_known_hint(hints.last().key@) {
        extra_of(hints.drop_last())
    } else {
        extra_of(hints.drop_last()).push((hints.last().key@, hints.last().rendered@))
    }
}

/// Whether no two hints share a key, as in the mapping the bus delivers.
pub open spec fn keys_distinct(hints: Seq<Hint>) -> bool {
    forall|i: int, j: int| 0 <= i < j < hints.len() ==> hints[i].key@ != hints[j].key@
}

/// Whether no two pairs share a key.
pub open spec fn pair_keys_distinct(pairs: Seq<(Seq<char>, Seq<char>)>) -> bool {
    forall|i: int, j: int| 0 <= i < j < pairs.len() ==> pairs[i].0 != pairs[j].0
}

proof fn lemma_extra_keys(hints: Seq<Hint>)
    ensures
        forall|j: int|
            0 <= j < extra_of(hints).len() ==> exists|i: int|
                0 <= i < hints.len() && hints[i].key@ == (#[trigger] extra_of(hints)[j]).0,
        keys_distinct(hints) ==> pair_keys_distinct(extra_of(hints)),
    decreases hints.len(),
{
    if hints.len() > 0 {
        let init = hints.drop_last();
        lemma_extra_keys(init);
        let e = extra_of(hints);
        let e0 = extra_of(init);
        assert forall|j: int| 0 <= j < e.len() implies exists|i: int|
            0 <= i < hints.len() && hints[i].key@ == (#[trigger] e[j]).0 by {
            if j < e0.len() {
                let i = choose|i: int| 0 <= i < init.len() && init[i].key@ == e0[j].0;
                assert(hints[i] == init[i]);
            } else {
                assert(hints[hints.len() - 1] == hints.last());
            }
        }
        if keys_distinct(hints) {
            assert(keys_distinct(init)) by {
                assert forall|i: int, j: int| 0 <= i < j < init.len() implies init[i].key@
                    != init[j].key@ by {
                    assert(init[i] == hints[i] && init[j] == hints[j]);
                }
            }
            if !is_known_hint(hints.last().key@) {
                assert forall|j: int| 0 <= j < e0.len() implies e0[j].0 != hints.last().key@ by {
                    let i = choose|i: int| 0 <= i < init.len() && init[i].key@ == e0[j].0;
                    assert(init[i] == hints[i]);
                    assert(hints.last() == hints[hints.len() - 1]);
                }
            }
        }
    }
}

/// The parsed hints of a `Notify` call.
pub open spec fn hints_of(hints: Seq<Hint>) -> HintsModel {
    HintsModel {
        category: text_hint(hints, "category"@),
        desktop_entry: text_hint(hints, "desktop-entry"@),
        transient: flag_hint(hints, "transient"@),
        extra: extra_of(hints),
    }
}

/// The value of the first hint with key `key`.
pub fn find_hint_value<'a>(hints: &'a Vec<Hint>, key: &str) -> (r: Option<&'a HintValue>)
    ensures
        match r {
            Some(v) => find_hint(hints@, key@) == Some(*v),
            None => find_hint(hints@, key@) is None,
        },
{
    let mut i: usize = 0;
    proof {
        assert(hints@.subrange(0, hints@.len() as int) =~= hints@);
    }
    while i < hints.len()
        invariant
            i <= hints@.len(),
            find_hint(hints@, key@) == find_hint(hints@.subrange(i as int, hints@.len() as int), key@),
        decreases hints@.len() - i,
    {
        let ghost rest = hints@.subrange(i as int, hints@.len() as int);
        if same_text(hints[i].key.as_str(), key) {
            return Some(&hints[i].value);
        }
        proof {
            assert(rest.drop_first() =~= hints@.subrange(i + 1, hints@.len() as int));
        }
        i = i + 1;
    }
    None
}

/// Urgency from the `urgency` hint.
pub fn urgency_from_hints(hints: &Vec<Hint>) -> (r: Urgency)
    ensures
        r == urgency_of(hints@),
{
    match find_hint_value(hints, "urgency") {
        Some(HintValue::Byte(b)) => if *b == 0 {
            Urgency::Low
        } else if *b == 2 {
            Urgency::Critical
        } else {
            Urgency::Normal
        },
        _ => Urgency::Normal,
    }
}

fn text_hint_value(hints: &Vec<Hint>, key: &str) -> (r: Option<String>)
    ensures
        opt_view(r) == text_hint(hints@, key@),
{
    match find_hint_value(hints, key) {
        Some(HintValue::Text(s)) => Some(s.clone()),
        _ => None,
    }
}

fn known_hint(key: &str) -> (r: bool)
    ensures
        r == is_known_hint(key@),
{
    same_text(key, "urgency") || same_text(key, "category") || same_text(key, "desktop-entry")
        || same_text(key, "transient")
}

/// Splits the hints of a `Notify` call into the urgency and the parsed hints: the
/// well-known keys are read where their values have the expected type, and every other
/// hint is kept with its rendered value.
pub fn parse_hints(hints: &Vec<Hint>) -> (r: (Urgency, NotificationHints))
    ensures
        r.0 == urgency_of(hints@),
        r.1@ == hints_of(hints@),
        keys_distinct(hints@) ==> pair_keys_distinct(r.1@.extra),
{
    proof {
        lemma_extra_keys(hints@);
    }
    let urgency = urgency_from_hints(hints);
    let category = text_hint_value(hints, "category");
    let desktop_entry = text_hint_value(hints, "desktop-entry");
    let transient = match find_hint_value(hints, "transient") {
        Some(HintValue::Flag(b)) => Some(*b),
        _ => None,
    };
    let mut extra: Vec<(String, String)> = Vec::new();
    let mut i: usize = 0;
    while i < hints.len()
        invariant
            i <= hints@.len(),
            pair_views(extra@) == extra_of(hints@.subrange(0, i as int)),
        decreases hints@.len() - i,
    {
        proof {
            assert(hints@.subrange(0, i + 1).drop_last() =~= hints@.subrange(0, i as int));
        }
        if !known_hint(hints[i].key.as_str()) {
            extra.push((hints[i].key.clone(), hints[i].rendered.clone()));
            proof {
                assert(pair_views(extra@) =~= extra_of(hints@.subrange(0, i + 1)));
            }
        }
        i = i + 1;
    }
    proof {
        assert(hints@.subrange(0, hints@.len() as int) =~= hints@);
    }
    (urgency, NotificationHints { category, desktop_entry, transient, extra })
}

/// Reads the flat `actions` argument in aligned pairs `[key, label, key, label, …]`; an
/// odd trailing element is dropped.
pub fn parse_actions(flat_actions: Vec<String>) -> (r: Vec<NotificationAction>)
    ensures
        r@.len() == flat_actions@.len() / 2,
        forall|i: int|
            0 <= i < r@.len() ==> (#[trigger] r@[i]).key == flat_actions@[2 * i] && r@[i].label
                == flat_actions@[2 * i + 1],
{
    let mut r: Vec<NotificationAction> = Vec::new();
    let mut k: usize = 0;
    while k + 1 < flat_actions.len()
        invariant
            k <= flat_actions@.len(),
            k == 2 * r@.len(),
            forall|j: int|
                0 <= j < r@.len() ==> (#[trigger] r@[j]).key == flat_actions@[2 * j] && r@[j].label
                    == flat_actions@[2 * j + 1],
        decreases flat_actions@.len() - k,
    {
        let key = flat_actions[k].clone();
        let label = flat_actions[k + 1].clone();
        r.push(NotificationAction { key, label });
        k = k + 2;
    }
    r
}

/// The notification that a `Notify` call describes.
pub fn notification_from_wire(
    app_name: String,
    app_icon: String,
    summary: String,
    body: String,
    actions: Vec<String>,
    hints: &Vec<Hint>,
    expire_timeout: i32,
) -> (r: Notification)
    ensures
        r.app_name == app_name,
        r.app_icon == app_icon,
        r.summary == summary,
        r.body == body,
        r.urgency == urgency_of(hints@),
        r.timeout_ms == expire_timeout,
        r.actions@.len() == actions@.len() / 2,
        forall|i: int|
            0 <= i < r.actions@.len() ==> (#[trigger] r.actions@[i]).key == actions@[2 * i]
                && r.actions@[i].label == actions@[2 * i + 1],
        r.hints@ == hints_of(hints@),
        keys_distinct(hints@) ==> pair_keys_distinct(r.hints@.extra),
{
    let (urgency, parsed) = parse_hints(hints);
    Notification {
        app_name,
        app_icon,
        summary,
        body,
        urgency,
        timeout_ms: expire_timeout,
        actions: parse_actions(actions),
        hints: parsed,
    }
}

} // verus!
