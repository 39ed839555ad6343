//! Passive monitoring of notifications traffic: match rules and the classification
//! of observed messages.
use crate::text::same_text;
use crate::wire::Hint;
use vstd::prelude::*;
use vstd::string::StringExecFns;

verus! {

/// Bus name of the message bus itself.
pub const DBUS_NAME: &'static str = "org.freedesktop.DBus";

/// Object path of the message bus itself.
pub const DBUS_PATH: &'static str = "/org/freedesktop/DBus";

/// Interface through which a connection becomes a monitor.
pub const DBUS_MONITORING_IFACE: &'static str = "org.freedesktop.DBus.Monitoring";

/// The freedesktop notifications interface.
pub const NOTIFY_IFACE: &'static str = "org.freedesktop.Notifications";

/// An observed `Notify` call.
#[derive(Debug, Clone)]
pub struct NotifyCall {
    pub app_name: String,
    pub replaces_id: u32,
    pub summary: String,
    pub body: String,
    pub actions: Vec<String>,
    pub hints: Vec<Hint>,
    pub expire_timeout: i32,
}

/// An observed message of the notifications interface.
#[derive(Debug, Clone)]
pub enum NotificationMessage {
    Notify(NotifyCall),
    CloseNotification { id: u32 },
    NotificationClosed { id: u32, reason: u32 },
    ActionInvoked { id: u32, action_key: String },
}

/// The type of an observed bus message.
#[derive(Debug, Clone, Copy, PartialEq, Eq, Structural)]
pub enum MessageKind {
    MethodCall,
    MethodReturn,
    Error,
    Signal,
}

/// Which message of the notifications interface an observed message is.
#[derive(Debug, Clone, Copy, PartialEq, Eq, Structural)]
pub enum MessageTag {
    Notify,
    CloseNotification,
    NotificationClosed,
    ActionInvoked,
}

/// The tag of a message with the given interface, type and member: only messages of
/// the notifications interface have one.
pub open spec fn tag_of(interface: Option<Seq<char>>, kind: MessageKind, member: Option<Seq<char>>) -> Option<
    MessageTag,
> {
    if interface != Some(NOTIFY_IFACE@) {
        None
    } else {
        match (kind, member) {
            (MessageKind::MethodCall, Some(m)) => if m == "Notify"@ {
                Some(MessageTag::Notify)
            } else if m == "CloseNotification"@ {
                Some(MessageTag::CloseNotification)
            } else {
                None
            },
            (MessageKind::Signal, Some(m)) => if m == "NotificationClosed"@ {
                Some(MessageTag::NotificationClosed)
            } else if m == "ActionInvoked"@ {
                Some(MessageTag::ActionInvoked)
            } else {
                None
            },
            _ => None,
        }
    }
}

/// The view of an optional string slice.
pub open spec fn opt_str_view(o: Option<&str>) -> Option<Seq<char>> {
    match o {
        Some(s) => Some(s@),
        None => None,
    }
}

/// Which message of the notifications interface an observed message is, if any.
pub fn classify_message(interface: Option<&str>, kind: MessageKind, member: Option<&str>) -> (r:
    Option<MessageTag>)
    ensures
        r == tag_of(opt_str_view(interface), kind, opt_str_view(member)),
{
    let in_iface = match interface {
        Some(i) => same_text(i, NOTIFY_IFACE),
        None => false,
    };
    if !in_iface {
        return None;
    }
    let m = match member {
        Some(m) => m,
        None => {
            return None;
        },
    };
    match kind {
        MessageKind::MethodCall => if same_text(m, "Notify") {
            Some(MessageTag::Notify)
        } else if same_text(m, "CloseNotification") {
            Some(MessageTag::CloseNotification)
        } else {
            None
        },
        MessageKind::Signal => if same_text(m, "NotificationClosed") {
            Some(MessageTag::NotificationClosed)
        } else if same_text(m, "ActionInvoked") {
            Some(MessageTag::ActionInvoked)
        } else {
            None
        },
        _ => None,
    }
}

/// `type='<kind>',interface='<NOTIFY_IFACE>'` followed by `tail`.
pub open spec fn rule_text(kind: Seq<char>, tail: Seq<char>) -> Seq<char> {
    "type='"@ + kind + "',interface='"@ + NOTIFY_IFACE@ + "'"@ + tail
}

fn rule(kind: &str, tail: &str) -> (r: String)
    ensures
        r@ == rule_text(kind@, tail@),
{
    let mut r = "type='".to_owned();
    r.append(kind);
    r.append("',interface='");
    r.append(NOTIFY_IFACE);
    r.append("'");
    r.append(tail);
    r
}

/// Match rules for every method call and signal of the notifications interface.
pub fn rules_all_notifications() -> (r: Vec<String>)
    ensures
        r@.len() == 2,
        r@[0]@ == rule_text("method_call"@, ""@),
        r@[1]@ == rule_text("signal"@, ""@),
{
    vec![rule("method_call", ""), rule("signal", "")]
}

/// A match rule for `Notify` calls only.
pub fn rules_notify_only() -> (r: Vec<String>)
    ensures
        r@.len() == 1,
        r@[0]@ == rule_text("method_call"@, ",member='Notify'"@),
{
    vec![rule("method_call", ",member='Notify'")]
}

} // verus!
