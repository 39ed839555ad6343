//! Record types shared by the notification source and its consumers.
use vstd::prelude::*;

verus! {

/// Notification urgency level as defined by freedesktop notifications.
#[derive(Debug, Clone, Copy, PartialEq, Eq, Structural)]
pub enum Urgency {
    /// Low-priority notification.
    Low,
    /// Normal-priority notification.
    Normal,
    /// Critical notification.
    Critical,
}

impl Default for Urgency {
    fn default() -> (r: Self)
        ensures
            r == Urgency::Normal,
    {
        Urgency::Normal
    }
}

/// Reason why a notification was closed.
#[derive(Debug, Clone, Copy, PartialEq, Eq, Structural)]
pub enum CloseReason {
    /// Notification timed out and expired.
    Expired,
    /// Notification was dismissed (for example by user interaction).
    Dismissed,
    /// Notification was closed by a direct close call.
    ClosedByCall,
    /// Unknown/unspecified reason.
    Undefined,
}

/// The code that the bus carries for a close reason.
pub open spec fn reason_code(reason: CloseReason) -> u32 {
    match reason {
        CloseReason::Expired => 1,
        CloseReason::Dismissed => 2,
        CloseReason::ClosedByCall => 3,
        CloseReason::Undefined => 4,
    }
}

/// The code that the bus carries for a close reason.
pub fn close_reason_code(reason: CloseReason) -> (r: u32)
    ensures
        r == reason_code(reason),
{
    match reason {
        CloseReason::Expired => 1,
        CloseReason::Dismissed => 2,
        CloseReason::ClosedByCall => 3,
        CloseReason::Undefined => 4,
    }
}

/// An actionable button attached to a notification.
#[derive(Debug, PartialEq, Eq)]
pub struct NotificationAction {
    /// Stable action identifier used by clients.
    pub key: String,
    /// Human-readable label shown in UI.
    pub label: String,
}

impl Clone for NotificationAction {
    fn clone(&self) -> (r: Self)
        ensures
            r == *self,
    {
        NotificationAction { key: self.key.clone(), label: self.label.clone() }
    }
}

impl View for NotificationAction {
    type V = (Seq<char>, Seq<char>);

    open spec fn view(&self) -> (Seq<char>, Seq<char>) {
        (self.key@, self.label@)
    }
}

/// The views of a sequence of string pairs.
pub open spec fn pair_views(v: Seq<(String, String)>) -> Seq<(Seq<char>, Seq<char>)> {
    v.map_values(|p: (String, String)| (p.0@, p.1@))
}

/// The view of an optional string.
pub open spec fn opt_view(o: Option<String>) -> Option<Seq<char>> {
    match o {
        Some(s) => Some(s@),
        None => None,
    }
}

/// Parsed/normalized hint fields from the freedesktop `hints` map.
#[derive(Debug, PartialEq, Eq)]
pub struct NotificationHints {
    /// Notification category (e.g. `email.arrived`).
    pub category: Option<String>,
    /// Desktop entry identifier for matching app metadata.
    pub desktop_entry: Option<String>,
    /// Whether this is marked transient by sender.
    pub transient: Option<bool>,
    /// Unrecognized hints with their values rendered as text, in the order received.
    pub extra: Vec<(String, String)>,
}

/// What a `NotificationHints` holds, as plain values.
pub struct HintsModel {
    pub category: Option<Seq<char>>,
    pub desktop_entry: Option<Seq<char>>,
    pub transient: Option<bool>,
    pub extra: Seq<(Seq<char>, Seq<char>)>,
}

impl View for NotificationHints {
    type V = HintsModel;

    open spec fn view(&self) -> HintsModel {
        HintsModel {
            category: opt_view(self.category),
            desktop_entry: opt_view(self.desktop_entry),
            transient: self.transient,
            extra: pair_views(self.extra@),
        }
    }
}

fn clone_opt_string(o: &Option<String>) -> (r: Option<String>)
    ensures
        opt_view(r) == opt_view(*o),
{
    match o {
        Some(s) => Some(s.clone()),
        None => None,
    }
}

fn clone_pairs(v: &Vec<(String, String)>) -> (r: Vec<(String, String)>)
    ensures
        pair_views(r@) == pair_views(v@),
{
    let mut r: Vec<(String, String)> = Vec::new();
    let mut i: usize = 0;
    while i < v.len()
        invariant
            i <= v@.len(),
            r@.len() == i,
            forall|j: int| 0 <= j < i ==> (#[trigger] r@[j]).0@ == v@[j].0@ && r@[j].1@ == v@[j].1@,
        decreases v@.len() - i,
    {
        let k = v[i].0.clone();
        let x = v[i].1.clone();
        r.push((k, x));
        i = i + 1;
    }
    proof {
        assert(pair_views(r@) =~= pair_views(v@));
    }
    r
}

impl Clone for NotificationHints {
    fn clone(&self) -> (r: Self)
        ensures
            r@ == self@,
    {
        NotificationHints {
            category: clone_opt_string(&self.category),
            desktop_entry: clone_opt_string(&self.desktop_entry),
            transient: self.transient,
            extra: clone_pairs(&self.extra),
        }
    }
}

impl Default for NotificationHints {
    fn default() -> (r: Self)
        ensures
            r@.category is None,
            r@.desktop_entry is None,
            r@.transient is None,
            r@.extra.len() == 0,
    {
        NotificationHints { category: None, desktop_entry: None, transient: None, extra: Vec::new() }
    }
}

/// Normalized notification data used by `wisp` components.
#[derive(Debug, PartialEq, Eq)]
pub struct Notification {
    /// Name of the sending application.
    pub app_name: String,
    /// App icon name/path from sender.
    pub app_icon: String,
    /// Notification title/summary.
    pub summary: String,
    /// Notification body text.
    pub body: String,
    /// Notification urgency.
    pub urgency: Urgency,
    /// Requested timeout in milliseconds: `0` never expires, below `0` asks for the
    /// server's default.
    pub timeout_ms: i32,
    /// Declared actions for this notification.
    pub actions: Vec<NotificationAction>,
    /// Parsed notification hints.
    pub hints: NotificationHints,
}

/// What a `Notification` holds, as plain values.
pub struct NotificationModel {
    pub app_name: Seq<char>,
    pub app_icon: Seq<char>,
    pub summary: Seq<char>,
    pub body: Seq<char>,
    pub urgency: Urgency,
    pub timeout_ms: i32,
    pub actions: Seq<(Seq<char>, Seq<char>)>,
    pub hints: HintsModel,
}

/// The views of a sequence of actions.
pub open spec fn action_views(v: Seq<NotificationAction>) -> Seq<(Seq<char>, Seq<char>)> {
    v.map_values(|a: NotificationAction| a@)
}

impl View for Notification {
    type V = NotificationModel;

    open spec fn view(&self) -> NotificationModel {
        NotificationModel {
            app_name: self.app_name@,
            app_icon: self.app_icon@,
            summary: self.summary@,
            body: self.body@,
            urgency: self.urgency,
            timeout_ms: self.timeout_ms,
            actions: action_views(self.actions@),
            hints: self.hints@,
        }
    }
}

impl Notification {
    /// Whether one of the declared actions has the key `key`.
    pub open spec fn has_action(&self, key: Seq<char>) -> bool {
        exists|i: int| 0 <= i < self.actions@.len() && (#[trigger] self.actions@[i]).key@ == key
    }
}

impl Clone for Notification {
    fn clone(&self) -> (r: Self)
        ensures
            r@ == self@,
    {
        let actions = self.actions.clone();
        proof {
            assert(action_views(actions@) =~= action_views(self.actions@));
        }
        Notification {
            app_name: self.app_name.clone(),
            app_icon: self.app_icon.clone(),
            summary: self.summary.clone(),
            body: self.body.clone(),
            urgency: self.urgency,
            timeout_ms: self.timeout_ms,
            actions,
            hints: self.hints.clone(),
        }
    }
}

impl Default for Notification {
    fn default() -> (r: Self)
        ensures
            r@.app_name.len() == 0,
            r@.app_icon.len() == 0,
            r@.summary.len() == 0,
            r@.body.len() == 0,
            r@.urgency == Urgency::Normal,
            r@.timeout_ms == 0,
            r@.actions.len() == 0,
            r@.hints.category is None,
            r@.hints.desktop_entry is None,
            r@.hints.transient is None,
            r@.hints.extra.len() == 0,
    {
        Notification {
            app_name: String::new(),
            app_icon: String::new(),
            summary: String::new(),
            body: String::new(),
            urgency: Urgency::Normal,
            timeout_ms: 0,
            actions: Vec::new(),
            hints: NotificationHints::default(),
        }
    }
}

/// Event emitted by the source daemon lifecycle.
#[derive(Debug, Clone, PartialEq, Eq)]
pub enum NotificationEvent {
    /// A new notification was received.
    Received {
        /// Notification id allocated by the source.
        id: u32,
        /// Notification payload.
        notification: Box<Notification>,
    },
    /// A notification was closed.
    Closed {
        /// Closed notification id.
        id: u32,
        /// Closure reason.
        reason: CloseReason,
    },
    /// A notification action was invoked.
    ActionInvoked {
        /// Notification id for which action was triggered.
        id: u32,
        /// Invoked action key.
        action_key: String,
    },
    /// An existing notification was replaced in-place.
    Replaced {
        /// Notification id that was replaced.
        id: u32,
        /// Previous notification payload.
        previous: Box<Notification>,
        /// New notification payload.
        current: Box<Notification>,
    },
}

impl NotificationEvent {
    /// The notification id the event is about.
    pub open spec fn event_id(&self) -> u32 {
        match self {
            NotificationEvent::Received { id, .. } => *id,
            NotificationEvent::Closed { id, .. } => *id,
            NotificationEvent::ActionInvoked { id, .. } => *id,
            NotificationEvent::Replaced { id, .. } => *id,
        }
    }
}

} // verus!
