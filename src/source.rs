//! The notification source: store, id allocator, expiration rule and the
//! close/action state machine, with the effects each operation asks its runtime
//! to carry out.
use crate::store::{bump, bump_id, ids_fit, NotificationStore, StoredNotification};
use crate::text::same_text;
use crate::types::{
    close_reason_code, reason_code, CloseReason, Notification, NotificationEvent,
    NotificationModel,
};
use vstd::prelude::*;

verus! {

/// Default freedesktop notification bus name.
pub const DEFAULT_DBUS_NAME: &'static str = "org.freedesktop.Notifications";

/// Default freedesktop notification object path.
pub const DEFAULT_DBUS_PATH: &'static str = "/org/freedesktop/Notifications";

/// Freedesktop notifications D-Bus interface name.
pub const DBUS_INTERFACE: &'static str = "org.freedesktop.Notifications";

/// Server name and vendor reported by default.
pub const DEFAULT_SERVER_NAME: &'static str = "wispd";

/// Server version reported by default.
pub const DEFAULT_SERVER_VERSION: &'static str = "0.1.0";

/// Version of the notifications specification that is implemented.
pub const SPEC_VERSION: &'static str = "1.2";

/// Capacity of the event channel by default.
pub const DEFAULT_CHANNEL_CAPACITY: usize = 256;

/// Timeout used by default for clients that ask for the server's default.
pub const DEFAULT_TIMEOUT_MS: i32 = 5000;

/// Configuration for [`WispSource`].
#[derive(Debug, Clone)]
pub struct SourceConfig {
    /// Capabilities returned by `GetCapabilities`.
    pub capabilities: Vec<String>,
    /// Capacity of the internal notification event channel.
    pub channel_capacity: usize,
    /// D-Bus name to own.
    pub dbus_name: String,
    /// D-Bus object path to serve.
    pub dbus_path: String,
    /// Server name returned by `GetServerInformation`.
    pub server_name: String,
    /// Server vendor returned by `GetServerInformation`.
    pub server_vendor: String,
    /// Server version returned by `GetServerInformation`.
    pub server_version: String,
    /// Spec version returned by `GetServerInformation`.
    pub spec_version: String,
    /// Default timeout used when incoming timeout is negative.
    pub default_timeout_ms: i32,
}

impl Default for SourceConfig {
    fn default() -> (r: Self)
        ensures
            r.capabilities@.len() == 1,
            r.capabilities@[0]@ == "body"@,
            r.channel_capacity == DEFAULT_CHANNEL_CAPACITY,
            r.dbus_name@ == DEFAULT_DBUS_NAME@,
            r.dbus_path@ == DEFAULT_DBUS_PATH@,
            r.server_name@ == DEFAULT_SERVER_NAME@,
            r.server_vendor@ == DEFAULT_SERVER_NAME@,
            r.server_version@ == DEFAULT_SERVER_VERSION@,
            r.spec_version@ == SPEC_VERSION@,
            r.default_timeout_ms == DEFAULT_TIMEOUT_MS,
    {
        SourceConfig {
            capabilities: vec!["body".to_owned()],
            channel_capacity: DEFAULT_CHANNEL_CAPACITY,
            dbus_name: DEFAULT_DBUS_NAME.to_owned(),
            dbus_path: DEFAULT_DBUS_PATH.to_owned(),
            server_name: DEFAULT_SERVER_NAME.to_owned(),
            server_vendor: DEFAULT_SERVER_NAME.to_owned(),
            server_version: DEFAULT_SERVER_VERSION.to_owned(),
            spec_version: SPEC_VERSION.to_owned(),
            default_timeout_ms: DEFAULT_TIMEOUT_MS,
        }
    }
}

/// Errors produced by source runtime operations.
#[derive(Debug, Clone, Copy, PartialEq, Eq, Structural)]
pub enum SourceError {
    /// Event receiver dropped and source can no longer publish events.
    EventChannelClosed,
    /// The id allocator has stopped at `u32::MAX` and that id is still live.
    IdsExhausted,
}

/// A signal that the bus adapter emits on the source's behalf.
#[derive(Debug, Clone, PartialEq, Eq)]
pub enum BusSignal {
    /// `NotificationClosed(id, reason_code)`.
    NotificationClosed { id: u32, reason: u32 },
    /// `ActionInvoked(id, key)`.
    ActionInvoked { id: u32, action_key: String },
}

/// Work that an operation leaves to the runtime, to be carried out in order once the
/// store is no longer borrowed.
#[derive(Debug, Clone, PartialEq, Eq)]
pub enum Effect {
    /// Send the event on the event channel.
    Emit(NotificationEvent),
    /// Emit the signal on the bus.
    Signal(BusSignal),
    /// After `after_ms` milliseconds, call `expire_if_current(id, generation)`.
    ScheduleExpiry { id: u32, generation: u64, after_ms: u64 },
}

/// What became of an event handed to the bounded event channel.
#[derive(Debug, Clone, Copy, PartialEq, Eq, Structural)]
pub enum SendOutcome {
    /// The event was queued.
    Delivered,
    /// The queue was full and the event was dropped.
    QueueFull,
    /// The receiver is gone.
    ReceiverGone,
}

/// The channel's send policy: a full queue drops the event and still succeeds; a
/// missing receiver is an error.
pub fn delivery_result(outcome: SendOutcome) -> (r: Result<(), SourceError>)
    ensures
        r == (match outcome {
            SendOutcome::ReceiverGone => Err(SourceError::EventChannelClosed),
            _ => Ok::<(), SourceError>(()),
        }),
{
    match outcome {
        SendOutcome::Delivered => Ok(()),
        SendOutcome::QueueFull => Ok(()),
        SendOutcome::ReceiverGone => Err(SourceError::EventChannelClosed),
    }
}

/// What a [`WispSource`] holds, as plain values.
pub struct SourceModel {
    /// Live notifications by id.
    pub live: Map<u32, StoredNotification>,
    /// The id the allocator hands out next.
    pub next_id: u32,
    /// The configured default timeout.
    pub default_timeout_ms: i32,
}

impl SourceModel {
    pub open spec fn wf(self) -> bool {
        ids_fit(self.live, self.next_id)
    }

    /// The same state without the notification `id`.
    pub open spec fn without(self, id: u32) -> SourceModel {
        SourceModel { live: self.live.remove(id), ..self }
    }
}

/// The timeout after which a notification expires: none for `0`, the configured
/// default below `0`, the request itself above `0`; none unless positive.
pub open spec fn effective_timeout(requested: i32, default_ms: i32) -> Option<u64> {
    if requested == 0 {
        None
    } else {
        let ms = if requested < 0 {
            default_ms
        } else {
            requested
        };
        if ms > 0 {
            Some(ms as u64)
        } else {
            None
        }
    }
}

/// The expiration timer scheduled for `(id, generation)`, if the timeout asks for one.
pub open spec fn expiry_effects(id: u32, generation: u64, requested: i32, default_ms: i32) -> Seq<
    Effect,
> {
    match effective_timeout(requested, default_ms) {
        Some(ms) => seq![Effect::ScheduleExpiry { id, generation, after_ms: ms }],
        None => seq![],
    }
}

/// Closing `id` for `reason`: the event, then the bus signal.
pub open spec fn closing_effects(id: u32, reason: CloseReason) -> Seq<Effect> {
    seq![
        Effect::Emit(NotificationEvent::Closed { id, reason }),
        Effect::Signal(BusSignal::NotificationClosed { id, reason: reason_code(reason) }),
    ]
}

/// `fx` is `first` followed by one more effect.
pub open spec fn then_one(fx: Seq<Effect>, first: Seq<Effect>) -> bool {
    fx.len() == first.len() + 1 && fx.subrange(0, first.len() as int) == first
}

/// `e` emits `Received` for `id` with a payload that reads as `n`.
pub open spec fn is_received(e: Effect, id: u32, n: NotificationModel) -> bool {
    e matches Effect::Emit(NotificationEvent::Received { id: i, notification: b }) && i == id
        && b@ == n
}

/// `e` emits `Replaced` for `id`, from `previous` to a payload that reads as `current`.
pub open spec fn is_replaced(
    e: Effect,
    id: u32,
    previous: Notification,
    current: NotificationModel,
) -> bool {
    e matches Effect::Emit(NotificationEvent::Replaced { id: i, previous: p, current: c }) && i
        == id && *p == previous && c@ == current
}

/// `e` emits `ActionInvoked` for `id` and `key`.
pub open spec fn is_action_event(e: Effect, id: u32, key: Seq<char>) -> bool {
    e matches Effect::Emit(NotificationEvent::ActionInvoked { id: i, action_key: k }) && i == id
        && k@ == key
}

/// `e` emits the `ActionInvoked` bus signal for `id` and `key`.
pub open spec fn is_action_signal(e: Effect, id: u32, key: Seq<char>) -> bool {
    e matches Effect::Signal(BusSignal::ActionInvoked { id: i, action_key: k }) && i == id && k@
        == key
}

/// What `notify(n, replaces_id)` does from `pre`: the state `post`, the result `r` and
/// the effects `fx`.
pub open spec fn notify_rel(
    pre: SourceModel,
    n: Notification,
    replaces_id: u32,
    post: SourceModel,
    r: Result<u32, SourceError>,
    fx: Seq<Effect>,
) -> bool {
    if replaces_id != 0 && pre.live.contains_key(replaces_id) {
        let g = bump(pre.live[replaces_id].generation);
        &&& post == SourceModel {
            live: pre.live.insert(replaces_id, StoredNotification { notification: n, generation: g }),
            ..pre
        }
        &&& r == Ok::<u32, SourceError>(replaces_id)
        &&& then_one(fx, expiry_effects(replaces_id, g, n.timeout_ms, pre.default_timeout_ms))
        &&& is_replaced(fx.last(), replaces_id, pre.live[replaces_id].notification, n@)
    } else if pre.live.contains_key(pre.next_id) {
        &&& post == pre
        &&& r == Err::<u32, SourceError>(SourceError::IdsExhausted)
        &&& fx.len() == 0
    } else {
        let id = pre.next_id;
        &&& post == SourceModel {
            live: pre.live.insert(id, StoredNotification { notification: n, generation: 0 }),
            next_id: bump_id(id),
            ..pre
        }
        &&& r == Ok::<u32, SourceError>(id)
        &&& then_one(fx, expiry_effects(id, 0, n.timeout_ms, pre.default_timeout_ms))
        &&& is_received(fx.last(), id, n@)
    }
}

/// What `close(id, reason)` does from `pre`.
pub open spec fn close_rel(
    pre: SourceModel,
    id: u32,
    reason: CloseReason,
    post: SourceModel,
    closed: bool,
    fx: Seq<Effect>,
) -> bool {
    if pre.live.contains_key(id) {
        post == pre.without(id) && closed && fx == closing_effects(id, reason)
    } else {
        post == pre && !closed && fx.len() == 0
    }
}

/// What `invoke_action(id, key)` does from `pre`.
pub open spec fn invoke_rel(
    pre: SourceModel,
    id: u32,
    key: Seq<char>,
    post: SourceModel,
    invoked: bool,
    fx: Seq<Effect>,
) -> bool {
    if pre.live.contains_key(id) && pre.live[id].notification.has_action(key) {
        &&& post == pre.without(id)
        &&& invoked
        &&& fx.len() == 4
        &&& is_action_event(fx[0], id, key)
        &&& is_action_signal(fx[1], id, key)
        &&& fx.subrange(2, 4) == closing_effects(id, CloseReason::Dismissed)
    } else {
        post == pre && !invoked && fx.len() == 0
    }
}

/// What the expiration timer for `(id, generation)` does from `pre` when it fires.
pub open spec fn expire_rel(
    pre: SourceModel,
    id: u32,
    generation: u64,
    post: SourceModel,
    fx: Seq<Effect>,
) -> bool {
    if pre.live.contains_key(id) && pre.live[id].generation == generation {
        post == pre.without(id) && fx == closing_effects(id, CloseReason::Expired)
    } else {
        post == pre && fx.len() == 0
    }
}

/// In-memory notification source plus lifecycle logic.
///
/// Each operation updates the store and returns the effects that the runtime carries
/// out afterwards, in order: events to send, bus signals to emit, timers to start.
#[derive(Debug)]
pub struct WispSource {
    cfg: SourceConfig,
    store: NotificationStore,
}

impl View for WispSource {
    type V = SourceModel;

    closed spec fn view(&self) -> SourceModel {
        SourceModel {
            live: self.store.live(),
            next_id: self.store.next_id(),
            default_timeout_ms: self.cfg.default_timeout_ms,
        }
    }
}

impl WispSource {
    /// The configuration the source was made with.
    pub closed spec fn config(&self) -> SourceConfig {
        self.cfg
    }

    pub open spec fn wf(&self) -> bool {
        &&& self@.wf()
        &&& self@.default_timeout_ms == self.config().default_timeout_ms
    }

    /// Creates an empty source.
    pub fn new(cfg: SourceConfig) -> (r: Self)
        ensures
            r.wf(),
            r.config() == cfg,
            r@.default_timeout_ms == cfg.default_timeout_ms,
            r@.live == Map::<u32, StoredNotification>::empty(),
            r@.next_id == 1,
    {
        WispSource { cfg, store: NotificationStore::new() }
    }

    /// Returns currently advertised freedesktop capabilities.
    pub fn capabilities(&self) -> (r: &[String])
        ensures
            r@ == self.config().capabilities@,
    {
        self.cfg.capabilities.as_slice()
    }

    /// Returns `(name, vendor, version, spec_version)` for `GetServerInformation`.
    pub fn server_information(&self) -> (r: (String, String, String, String))
        ensures
            r.0 == self.config().server_name,
            r.1 == self.config().server_vendor,
            r.2 == self.config().server_version,
            r.3 == self.config().spec_version,
    {
        (
            self.cfg.server_name.clone(),
            self.cfg.server_vendor.clone(),
            self.cfg.server_version.clone(),
            self.cfg.spec_version.clone(),
        )
    }

    /// The timeout in milliseconds after which a notification that asked for
    /// `requested_timeout_ms` expires, if it expires at all.
    pub fn effective_timeout_duration(&self, requested_timeout_ms: i32) -> (r: Option<u64>)
        ensures
            r == effective_timeout(requested_timeout_ms, self@.default_timeout_ms),
            r == effective_timeout(requested_timeout_ms, self.config().default_timeout_ms),
    {
        let effective_ms = if requested_timeout_ms == 0 {
            return None;
        } else if requested_timeout_ms < 0 {
            self.cfg.default_timeout_ms
        } else {
            requested_timeout_ms
        };
        if effective_ms > 0 {
            Some(effective_ms as u64)
        } else {
            None
        }
    }

    fn schedule_timeout(&self, id: u32, generation: u64, requested_timeout_ms: i32) -> (r: Vec<
        Effect,
    >)
        ensures
            r@ == expiry_effects(id, generation, requested_timeout_ms, self@.default_timeout_ms),
    {
        let mut r: Vec<Effect> = Vec::new();
        match self.effective_timeout_duration(requested_timeout_ms) {
            Some(after_ms) => {
                r.push(Effect::ScheduleExpiry { id, generation, after_ms });
                proof {
                    assert(r@ =~= expiry_effects(
                        id,
                        generation,
                        requested_timeout_ms,
                        self@.default_timeout_ms,
                    ));
                }
            },
            None => {
                proof {
                    assert(r@ =~= expiry_effects(
                        id,
                        generation,
                        requested_timeout_ms,
                        self@.default_timeout_ms,
                    ));
                }
            },
        }
        r
    }

    fn send_closed(id: u32, reason: CloseReason) -> (r: Vec<Effect>)
        ensures
            r@ == closing_effects(id, reason),
    {
        let mut r: Vec<Effect> = Vec::new();
        r.push(Effect::Emit(NotificationEvent::Closed { id, reason }));
        r.push(
            Effect::Signal(BusSignal::NotificationClosed { id, reason: close_reason_code(reason) }),
        );
        proof {
            assert(r@ =~= closing_effects(id, reason));
        }
        r
    }

    /// Inserts or replaces a notification.
    ///
    /// If `replaces_id` is a live notification, it is replaced in place, its generation
    /// goes up by one, and the same id is returned; otherwise the notification gets a new
    /// id. Either way an expiration timer is scheduled for the new generation where the
    /// timeout asks for one, then `Replaced` or `Received` is emitted.
    pub fn notify(&mut self, notification: Notification, replaces_id: u32) -> (r: Result<
        (u32, Vec<Effect>),
        SourceError,
    >)
        requires
            old(self).wf(),
        ensures
            final(self).wf(),
            final(self).config() == old(self).config(),
            match r {
                Ok((id, fx)) => notify_rel(
                    old(self)@,
                    notification,
                    replaces_id,
                    final(self)@,
                    Ok(id),
                    fx@,
                ),
                Err(e) => notify_rel(
                    old(self)@,
                    notification,
                    replaces_id,
                    final(self)@,
                    Err(e),
                    seq![],
                ),
            },
    {
        let timeout_ms = notification.timeout_ms;
        let current = notification.clone();
        if replaces_id != 0 && self.store.get_generation(replaces_id).is_some() {
            let ghost pre = self@;
            match self.store.replace_in_place(replaces_id, notification) {
                Some((previous, generation)) => {
                    let mut fx = self.schedule_timeout(replaces_id, generation, timeout_ms);
                    let ghost ex = fx@;
                    fx.push(
                        Effect::Emit(
                            NotificationEvent::Replaced {
                                id: replaces_id,
                                previous: Box::new(previous),
                                current: Box::new(current),
                            },
                        ),
                    );
                    proof {
                        assert(fx@.subrange(0, ex.len() as int) =~= ex);
                        assert(self@.live =~= pre.live.insert(
                            replaces_id,
                            StoredNotification {
                                notification,
                                generation: bump(pre.live[replaces_id].generation),
                            },
                        ));
                    }
                    return Ok((replaces_id, fx));
                },
                None => {
                    proof {
                        assert(false);
                    }
                    return Err(SourceError::IdsExhausted);
                },
            }
        }
        let ghost pre = self@;
        match self.store.insert(notification) {
            Some(id) => {
                let mut fx = self.schedule_timeout(id, 0, timeout_ms);
                let ghost ex = fx@;
                fx.push(
                    Effect::Emit(NotificationEvent::Received { id, notification: Box::new(current) }),
                );
                proof {
                    assert(fx@.subrange(0, ex.len() as int) =~= ex);
                }
                Ok((id, fx))
            },
            None => {
                proof {
                    assert(self@ == pre);
                }
                Err(SourceError::IdsExhausted)
            },
        }
    }

    /// Closes a notification by id.
    ///
    /// Returns `true` and emits `Closed` then `NotificationClosed` if it was live;
    /// returns `false` and does nothing otherwise.
    pub fn close(&mut self, id: u32, reason: CloseReason) -> (r: (bool, Vec<Effect>))
        requires
            old(self).wf(),
        ensures
            final(self).wf(),
            final(self).config() == old(self).config(),
            close_rel(old(self)@, id, reason, final(self)@, r.0, r.1@),
    {
        let ghost pre = self@;
        match self.store.remove(id) {
            Some(_) => {
                proof {
                    assert(self@ == pre.without(id));
                }
                (true, Self::send_closed(id, reason))
            },
            None => {
                proof {
                    assert(self@.live =~= pre.live);
                }
                (false, Vec::new())
            },
        }
    }

    /// Invokes an action for a notification.
    ///
    /// If the notification is live and declares an action with key `action_key`, it is
    /// removed, and `ActionInvoked` (event, then signal) is emitted strictly before
    /// `Closed { Dismissed }` (event, then signal). Otherwise nothing changes.
    pub fn invoke_action(&mut self, id: u32, action_key: &str) -> (r: (bool, Vec<Effect>))
        requires
            old(self).wf(),
        ensures
            final(self).wf(),
            final(self).config() == old(self).config(),
            invoke_rel(old(self)@, id, action_key@, final(self)@, r.0, r.1@),
    {
        let known = match self.store.get(id) {
            Some(stored) => has_action(&stored.notification, action_key),
            None => false,
        };
        if !known {
            return (false, Vec::new());
        }
        let ghost pre = self@;
        let _ = self.store.remove(id);
        proof {
            assert(self@ == pre.without(id));
        }
        let mut fx: Vec<Effect> = Vec::new();
        fx.push(
            Effect::Emit(NotificationEvent::ActionInvoked { id, action_key: action_key.to_owned() }),
        );
        fx.push(Effect::Signal(BusSignal::ActionInvoked { id, action_key: action_key.to_owned() }));
        let mut closing = Self::send_closed(id, CloseReason::Dismissed);
        fx.append(&mut closing);
        proof {
            assert(fx@.subrange(2, 4) =~= closing_effects(id, CloseReason::Dismissed));
        }
        (true, fx)
    }

    /// Called when the expiration timer for `(id, generation)` fires: closes the
    /// notification as expired if it is still live with that generation, and does
    /// nothing otherwise.
    pub fn expire_if_current(&mut self, id: u32, generation: u64) -> (r: Vec<Effect>)
        requires
            old(self).wf(),
        ensures
            final(self).wf(),
            final(self).config() == old(self).config(),
            expire_rel(old(self)@, id, generation, final(self)@, r@),
    {
        let should_expire = match self.store.get_generation(id) {
            Some(g) => g == generation,
            None => false,
        };
        if !should_expire {
            return Vec::new();
        }
        let ghost pre = self@;
        let _ = self.store.remove(id);
        proof {
            assert(self@ == pre.without(id));
        }
        Self::send_closed(id, CloseReason::Expired)
    }

    /// A copy of every live notification with its id, each once, in no particular order.
    pub fn snapshot(&self) -> (r: Vec<(u32, Notification)>)
        ensures
            r@.len() == self@.live.len(),
            forall|i: int|
                0 <= i < r@.len() ==> self@.live.contains_key(#[trigger] r@[i].0) && r@[i].1@
                    == self@.live[r@[i].0].notification@,
            forall|id: u32| #[trigger]
                self@.live.contains_key(id) ==> exists|i: int| 0 <= i < r@.len() && r@[i].0 == id,
            forall|i: int, j: int| 0 <= i < j < r@.len() ==> r@[i].0 != r@[j].0,
    {
        self.store.snapshot()
    }
}

/// Whether `n` declares an action with key `key`.
pub fn has_action(n: &Notification, key: &str) -> (r: bool)
    ensures
        r == n.has_action(key@),
{
    let mut i: usize = 0;
    while i < n.actions.len()
        invariant
            i <= n.actions@.len(),
            forall|j: int| 0 <= j < i ==> (#[trigger] n.actions@[j]).key@ != key@,
        decreases n.actions@.len() - i,
    {
        if same_text(n.actions[i].key.as_str(), key) {
            return true;
        }
        i = i + 1;
    }
    false
}

} // verus!
