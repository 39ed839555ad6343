//! The stack of popup windows: which notifications have a window, newest first, and
//! which windows to open, close or move as lifecycle events arrive.
use crate::popup::{shown_actions, to_ui_notification, ui_timeout, UiNotification};
use crate::types::{Notification, NotificationEvent};
use std::collections::HashMap;
use vstd::prelude::*;

verus! {

broadcast use vstd::std_specs::hash::group_hash_axioms;

/// Work for the window system.
#[derive(Debug, Clone, Copy, PartialEq, Eq, Structural)]
pub enum PopupAction {
    /// Open a window for the notification.
    Open { id: u32 },
    /// Close the notification's window.
    Close { id: u32 },
    /// Move and resize every window to its place in the stack.
    Relayout,
}

/// `u` is how the popup shows notification `n` with id `id`.
pub open spec fn shows(u: UiNotification, id: u32, n: Notification, default_ms: Option<i32>) -> bool {
    &&& u.id == id
    &&& u.app_name == n.app_name
    &&& u.app_icon == n.app_icon
    &&& u.summary == n.summary
    &&& u.body == n.body
    &&& u.urgency == n.urgency
    &&& u.actions@ == shown_actions(n.actions@)
    &&& u.timeout_ms == ui_timeout(n.timeout_ms, default_ms)
}

/// Close actions for `ids`, last first.
pub open spec fn closes_backwards(ids: Seq<u32>) -> Seq<PopupAction>
    decreases ids.len(),
{
    if ids.len() == 0 {
        seq![]
    } else {
        seq![PopupAction::Close { id: ids.last() }] + closes_backwards(ids.drop_last())
    }
}

/// The notifications shown in popups and the windows they have, newest first.
#[derive(Debug)]
pub struct PopupStack {
    notifications: HashMap<u32, UiNotification>,
    windows: Vec<u32>,
    max_visible: usize,
    default_timeout_ms: Option<i32>,
}

impl PopupStack {
    /// The shown notifications by id.
    pub closed spec fn shown(&self) -> Map<u32, UiNotification> {
        self.notifications@
    }

    /// The ids of the notifications with a window, newest first.
    pub closed spec fn window_ids(&self) -> Seq<u32> {
        self.windows@
    }

    /// How many windows may be open at once.
    pub closed spec fn max_visible(&self) -> usize {
        self.max_visible
    }

    /// The timeout that notifications asking for the default get.
    pub closed spec fn default_timeout(&self) -> Option<i32> {
        self.default_timeout_ms
    }

    pub open spec fn wf(&self) -> bool {
        self.window_ids().no_duplicates()
    }

    /// What `insert_new(id, n)` does, from `self` to `post` with actions `r`.
    pub open spec fn insert_new_rel(
        self,
        id: u32,
        n: Notification,
        post: PopupStack,
        r: Seq<PopupAction>,
    ) -> bool {
        if self.window_ids().contains(id) {
            &&& post.window_ids() == self.window_ids()
            &&& self.update_rel(id, n, post)
            &&& r.len() == 0
        } else {
            let stacked = seq![id] + self.window_ids();
            let keep = if stacked.len() <= self.max_visible() {
                stacked.len() as int
            } else {
                self.max_visible() as int
            };
            let evicted = stacked.subrange(keep, stacked.len() as int);
            &&& post.window_ids() == stacked.take(keep)
            &&& forall|k: u32| #[trigger]
                post.shown().contains_key(k) <==> (k == id || self.shown().contains_key(k))
                    && !evicted.contains(k)
            &&& post.shown().contains_key(id) ==> shows(
                post.shown()[id],
                id,
                n,
                self.default_timeout(),
            )
            &&& forall|k: u32|
                k != id && #[trigger] post.shown().contains_key(k) ==> post.shown()[k]
                    == self.shown()[k]
            &&& r == seq![PopupAction::Open { id }] + closes_backwards(evicted) + seq![
                PopupAction::Relayout,
            ]
        }
    }

    /// Showing `n` as notification `id`, in place of any shown one, windows unchanged.
    pub open spec fn update_rel(self, id: u32, n: Notification, post: PopupStack) -> bool {
        &&& post.shown().dom() == self.shown().dom().insert(id)
        &&& shows(post.shown()[id], id, n, self.default_timeout())
        &&& forall|k: u32|
            k != id && #[trigger] self.shown().contains_key(k) ==> post.shown()[k]
                == self.shown()[k]
    }

    /// What `remove_notification(id)` does, from `self` to `post` with actions `r`.
    pub open spec fn remove_rel(self, id: u32, post: PopupStack, r: Seq<PopupAction>) -> bool {
        &&& post.shown() == self.shown().remove(id)
        &&& if self.window_ids().contains(id) {
            &&& exists|p: int|
                0 <= p < self.window_ids().len() && self.window_ids()[p] == id
                    && post.window_ids() == self.window_ids().remove(p)
            &&& r == seq![PopupAction::Close { id }, PopupAction::Relayout]
        } else {
            post.window_ids() == self.window_ids() && r.len() == 0
        }
    }

    /// An empty stack.
    pub fn new(max_visible: usize, default_timeout_ms: Option<i32>) -> (r: Self)
        ensures
            r.wf(),
            r.shown() == Map::<u32, UiNotification>::empty(),
            r.window_ids() == Seq::<u32>::empty(),
            r.max_visible() == max_visible,
            r.default_timeout() == default_timeout_ms,
    {
        PopupStack {
            notifications: HashMap::new(),
            windows: Vec::new(),
            max_visible,
            default_timeout_ms,
        }
    }

    /// The ids of the notifications with a window, newest first.
    pub fn windows(&self) -> (r: &[u32])
        ensures
            r@ == self.window_ids(),
    {
        self.windows.as_slice()
    }

    /// The shown notification with id `id`.
    pub fn notification(&self, id: u32) -> (r: Option<&UiNotification>)
        ensures
            match r {
                Some(u) => self.shown().contains_key(id) && *u == self.shown()[id],
                None => !self.shown().contains_key(id),
            },
    {
        self.notifications.get(&id)
    }

    /// Whether no notification is shown.
    pub fn is_empty(&self) -> (r: bool)
        ensures
            r == (self.shown().len() == 0),
    {
        self.notifications.is_empty()
    }

    fn has_window(&self, id: u32) -> (r: bool)
        ensures
            r == self.window_ids().contains(id),
    {
        let mut i: usize = 0;
        while i < self.windows.len()
            invariant
                i <= self.windows@.len(),
                forall|k: int| 0 <= k < i ==> self.windows@[k] != id,
            decreases self.windows@.len() - i,
        {
            if self.windows[i] == id {
                return true;
            }
            i = i + 1;
        }
        false
    }

    /// Shows a new notification: it replaces any shown one with the same id; unless that
    /// id has a window already, a window is opened on top of the stack, the oldest
    /// windows beyond `max_visible` are closed with their notifications, and the stack
    /// is laid out again.
    pub fn insert_new(&mut self, id: u32, notification: Notification) -> (r: Vec<PopupAction>)
        requires
            old(self).wf(),
        ensures
            final(self).wf(),
            final(self).max_visible() == old(self).max_visible(),
            final(self).default_timeout() == old(self).default_timeout(),
            old(self).insert_new_rel(id, notification, *final(self), r@),
    {
        let ui = to_ui_notification(id, notification, self.default_timeout_ms);
        let ghost shown_ui = ui;
        self.notifications.insert(id, ui);
        if self.has_window(id) {
            return Vec::new();
        }
        let ghost base = self.notifications@;
        let ghost stacked = seq![id] + self.windows@;
        let mut actions: Vec<PopupAction> = Vec::new();
        actions.push(PopupAction::Open { id });
        self.windows.insert(0, id);
        proof {
            assert(self.windows@ =~= stacked);
            assert(stacked.no_duplicates());
            assert(closes_backwards(stacked.subrange(stacked.len() as int, stacked.len() as int))
                =~= Seq::<PopupAction>::empty());
        }
        while self.windows.len() > self.max_visible
            invariant
                self.max_visible == old(self).max_visible,
                self.default_timeout_ms == old(self).default_timeout_ms,
                stacked.no_duplicates(),
                self.windows@.len() <= stacked.len(),
                self.windows@.len() == stacked.len() || self.windows@.len() >= self.max_visible,
                self.windows@ == stacked.take(self.windows@.len() as int),
                forall|k: u32| #[trigger]
                    self.notifications@.contains_key(k) <==> base.contains_key(k)
                        && !stacked.subrange(self.windows@.len() as int, stacked.len() as int).contains(k),
                forall|k: u32| #[trigger]
                    self.notifications@.contains_key(k) ==> self.notifications@[k] == base[k],
                actions@ == seq![PopupAction::Open { id }] + closes_backwards(
                    stacked.subrange(self.windows@.len() as int, stacked.len() as int),
                ),
            decreases self.windows@.len(),
        {
            let ghost len = self.windows@.len() as int;
            let evicted = self.windows.pop().unwrap();
            self.notifications.remove(&evicted);
            actions.push(PopupAction::Close { id: evicted });
            proof {
                let before = stacked.subrange(len, stacked.len() as int);
                let after = stacked.subrange(len - 1, stacked.len() as int);
                assert(after.drop_first() =~= before);
                assert(evicted == stacked[len - 1]);
                assert(self.windows@ =~= stacked.take(len - 1));
                assert forall|k: u32| after.contains(k) <==> (k == evicted || before.contains(k)) by {
                    if after.contains(k) {
                        let j = choose|j: int| 0 <= j < after.len() && after[j] == k;
                        if j > 0 {
                            assert(before[j - 1] == k);
                        }
                    }
                    if before.contains(k) {
                        let j = choose|j: int| 0 <= j < before.len() && before[j] == k;
                        assert(after[j + 1] == k);
                    }
                    if k == evicted {
                        assert(after[0] == k);
                    }
                }
                lemma_closes_front(after);
                assert(actions@ =~= seq![PopupAction::Open { id }] + closes_backwards(after));
            }
        }
        let ghost evicted = stacked.subrange(self.windows@.len() as int, stacked.len() as int);
        actions.push(PopupAction::Relayout);
        proof {
            assert(base == old(self).notifications@.insert(id, shown_ui));
            assert(shows(shown_ui, id, notification, old(self).default_timeout_ms));
            assert(actions@ =~= seq![PopupAction::Open { id }] + closes_backwards(evicted) + seq![
                PopupAction::Relayout,
            ]);
        }
        actions
    }

    /// Stops showing a notification, closing its window if it has one.
    pub fn remove_notification(&mut self, id: u32) -> (r: Vec<PopupAction>)
        requires
            old(self).wf(),
        ensures
            final(self).wf(),
            final(self).max_visible() == old(self).max_visible(),
            final(self).default_timeout() == old(self).default_timeout(),
            old(self).remove_rel(id, *final(self), r@),
    {
        self.notifications.remove(&id);
        let mut i: usize = 0;
        while i < self.windows.len()
            invariant
                self.max_visible == old(self).max_visible,
                self.default_timeout_ms == old(self).default_timeout_ms,
                self.windows@ == old(self).windows@,
                self.windows@.no_duplicates(),
                self.notifications@ == old(self).notifications@.remove(id),
                i <= self.windows@.len(),
                forall|k: int| 0 <= k < i ==> self.windows@[k] != id,
            decreases self.windows@.len() - i,
        {
            if self.windows[i] == id {
                let ghost before = self.windows@;
                self.windows.remove(i);
                proof {
                    assert forall|a: int, b: int|
                        0 <= a < b < self.windows@.len() implies self.windows@[a]
                        != self.windows@[b] by {
                        let a0 = if a < i { a } else { a + 1 };
                        let b0 = if b < i { b } else { b + 1 };
                        assert(self.windows@[a] == before[a0]);
                        assert(self.windows@[b] == before[b0]);
                    }
                }
                let mut r: Vec<PopupAction> = Vec::new();
                r.push(PopupAction::Close { id });
                r.push(PopupAction::Relayout);
                proof {
                    assert(r@ =~= seq![PopupAction::Close { id }, PopupAction::Relayout]);
                }
                return r;
            }
            i = i + 1;
        }
        Vec::new()
    }

    /// Follows one lifecycle event: a received notification is stacked, a replaced
    /// one is updated where it stands, a closed one is removed.
    pub fn apply_event(&mut self, event: NotificationEvent) -> (r: Vec<PopupAction>)
        requires
            old(self).wf(),
        ensures
            final(self).wf(),
            final(self).max_visible() == old(self).max_visible(),
            final(self).default_timeout() == old(self).default_timeout(),
            match event {
                NotificationEvent::Received { id, notification } => old(self).insert_new_rel(
                    id,
                    *notification,
                    *final(self),
                    r@,
                ),
                NotificationEvent::Replaced { id, current, .. } => old(self).update_rel(
                    id,
                    *current,
                    *final(self),
                ) && r@.len() == 0,
                NotificationEvent::Closed { id, .. } => old(self).remove_rel(id, *final(self), r@),
                NotificationEvent::ActionInvoked { .. } => final(self).shown() == old(self).shown()
                    && final(self).window_ids() == old(self).window_ids() && r@.len() == 0,
            },
    {
        match event {
            NotificationEvent::Received { id, notification } => self.insert_new(id, *notification),
            NotificationEvent::Replaced { id, current, .. } => {
                let ui = to_ui_notification(id, *current, self.default_timeout_ms);
                self.notifications.insert(id, ui);
                Vec::new()
            },
            NotificationEvent::Closed { id, .. } => self.remove_notification(id),
            NotificationEvent::ActionInvoked { .. } => Vec::new(),
        }
    }
}

proof fn lemma_closes_front(ids: Seq<u32>)
    requires
        ids.len() > 0,
    ensures
        closes_backwards(ids) == closes_backwards(ids.drop_first()) + seq![
            PopupAction::Close { id: ids[0] },
        ],
    decreases ids.len(),
{
    if ids.len() == 1 {
        assert(ids.drop_first() =~= Seq::<u32>::empty());
        assert(ids.drop_last() =~= Seq::<u32>::empty());
        assert(closes_backwards(ids.drop_last()) =~= Seq::<PopupAction>::empty());
        assert(closes_backwards(ids.drop_first()) =~= Seq::<PopupAction>::empty());
    } else {
        lemma_closes_front(ids.drop_last());
        assert(ids.drop_last().drop_first() =~= ids.drop_first().drop_last());
        assert(ids.drop_first().last() == ids.last());
    }
}

} // verus!
