//! The id-keyed store of live notifications and its id allocator.
use crate::types::Notification;
use std::collections::HashMap;
use vstd::prelude::*;
use vstd::std_specs::iter::IteratorSpec;

verus! {

broadcast use vstd::std_specs::hash::group_hash_axioms;

/// A live notification with the number of in-place replacements it has seen.
#[derive(Debug)]
pub struct StoredNotification {
    /// Current payload.
    pub notification: Notification,
    /// Starts at 0 on insert and goes up by one on every in-place replace.
    pub generation: u64,
}

/// `g + 1`, or `g` where that would not fit.
pub open spec fn bump(g: u64) -> u64 {
    if g < u64::MAX {
        (g + 1) as u64
    } else {
        g
    }
}

/// `i + 1`, or `i` where that would not fit.
pub open spec fn bump_id(i: u32) -> u32 {
    if i < u32::MAX {
        (i + 1) as u32
    } else {
        i
    }
}

/// Whether the live ids fit an allocator that will hand out `next` next: id 0 is never
/// live, and every live id lies below `next` unless the allocator has stopped at
/// `u32::MAX`.
pub open spec fn ids_fit(live: Map<u32, StoredNotification>, next: u32) -> bool {
    &&& next >= 1
    &&& forall|id: u32| #[trigger]
        live.contains_key(id) ==> 1 <= id && (id < next || next == u32::MAX)
}

/// Mapping from id to live notification, with the counter that allocates ids.
#[derive(Debug)]
pub struct NotificationStore {
    entries: HashMap<u32, StoredNotification>,
    next_id: u32,
}

impl NotificationStore {
    /// The live notifications by id.
    pub closed spec fn live(&self) -> Map<u32, StoredNotification> {
        self.entries@
    }

    /// The id the allocator hands out next.
    pub closed spec fn next_id(&self) -> u32 {
        self.next_id
    }

    pub open spec fn wf(&self) -> bool {
        ids_fit(self.live(), self.next_id())
    }

    /// An empty store whose allocator starts at 1.
    pub fn new() -> (r: Self)
        ensures
            r.wf(),
            r.live() == Map::<u32, StoredNotification>::empty(),
            r.next_id() == 1,
    {
        NotificationStore { entries: HashMap::new(), next_id: 1 }
    }

    /// Hands out the counter's value and advances it by saturating increment.
    fn alloc_id(&mut self) -> (id: u32)
        ensures
            id == old(self).next_id(),
            final(self).next_id() == bump_id(id),
            final(self).live() == old(self).live(),
    {
        let id = self.next_id;
        self.next_id = self.next_id.saturating_add(1);
        id
    }

    /// Inserts `notification` with generation 0 under a newly allocated id.
    ///
    /// Returns `None`, and changes nothing, when the allocator has stopped at `u32::MAX`
    /// and that id is still live.
    pub fn insert(&mut self, notification: Notification) -> (r: Option<u32>)
        requires
            old(self).wf(),
        ensures
            final(self).wf(),
            match r {
                Some(id) => {
                    &&& id == old(self).next_id()
                    &&& !old(self).live().contains_key(id)
                    &&& final(self).live() == old(self).live().insert(
                        id,
                        StoredNotification { notification, generation: 0 },
                    )
                    &&& final(self).next_id() == bump_id(id)
                },
                None => {
                    &&& old(self).live().contains_key(old(self).next_id())
                    &&& final(self).live() == old(self).live()
                    &&& final(self).next_id() == old(self).next_id()
                },
            },
    {
        let id = self.alloc_id();
        if self.entries.contains_key(&id) {
            return None;
        }
        self.entries.insert(id, StoredNotification { notification, generation: 0 });
        Some(id)
    }

    /// Swaps the payload of a live notification and increments its generation.
    ///
    /// Returns the previous payload and the new generation, or `None` if `id` is not live.
    pub fn replace_in_place(&mut self, id: u32, notification: Notification) -> (r: Option<
        (Notification, u64),
    >)
        requires
            old(self).wf(),
        ensures
            final(self).wf(),
            final(self).next_id() == old(self).next_id(),
            old(self).live().contains_key(id) ==> {
                let g = bump(old(self).live()[id].generation);
                &&& r == Some((old(self).live()[id].notification, g))
                &&& final(self).live() == old(self).live().insert(
                    id,
                    StoredNotification { notification, generation: g },
                )
            },
            !old(self).live().contains_key(id) ==> r is None && final(self).live() == old(
                self,
            ).live(),
    {
        match self.entries.remove(&id) {
            Some(previous) => {
                let generation = previous.generation.saturating_add(1);
                self.entries.insert(id, StoredNotification { notification, generation });
                proof {
                    assert(self.entries@ =~= old(self).entries@.insert(
                        id,
                        StoredNotification { notification, generation },
                    ));
                }
                Some((previous.notification, generation))
            },
            None => None,
        }
    }

    /// Removes a live notification and returns it.
    pub fn remove(&mut self, id: u32) -> (r: Option<StoredNotification>)
        requires
            old(self).wf(),
        ensures
            final(self).wf(),
            final(self).next_id() == old(self).next_id(),
            final(self).live() == old(self).live().remove(id),
            match r {
                Some(s) => old(self).live().contains_key(id) && s == old(self).live()[id],
                None => !old(self).live().contains_key(id),
            },
    {
        self.entries.remove(&id)
    }

    /// The live notification with id `id`.
    pub fn get(&self, id: u32) -> (r: Option<&StoredNotification>)
        ensures
            match r {
                Some(s) => self.live().contains_key(id) && *s == self.live()[id],
                None => !self.live().contains_key(id),
            },
    {
        self.entries.get(&id)
    }

    /// The generation of the live notification with id `id`.
    pub fn get_generation(&self, id: u32) -> (r: Option<u64>)
        ensures
            match r {
                Some(g) => self.live().contains_key(id) && g == self.live()[id].generation,
                None => !self.live().contains_key(id),
            },
    {
        match self.entries.get(&id) {
            Some(s) => Some(s.generation),
            None => None,
        }
    }

    /// A copy of every live notification with its id, each once, in no particular order.
    pub fn snapshot(&self) -> (r: Vec<(u32, Notification)>)
        ensures
            r@.len() == self.live().len(),
            forall|i: int|
                0 <= i < r@.len() ==> self.live().contains_key(#[trigger] r@[i].0) && r@[i].1@
                    == self.live()[r@[i].0].notification@,
            forall|id: u32| #[trigger]
                self.live().contains_key(id) ==> exists|i: int| 0 <= i < r@.len() && r@[i].0 == id,
            forall|i: int, j: int| 0 <= i < j < r@.len() ==> r@[i].0 != r@[j].0,
    {
        let mut r: Vec<(u32, Notification)> = Vec::new();
        let ghost items = vstd::std_specs::hash::spec_hash_map_iter(&self.entries).remaining();
        for entry in it: self.entries.iter()
            invariant
                it.seq() == items,
                items.no_duplicates(),
                r@.len() == it.index(),
                forall|j: int|
                    0 <= j < it.index() ==> (#[trigger] r@[j]).0 == *it.seq()[j].0 && r@[j].1@
                        == it.seq()[j].1.notification@,
        {
            let (id, stored) = entry;
            r.push((*id, stored.notification.clone()));
        }
        proof {
            assert forall|id: u32| #[trigger]
                self.live().contains_key(id) implies exists|i: int|
                    0 <= i < r@.len() && r@[i].0 == id by {
                assert(items.contains((&id, &self.entries@[id])));
                let i = choose|i: int| 0 <= i < items.len() && items[i] == (&id, &self.entries@[id]);
                assert(r@[i].0 == id);
            }
            assert forall|i: int, j: int| 0 <= i < j < r@.len() implies r@[i].0 != r@[j].0 by {
                if r@[i].0 == r@[j].0 {
                    assert(self.entries@.contains_key(*items[i].0));
                    assert(self.entries@.contains_key(*items[j].0));
                    assert(self.entries@[*items[i].0] == *items[i].1);
                    assert(self.entries@[*items[j].0] == *items[j].1);
                    assert(items[i] == items[j]);
                }
            }
        }
        r
    }
}

} // verus!
