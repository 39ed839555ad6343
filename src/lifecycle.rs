//! Laws of the source's lifecycle: the order of events per id, generations, timers
//! and repeated closes.
use crate::source::{
    close_rel, closing_effects, expire_rel, expiry_effects, invoke_rel, notify_rel, Effect,
    SourceError, SourceModel,
};
use crate::store::bump;
use crate::types::{CloseReason, Notification, NotificationEvent};
use vstd::prelude::*;

verus! {

/// Where one id stands in its lifecycle, as read from the events emitted for it.
#[derive(PartialEq, Eq, Structural)]
pub enum Phase {
    /// Not live: the next event for the id may only be `Received`.
    Absent,
    /// Live: `Replaced`, `ActionInvoked` or `Closed` may follow.
    Live,
    /// An action was invoked: only `Closed` may follow.
    Acted,
    /// An event came out of order.
    Broken,
}

/// The phase of `id` after one more effect.
pub open spec fn advance(p: Phase, e: Effect, id: u32) -> Phase {
    match e {
        Effect::Emit(ev) => if ev.event_id() != id {
            p
        } else {
            match ev {
                NotificationEvent::Received { .. } => if p == Phase::Absent {
                    Phase::Live
                } else {
                    Phase::Broken
                },
                NotificationEvent::Replaced { .. } => if p == Phase::Live {
                    Phase::Live
                } else {
                    Phase::Broken
                },
                NotificationEvent::ActionInvoked { .. } => if p == Phase::Live {
                    Phase::Acted
                } else {
                    Phase::Broken
                },
                NotificationEvent::Closed { .. } => if p == Phase::Live || p == Phase::Acted {
                    Phase::Absent
                } else {
                    Phase::Broken
                },
            }
        },
        _ => p,
    }
}

/// The phase of `id` after the effects `fx`, from `p`. This reads the events for `id`
/// against the language `(Received Replaced* ActionInvoked? Closed)*`.
pub open spec fn run_phases(p: Phase, fx: Seq<Effect>, id: u32) -> Phase
    decreases fx.len(),
{
    if fx.len() == 0 {
        p
    } else {
        advance(run_phases(p, fx.drop_last(), id), fx.last(), id)
    }
}

/// The phase that the state `m` puts `id` in.
pub open spec fn phase_in(m: SourceModel, id: u32) -> Phase {
    if m.live.contains_key(id) {
        Phase::Live
    } else {
        Phase::Absent
    }
}

/// Whether `fx` is what one operation of the source emits while taking `pre` to `post`.
pub open spec fn is_step(pre: SourceModel, post: SourceModel, fx: Seq<Effect>) -> bool {
    ||| exists|n: Notification, rid: u32, r: Result<u32, SourceError>| #[trigger]
        notify_rel(pre, n, rid, post, r, fx)
    ||| exists|id: u32, reason: CloseReason, b: bool| #[trigger]
        close_rel(pre, id, reason, post, b, fx)
    ||| exists|id: u32, key: Seq<char>, b: bool| #[trigger] invoke_rel(pre, id, key, post, b, fx)
    ||| exists|id: u32, g: u64| #[trigger] expire_rel(pre, id, g, post, fx)
}

/// All effects of a run, batch after batch.
pub open spec fn concat_all(batches: Seq<Seq<Effect>>) -> Seq<Effect>
    decreases batches.len(),
{
    if batches.len() == 0 {
        seq![]
    } else {
        concat_all(batches.drop_last()) + batches.last()
    }
}

/// Whether `e` emits `Replaced` for `id`.
pub open spec fn emits_replaced(e: Effect, id: u32) -> bool {
    e matches Effect::Emit(NotificationEvent::Replaced { id: i, .. }) && i == id
}

/// Whether some effect of `fx` emits `Replaced` for `id`.
pub open spec fn replaces(fx: Seq<Effect>, id: u32) -> bool {
    exists|k: int| 0 <= k < fx.len() && emits_replaced(#[trigger] fx[k], id)
}

proof fn lemma_run_concat(p: Phase, a: Seq<Effect>, b: Seq<Effect>, id: u32)
    ensures
        run_phases(p, a + b, id) == run_phases(run_phases(p, a, id), b, id),
    decreases b.len(),
{
    if b.len() == 0 {
        assert(a + b =~= a);
    } else {
        lemma_run_concat(p, a, b.drop_last(), id);
        assert((a + b).drop_last() =~= a + b.drop_last());
    }
}

proof fn lemma_run_broken(fx: Seq<Effect>, id: u32)
    ensures
        run_phases(Phase::Broken, fx, id) == Phase::Broken,
    decreases fx.len(),
{
    if fx.len() > 0 {
        lemma_run_broken(fx.drop_last(), id);
    }
}

proof fn lemma_run_expiry(p: Phase, gid: u32, g: u64, requested: i32, default_ms: i32, id: u32)
    ensures
        run_phases(p, expiry_effects(gid, g, requested, default_ms), id) == p,
{
    reveal_with_fuel(run_phases, 2);
    let ex = expiry_effects(gid, g, requested, default_ms);
    if ex.len() > 0 {
        assert(ex.drop_last() =~= Seq::<Effect>::empty());
    }
}

proof fn lemma_run_then_one(p: Phase, fx: Seq<Effect>, ex: Seq<Effect>, id: u32)
    requires
        fx.len() == ex.len() + 1,
        fx.subrange(0, ex.len() as int) == ex,
    ensures
        run_phases(p, fx, id) == advance(run_phases(p, ex, id), fx.last(), id),
{
    assert(fx.drop_last() =~= ex);
}

proof fn lemma_run_closing(p: Phase, cid: u32, reason: CloseReason, id: u32)
    ensures
        run_phases(p, closing_effects(cid, reason), id) == advance(
            p,
            Effect::Emit(NotificationEvent::Closed { id: cid, reason }),
            id,
        ),
{
    reveal_with_fuel(run_phases, 3);
    let fx = closing_effects(cid, reason);
    assert(fx.drop_last().drop_last() =~= Seq::<Effect>::empty());
}

proof fn lemma_step_phase(pre: SourceModel, post: SourceModel, fx: Seq<Effect>, id: u32)
    requires
        pre.wf(),
        is_step(pre, post, fx),
    ensures
        post.wf(),
        run_phases(phase_in(pre, id), fx, id) == phase_in(post, id),
{
    let p = phase_in(pre, id);
    if exists|n: Notification, rid: u32, r: Result<u32, SourceError>|
        #[trigger] notify_rel(pre, n, rid, post, r, fx) {
        let (n, rid, r) = choose|n: Notification, rid: u32, r: Result<u32, SourceError>|
            #[trigger] notify_rel(pre, n, rid, post, r, fx);
        if rid != 0 && pre.live.contains_key(rid) {
            let g = bump(pre.live[rid].generation);
            let ex = expiry_effects(rid, g, n.timeout_ms, pre.default_timeout_ms);
            lemma_run_then_one(p, fx, ex, id);
            lemma_run_expiry(p, rid, g, n.timeout_ms, pre.default_timeout_ms, id);
            assert(post.live.dom() =~= pre.live.dom());
        } else if pre.live.contains_key(pre.next_id) {
        } else {
            let nid = pre.next_id;
            let ex = expiry_effects(nid, 0, n.timeout_ms, pre.default_timeout_ms);
            lemma_run_then_one(p, fx, ex, id);
            lemma_run_expiry(p, nid, 0, n.timeout_ms, pre.default_timeout_ms, id);
            assert forall|k: u32| #[trigger]
                post.live.contains_key(k) implies 1 <= k && (k < post.next_id || post.next_id
                == u32::MAX) by {
                if k != nid {
                    assert(pre.live.contains_key(k));
                }
            }
        }
    } else if exists|cid: u32, reason: CloseReason, b: bool|
        #[trigger] close_rel(pre, cid, reason, post, b, fx) {
        let (cid, reason, b) = choose|cid: u32, reason: CloseReason, b: bool|
            #[trigger] close_rel(pre, cid, reason, post, b, fx);
        if pre.live.contains_key(cid) {
            lemma_run_closing(p, cid, reason, id);
        }
    } else if exists|cid: u32, key: Seq<char>, b: bool|
        #[trigger] invoke_rel(pre, cid, key, post, b, fx) {
        let (cid, key, b) = choose|cid: u32, key: Seq<char>, b: bool|
            #[trigger] invoke_rel(pre, cid, key, post, b, fx);
        if pre.live.contains_key(cid) && pre.live[cid].notification.has_action(key) {
            let first = fx.subrange(0, 2);
            assert(fx =~= first + fx.subrange(2, 4));
            lemma_run_concat(p, first, fx.subrange(2, 4), id);
            assert(first.drop_last().drop_last() =~= Seq::<Effect>::empty());
            reveal_with_fuel(run_phases, 3);
            lemma_run_closing(run_phases(p, first, id), cid, CloseReason::Dismissed, id);
        }
    } else {
        let (cid, g) = choose|cid: u32, g: u64| #[trigger] expire_rel(pre, cid, g, post, fx);
        if pre.live.contains_key(cid) && pre.live[cid].generation == g {
            lemma_run_closing(p, cid, CloseReason::Expired, id);
        }
    }
}

/// The events for one id follow its lifecycle in every operation: read from the phase
/// the state before puts the id in, the events an operation emits for it are accepted
/// by the lifecycle automaton and end in the phase of the state after. Well-formedness
/// is kept.
pub proof fn lifecycle_step(pre: SourceModel, post: SourceModel, fx: Seq<Effect>, id: u32)
    requires
        pre.wf(),
        is_step(pre, post, fx),
    ensures
        post.wf(),
        run_phases(phase_in(pre, id), fx, id) == phase_in(post, id),
{
    lemma_step_phase(pre, post, fx, id);
}

/// Over any run of operations, the events emitted for one id form
/// `Received (Replaced)* (ActionInvoked? Closed)`, repeated, possibly ending in a
/// lifecycle still under way: from the phase the first state puts the id in, no prefix
/// of the run's events breaks the automaton, and the whole run ends in the phase of the
/// last state. From a fresh source that first phase is `Absent`.
pub proof fn lifecycle_run(states: Seq<SourceModel>, batches: Seq<Seq<Effect>>, id: u32)
    requires
        states.len() == batches.len() + 1,
        states[0].wf(),
        forall|k: int| 0 <= k < batches.len() ==> is_step(states[k], states[k + 1], #[trigger] batches[k]),
    ensures
        states.last().wf(),
        run_phases(phase_in(states[0], id), concat_all(batches), id) == phase_in(states.last(), id),
        forall|k: int|
            0 <= k <= concat_all(batches).len() ==> run_phases(
                phase_in(states[0], id),
                #[trigger] concat_all(batches).take(k),
                id,
            ) != Phase::Broken,
    decreases batches.len(),
{
    let p0 = phase_in(states[0], id);
    if batches.len() == 0 {
        assert(concat_all(batches) =~= Seq::<Effect>::empty());
        assert forall|k: int| 0 <= k <= concat_all(batches).len() implies run_phases(
            p0,
            #[trigger] concat_all(batches).take(k),
            id,
        ) != Phase::Broken by {
            assert(concat_all(batches).take(k) =~= Seq::<Effect>::empty());
        }
    } else {
        let n = batches.len() - 1;
        let states0 = states.drop_last();
        let batches0 = batches.drop_last();
        assert forall|k: int| 0 <= k < batches0.len() implies is_step(
            states0[k],
            states0[k + 1],
            #[trigger] batches0[k],
        ) by {
            assert(is_step(states[k], states[k + 1], batches[k]));
        }
        lifecycle_run(states0, batches0, id);
        assert(states0.last() == states[n]);
        assert(is_step(states[n], states[n + 1], batches[n]));
        lemma_step_phase(states[n], states[n + 1], batches[n], id);
        let all = concat_all(batches);
        let head = concat_all(batches0);
        assert(all == head + batches[n]);
        lemma_run_concat(p0, head, batches[n], id);
        assert forall|k: int| 0 <= k <= all.len() implies run_phases(
            p0,
            #[trigger] all.take(k),
            id,
        ) != Phase::Broken by {
            if k <= head.len() {
                assert(all.take(k) =~= head.take(k));
            } else {
                let rest = all.subrange(k, all.len() as int);
                assert(all =~= all.take(k) + rest);
                lemma_run_concat(p0, all.take(k), rest, id);
                if run_phases(p0, all.take(k), id) == Phase::Broken {
                    lemma_run_broken(rest, id);
                }
            }
        }
    }
}

/// A notification's generation never goes down while it stays live: an operation that
/// keeps `id` live leaves its generation as it was, or raises it by exactly one, and it
/// does the latter exactly when it emits `Replaced` for `id`.
pub proof fn generation_step(pre: SourceModel, post: SourceModel, fx: Seq<Effect>, id: u32)
    requires
        pre.wf(),
        is_step(pre, post, fx),
        pre.live.contains_key(id),
        post.live.contains_key(id),
        pre.live[id].generation < u64::MAX,
    ensures
        post.live[id].generation == if replaces(fx, id) {
            pre.live[id].generation + 1
        } else {
            pre.live[id].generation as int
        },
{
    if exists|n: Notification, rid: u32, r: Result<u32, SourceError>|
        #[trigger] notify_rel(pre, n, rid, post, r, fx) {
        let (n, rid, r) = choose|n: Notification, rid: u32, r: Result<u32, SourceError>|
            #[trigger] notify_rel(pre, n, rid, post, r, fx);
        if rid != 0 && pre.live.contains_key(rid) {
            let g = bump(pre.live[rid].generation);
            let ex = expiry_effects(rid, g, n.timeout_ms, pre.default_timeout_ms);
            if rid == id {
                assert(fx[fx.len() - 1] == fx.last());
            } else {
                assert forall|k: int| 0 <= k < fx.len() implies !emits_replaced(#[trigger] fx[k], id) by {
                    if k < ex.len() {
                        assert(fx[k] == fx.subrange(0, ex.len() as int)[k]);
                    }
                }
            }
        } else if pre.live.contains_key(pre.next_id) {
        } else {
            let nid = pre.next_id;
            let ex = expiry_effects(nid, 0, n.timeout_ms, pre.default_timeout_ms);
            assert forall|k: int| 0 <= k < fx.len() implies !emits_replaced(#[trigger] fx[k], id) by {
                if k < ex.len() {
                    assert(fx[k] == fx.subrange(0, ex.len() as int)[k]);
                }
            }
        }
    } else if exists|cid: u32, reason: CloseReason, b: bool|
        #[trigger] close_rel(pre, cid, reason, post, b, fx) {
    } else if exists|cid: u32, key: Seq<char>, b: bool|
        #[trigger] invoke_rel(pre, cid, key, post, b, fx) {
        let (cid, key, b) = choose|cid: u32, key: Seq<char>, b: bool|
            #[trigger] invoke_rel(pre, cid, key, post, b, fx);
        if pre.live.contains_key(cid) && pre.live[cid].notification.has_action(key) {
            assert forall|k: int| 0 <= k < fx.len() implies !emits_replaced(#[trigger] fx[k], id) by {
                if k >= 2 {
                    assert(fx[k] == fx.subrange(2, 4)[k - 2]);
                }
            }
        }
    } else {
    }
}

/// Whether `e` sends an event on the event channel.
pub open spec fn is_event(e: Effect) -> bool {
    e is Emit
}

/// Whether `e` emits `Received` for `id`.
pub open spec fn emits_received(e: Effect, id: u32) -> bool {
    e matches Effect::Emit(NotificationEvent::Received { id: i, .. }) && i == id
}

/// What one `notify` leaves behind. On success the returned id holds exactly the new
/// payload: a replaced live id moves to its next generation, any other call gets a
/// freshly allocated id, never 0 and not live before, at generation 0. The effects then
/// hold exactly one event, the last one: `Replaced` for a replace, `Received` otherwise.
/// A failure changes nothing and emits nothing, and happens only when the allocator's
/// next id is still live.
pub proof fn notify_outcome(
    pre: SourceModel,
    n: Notification,
    rid: u32,
    post: SourceModel,
    r: Result<u32, SourceError>,
    fx: Seq<Effect>,
)
    requires
        pre.wf(),
        notify_rel(pre, n, rid, post, r, fx),
    ensures
        r is Ok ==> post.live.contains_key(r->Ok_0) && post.live[r->Ok_0].notification == n,
        r is Ok && rid != 0 && pre.live.contains_key(rid) ==> r->Ok_0 == rid
            && post.live[rid].generation == bump(pre.live[rid].generation)
            && emits_replaced(fx.last(), rid),
        r is Ok && !(rid != 0 && pre.live.contains_key(rid)) ==> r->Ok_0 != 0 && !pre.live.contains_key(
            r->Ok_0,
        ) && post.live[r->Ok_0].generation == 0 && emits_received(fx.last(), r->Ok_0),
        r is Ok ==> fx.len() > 0 && is_event(fx.last()) && forall|k: int|
            0 <= k < fx.len() - 1 ==> !is_event(#[trigger] fx[k]),
        r is Err ==> post == pre && fx.len() == 0 && pre.live.contains_key(pre.next_id),
{
    if r is Ok {
        let (g, id) = if rid != 0 && pre.live.contains_key(rid) {
            (bump(pre.live[rid].generation), rid)
        } else {
            (0u64, pre.next_id)
        };
        let ex = expiry_effects(id, g, n.timeout_ms, pre.default_timeout_ms);
        assert forall|k: int| 0 <= k < fx.len() - 1 implies !is_event(#[trigger] fx[k]) by {
            assert(fx[k] == fx.subrange(0, ex.len() as int)[k]);
        }
    }
}

/// A repeated close is a no-op: right after `close(id, _)`, closing `id` again returns
/// `false`, emits nothing and changes nothing.
pub proof fn close_twice(
    pre: SourceModel,
    id: u32,
    first_reason: CloseReason,
    second_reason: CloseReason,
    mid: SourceModel,
    post: SourceModel,
    first_closed: bool,
    second_closed: bool,
    first_fx: Seq<Effect>,
    second_fx: Seq<Effect>,
)
    requires
        close_rel(pre, id, first_reason, mid, first_closed, first_fx),
        close_rel(mid, id, second_reason, post, second_closed, second_fx),
    ensures
        !second_closed,
        second_fx.len() == 0,
        post == mid,
{
}

/// A timer made stale by an in-place replace is a no-op: after `notify` replaces the
/// live notification `id`, the timer scheduled for its former generation closes
/// nothing and emits nothing.
pub proof fn stale_timer_after_replace(
    pre: SourceModel,
    n: Notification,
    id: u32,
    mid: SourceModel,
    notify_fx: Seq<Effect>,
    post: SourceModel,
    expire_fx: Seq<Effect>,
)
    requires
        id != 0,
        pre.live.contains_key(id),
        pre.live[id].generation < u64::MAX,
        notify_rel(pre, n, id, mid, Ok(id), notify_fx),
        expire_rel(mid, id, pre.live[id].generation, post, expire_fx),
    ensures
        expire_fx.len() == 0,
        post == mid,
{
}

} // verus!
