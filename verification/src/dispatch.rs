//! The dispatcher: drains the event queue in strict FIFO order, resolves each
//! event's recipients from its propagation mode by walking the ancestor chain
//! between target and origin, and invokes the widget handler for each
//! recipient in that order. Handlers may enqueue further events; those are
//! appended to the same queue and processed in the same drain
//! (process-until-empty, not one-pass). A step budget bounds the drain so a
//! handler that enqueues endlessly cannot hang the frame; the host passes a
//! budget no well-behaved frame reaches.
//!
//! Routing an event whose target is null is a no-op: the event is dropped,
//! not an error.

use vstd::prelude::*;

use crate::entity::Entity;
use crate::events::{Event, Propagation, WindowEvent};
use crate::state::UiState;
use crate::store::{find_idx, parent_of, WidgetRecord, WidgetStore};

verus! {

/// The ancestor chain from `e` up to `origin` inclusive; it ends early at a
/// null parent (the root) and runs out of fuel rather than looping on a
/// malformed store.
pub open spec fn chain_to(s: Seq<WidgetRecord>, e: Entity, origin: Entity, fuel: nat) -> Seq<
    Entity,
>
    decreases fuel,
{
    if e == Entity::null_spec() || fuel == 0 {
        Seq::empty()
    } else if e == origin {
        seq![e]
    } else {
        seq![e] + chain_to(s, parent_of(s, e), origin, (fuel - 1) as nat)
    }
}

/// Enough fuel to reach the end of any chain in a store whose parents come
/// before their children (`lemma_route_fuel_suffices`).
pub open spec fn route_fuel(s: Seq<WidgetRecord>) -> nat {
    s.len() + 1
}

/// Hierarchy order: every widget's parent is null or has a record earlier in
/// the store.
pub open spec fn parents_precede(s: Seq<WidgetRecord>) -> bool {
    forall|i: int|
        0 <= i < s.len() ==> (#[trigger] s[i].parent) == Entity::null_spec() || exists|j: int|
            0 <= j < i && s[j].entity == s[i].parent
}

/// Each parent step moves to a strictly earlier record, so a chain walked
/// with fuel past the walker's index has already ended: more fuel adds
/// nothing.
proof fn lemma_chain_stable(s: Seq<WidgetRecord>, e: Entity, origin: Entity, f1: nat, f2: nat)
    requires
        parents_precede(s),
        f1 >= find_idx(s, e) + 2,
        f2 >= find_idx(s, e) + 2,
    ensures
        chain_to(s, e, origin, f1) == chain_to(s, e, origin, f2),
    decreases find_idx(s, e) + 1,
{
    crate::store::lemma_find_idx_valid(s, e);
    if e == Entity::null_spec() || e == origin {
        // Both walks end here.
    } else {
        let i = find_idx(s, e);
        if i == -1 {
            // A missing widget has a null parent: both walks take one step
            // and end.
            assert(chain_to(s, parent_of(s, e), origin, (f1 - 1) as nat) =~= Seq::<
                Entity,
            >::empty());
            assert(chain_to(s, parent_of(s, e), origin, (f2 - 1) as nat) =~= Seq::<
                Entity,
            >::empty());
        } else {
            let p = s[i].parent;
            assert(parent_of(s, e) == p);
            if p == Entity::null_spec() {
                assert(chain_to(s, p, origin, (f1 - 1) as nat) =~= Seq::<Entity>::empty());
                assert(chain_to(s, p, origin, (f2 - 1) as nat) =~= Seq::<Entity>::empty());
            } else {
                let j = choose|j: int| 0 <= j < i && s[j].entity == p;
                crate::store::lemma_find_idx_first(s, p, j);
                lemma_chain_stable(s, p, origin, (f1 - 1) as nat, (f2 - 1) as nat);
            }
        }
    }
}

/// In a store whose parents come before their children, the default fuel
/// walks every ancestor chain to its end: giving `chain_to` any more fuel
/// changes nothing, so `route_spec` is what an unbounded walk would reach.
pub proof fn lemma_route_fuel_suffices(
    s: Seq<WidgetRecord>,
    e: Entity,
    origin: Entity,
    fuel: nat,
)
    requires
        parents_precede(s),
        fuel >= route_fuel(s),
    ensures
        chain_to(s, e, origin, fuel) == chain_to(s, e, origin, route_fuel(s)),
{
    crate::store::lemma_find_idx_valid(s, e);
    lemma_chain_stable(s, e, origin, fuel, route_fuel(s));
}

/// The recipients of an event, in delivery order. Nothing receives an event
/// targeted at null. `Direct` delivers to the target alone; `Up` walks target
/// to origin; `Down` walks origin to target; `DownUp` walks down and then up
/// again, the target delivered once.
pub open spec fn route_spec(s: Seq<WidgetRecord>, ev: Event) -> Seq<Entity> {
    if ev.target == Entity::null_spec() {
        Seq::empty()
    } else {
        let up = chain_to(s, ev.target, ev.origin, route_fuel(s));
        match ev.propagation {
            Propagation::Direct => seq![ev.target],
            Propagation::Up => up,
            Propagation::Down => up.reverse(),
            Propagation::DownUp => up.reverse() + up.skip(1),
        }
    }
}

/// Walks the ancestor chain from `e` up to `origin`.
fn ancestor_chain(store: &WidgetStore, e: Entity, origin: Entity) -> (r: Vec<Entity>)
    ensures
        r@ == chain_to(store@, e, origin, route_fuel(store@)),
{
    let mut chain: Vec<Entity> = Vec::new();
    let mut cur = e;
    let mut fuel: u128 = store.len() as u128 + 1;
    proof {
        assert(chain@ + chain_to(store@, cur, origin, fuel as nat) =~= chain_to(
            store@,
            e,
            origin,
            route_fuel(store@),
        ));
    }
    loop
        invariant_except_break
            chain@ + chain_to(store@, cur, origin, fuel as nat) == chain_to(
                store@,
                e,
                origin,
                route_fuel(store@),
            ),
        ensures
            chain@ == chain_to(store@, e, origin, route_fuel(store@)),
        decreases fuel,
    {
        if fuel == 0 || cur.is_null() {
            proof {
                assert(chain@ + chain_to(store@, cur, origin, fuel as nat) =~= chain@);
            }
            break;
        }
        let ghost cb = chain@;
        let ghost fb = fuel as nat;
        let ghost curb = cur;
        chain.push(cur);
        if cur == origin {
            proof {
                assert(chain_to(store@, curb, origin, fb) == seq![curb]);
                assert(chain@ =~= cb + seq![curb]);
                assert(chain@ == chain_to(store@, e, origin, route_fuel(store@)));
            }
            break;
        }
        cur = store.get_parent(cur);
        fuel = fuel - 1;
        proof {
            assert(chain_to(store@, curb, origin, fb) == seq![curb] + chain_to(
                store@,
                parent_of(store@, curb),
                origin,
                (fb - 1) as nat,
            ));
            assert(chain@ + chain_to(store@, cur, origin, fuel as nat) =~= cb + chain_to(
                store@,
                curb,
                origin,
                fb,
            ));
        }
    }
    chain
}

/// The given entities in reverse order.
fn reversed(v: &Vec<Entity>) -> (r: Vec<Entity>)
    ensures
        r@ == v@.reverse(),
{
    let n = v.len();
    let mut out: Vec<Entity> = Vec::new();
    let mut i: usize = 0;
    while i < n
        invariant
            i <= n,
            n == v@.len(),
            out@.len() == i,
            forall|j: int| 0 <= j < i ==> out@[j] == v@[n - 1 - j],
        decreases n - i,
    {
        out.push(v[n - 1 - i]);
        i = i + 1;
    }
    proof {
        assert(out@ =~= v@.reverse());
    }
    out
}

/// Resolves the recipients of `ev` against the current store, in delivery
/// order.
pub fn route(store: &WidgetStore, ev: &Event) -> (r: Vec<Entity>)
    ensures
        r@ == route_spec(store@, *ev),
{
    let mut out: Vec<Entity> = Vec::new();
    if ev.target.is_null() {
        proof {
            assert(out@ =~= route_spec(store@, *ev));
        }
        return out;
    }
    match ev.propagation {
        Propagation::Direct => {
            out.push(ev.target);
            proof {
                assert(out@ =~= route_spec(store@, *ev));
            }
            out
        },
        Propagation::Up => {
            ancestor_chain(store, ev.target, ev.origin)
        },
        Propagation::Down => {
            let up = ancestor_chain(store, ev.target, ev.origin);
            reversed(&up)
        },
        Propagation::DownUp => {
            let up = ancestor_chain(store, ev.target, ev.origin);
            proof {
                assert(up@.len() >= 1);
            }
            let mut down = reversed(&up);
            proof {
                assert(down@ =~= up@.reverse() + up@.subrange(1, 1));
            }
            let n = up.len();
            let mut i: usize = 1;
            while i < n
                invariant
                    1 <= i <= n,
                    n == up@.len(),
                    down@ == up@.reverse() + up@.subrange(1, i as int),
                decreases n - i,
            {
                let ghost db = down@;
                down.push(up[i]);
                proof {
                    assert(db.push(up@[i as int]) =~= up@.reverse() + up@.subrange(
                        1,
                        i as int + 1,
                    ));
                }
                i = i + 1;
            }
            proof {
                assert(up@.subrange(1, n as int) =~= up@.skip(1));
            }
            down
        },
    }
}

/// A widget event handler: the behavior side of dispatch, implemented by the
/// application's widgets. A handler may read and mutate the shared state —
/// set pseudo-class flags, write styles, take or release the pointer capture,
/// and enqueue further events — but it never removes pending events: the
/// queue only grows under it.
pub trait EventHandler {
    fn on_event(&mut self, state: &mut UiState, recipient: Entity, event: &Event)
        ensures
            old(state).queue@.is_prefix_of(final(state).queue@),
    ;
}

/// A handler that ignores every event.
pub struct NoopHandler;

impl EventHandler for NoopHandler {
    fn on_event(&mut self, state: &mut UiState, _recipient: Entity, _event: &Event) {
        proof {
            assert(state.queue@.is_prefix_of(state.queue@)) by {
                assert(state.queue@ =~= state.queue@.subrange(0, state.queue@.len() as int));
            }
        }
    }
}

proof fn lemma_prefix_transitive(a: Seq<Event>, b: Seq<Event>, c: Seq<Event>)
    requires
        a.is_prefix_of(b),
        b.is_prefix_of(c),
    ensures
        a.is_prefix_of(c),
{
    assert(a =~= c.subrange(0, a.len() as int));
}

/// Removes the front event and delivers it to each recipient its propagation
/// mode selects, in order. Returns whether the event was a redraw request.
/// Handlers may enqueue further events; everything that was already pending
/// stays pending in order.
pub fn dispatch_step<H: EventHandler>(state: &mut UiState, handler: &mut H) -> (redraw: bool)
    requires
        old(state).queue@.len() > 0,
    ensures
        redraw == (old(state).queue@[0].payload is Redraw),
        old(state).queue@.skip(1).is_prefix_of(final(state).queue@),
{
    let ev = state.queue.pop_front();
    let redraw = matches!(ev.payload, WindowEvent::Redraw);
    let recipients = route(&state.store, &ev);
    let ghost q0 = state.queue@;
    proof {
        assert(q0.is_prefix_of(q0)) by {
            assert(q0 =~= q0.subrange(0, q0.len() as int));
        }
    }
    let n = recipients.len();
    let mut i: usize = 0;
    while i < n
        invariant
            i <= n,
            n == recipients@.len(),
            q0.is_prefix_of(state.queue@),
        decreases n - i,
    {
        let ghost qb = state.queue@;
        let rec = recipients[i];
        handler.on_event(state, rec, &ev);
        proof {
            lemma_prefix_transitive(q0, qb, state.queue@);
        }
        i = i + 1;
    }
    redraw
}

/// What a drain reports: whether the queue reached empty within the step
/// budget, and whether any processed event requested a redraw.
#[derive(Clone, Copy, PartialEq, Eq, Structural, Debug)]
pub struct FlushOutcome {
    pub drained: bool,
    pub redraw: bool,
}

/// The trace of a drain: the queue before each dispatch step, and after the
/// last. Each step pops the front of a nonempty queue; what was pending stays
/// pending in order, and handler emissions are appended behind it.
pub open spec fn drain_steps(qs: Seq<Seq<Event>>) -> bool {
    &&& qs.len() >= 1
    &&& forall|i: int|
        0 <= i < qs.len() - 1 ==> (#[trigger] qs[i]).len() > 0 && qs[i].skip(1).is_prefix_of(
            qs[i + 1],
        )
}

/// Some step of the drain popped a redraw request.
pub open spec fn drain_saw_redraw(qs: Seq<Seq<Event>>) -> bool {
    exists|i: int| 0 <= i < qs.len() - 1 && (#[trigger] qs[i])[0].payload is Redraw
}

/// A drain whose recursive enqueueing is well-founded cannot loop: when some
/// rank of the queue strictly falls at every dispatch step — as it does for a
/// handler chain of finite depth, ranked by remaining depth plus queue
/// length — a drain trace of `n` steps has `n` at most the starting rank.
pub proof fn lemma_well_founded_drain_is_bounded(
    qs: Seq<Seq<Event>>,
    rank: spec_fn(Seq<Event>) -> nat,
)
    requires
        drain_steps(qs),
        forall|i: int| 0 <= i < qs.len() - 1 ==> rank(qs[i + 1]) < rank(#[trigger] qs[i]),
    ensures
        qs.len() <= rank(qs[0]) + 1,
    decreases qs.len(),
{
    if qs.len() > 1 {
        let tail = qs.skip(1);
        assert forall|i: int|
            0 <= i < tail.len() - 1 implies (#[trigger] tail[i]).len() > 0 && tail[i].skip(
            1,
        ).is_prefix_of(tail[i + 1]) by {
            assert(tail[i] == qs[i + 1]);
            assert(tail[i + 1] == qs[i + 2]);
        }
        assert forall|i: int|
            0 <= i < tail.len() - 1 implies rank(tail[i + 1]) < rank(#[trigger] tail[i]) by {
            assert(tail[i] == qs[i + 1]);
            assert(tail[i + 1] == qs[i + 2]);
        }
        lemma_well_founded_drain_is_bounded(tail, rank);
        assert(tail[0] == qs[1]);
        assert(rank(qs[1]) < rank(qs[0]));
    }
}

/// The queue drains to empty even when handlers enqueue new events
/// recursively, provided the recursion is well-founded: if some rank of the
/// queue strictly falls at every step, any budget above the starting rank
/// cannot be exhausted, so a drain under `flush_events`' contract returned
/// with the queue empty. An N-deep handler chain starting from one event has
/// rank N + 1, so it ends within N + 1 steps.
pub proof fn lemma_well_founded_drain_drains(
    qs: Seq<Seq<Event>>,
    rank: spec_fn(Seq<Event>) -> nat,
    limit: u64,
    drained: bool,
)
    requires
        drain_steps(qs),
        forall|i: int| 0 <= i < qs.len() - 1 ==> rank(qs[i + 1]) < rank(#[trigger] qs[i]),
        !drained ==> qs.len() == limit + 1,
        limit > rank(qs[0]),
    ensures
        drained,
{
    lemma_well_founded_drain_is_bounded(qs, rank);
}

/// Drains the event queue in strict FIFO order, one dispatch step per pending
/// event, processing at most `limit` events; events that handlers enqueue
/// during the drain are appended and processed in the same drain. The drain
/// is a trace of dispatch steps: it stops before the budget only with the
/// queue empty, it exhausts the budget only after exactly `limit` steps, the
/// redraw flag reports exactly whether some processed event was a redraw
/// request, and a drain that reaches an empty queue has missed no pending
/// redraw request.
pub fn flush_events<H: EventHandler>(state: &mut UiState, handler: &mut H, limit: u64) -> (r:
    FlushOutcome)
    ensures
        r.drained == (final(state).queue@.len() == 0),
        exists|qs: Seq<Seq<Event>>|
            {
                &&& #[trigger] drain_steps(qs)
                &&& qs.first() == old(state).queue@
                &&& qs.last() == final(state).queue@
                &&& qs.len() <= limit + 1
                &&& (!r.drained ==> qs.len() == limit + 1)
                &&& (r.redraw <==> drain_saw_redraw(qs))
            },
        r.drained && (exists|i: int|
            0 <= i < old(state).queue@.len() && old(state).queue@[i].payload is Redraw)
            ==> r.redraw,
        old(state).queue@.len() == 0 ==> r.drained && !r.redraw && final(state).queue@ == old(
            state,
        ).queue@,
{
    let mut redraw = false;
    let mut steps: u64 = 0;
    let ghost mut qs: Seq<Seq<Event>> = seq![state.queue@];
    while steps < limit && !state.queue.is_empty()
        invariant
            steps <= limit,
            drain_steps(qs),
            qs.len() == steps + 1,
            qs.first() == old(state).queue@,
            qs.last() == state.queue@,
            redraw <==> drain_saw_redraw(qs),
            (exists|i: int|
                0 <= i < old(state).queue@.len() && old(state).queue@[i].payload is Redraw) ==> (
            redraw || exists|j: int|
                0 <= j < state.queue@.len() && state.queue@[j].payload is Redraw),
            old(state).queue@.len() == 0 ==> !redraw && state.queue@ == old(state).queue@,
        decreases limit - steps,
    {
        let ghost qb = state.queue@;
        let ghost qs_pre = qs;
        let step_redraw = dispatch_step(state, handler);
        if step_redraw {
            redraw = true;
        }
        proof {
            qs = qs_pre.push(state.queue@);
            assert forall|i: int|
                0 <= i < qs.len() - 1 implies (#[trigger] qs[i]).len() > 0 && qs[i].skip(
                1,
            ).is_prefix_of(qs[i + 1]) by {
                if i < qs_pre.len() - 1 {
                    assert(qs[i] == qs_pre[i]);
                    assert(qs[i + 1] == qs_pre[i + 1]);
                } else {
                    assert(qs[i] == qb);
                }
            }
            if step_redraw {
                assert(qs[qs.len() - 2] == qb);
                assert(drain_saw_redraw(qs));
            } else {
                if drain_saw_redraw(qs) {
                    let i = choose|i: int|
                        0 <= i < qs.len() - 1 && (#[trigger] qs[i])[0].payload is Redraw;
                    if i == qs.len() - 2 {
                        assert(qs[i] == qb);
                    } else {
                        assert(qs[i] == qs_pre[i]);
                        assert(drain_saw_redraw(qs_pre));
                    }
                }
                if drain_saw_redraw(qs_pre) {
                    let i = choose|i: int|
                        0 <= i < qs_pre.len() - 1 && (#[trigger] qs_pre[i])[0].payload is Redraw;
                    assert(qs[i] == qs_pre[i]);
                    assert(drain_saw_redraw(qs));
                }
            }
            if !redraw && (exists|j: int| 0 <= j < qb.len() && qb[j].payload is Redraw) {
                let j = choose|j: int| 0 <= j < qb.len() && qb[j].payload is Redraw;
                assert(j >= 1);
                assert(qb.skip(1)[j - 1].payload is Redraw);
                assert(state.queue@[j - 1] == qb.skip(1)[j - 1]);
            }
        }
        steps = steps + 1;
    }
    let drained = state.queue.is_empty();
    proof {
        assert(drain_steps(qs) && qs.first() == old(state).queue@ && qs.last() == state.queue@
            && qs.len() <= limit + 1 && (!drained ==> qs.len() == limit + 1) && (redraw
            <==> drain_saw_redraw(qs)));
    }
    FlushOutcome { drained, redraw }
}

} // verus!
