use uicore::dispatch::{dispatch_step, flush_events, route, EventHandler, NoopHandler};
use uicore::entity::Entity;
use uicore::events::{Event, Propagation, WindowEvent};
use uicore::state::UiState;
use uicore::store::{Visibility, WidgetProps, WidgetStore};

fn plain_props(clip: Entity) -> WidgetProps {
    WidgetProps {
        posx: 0,
        posy: 0,
        width: 100,
        height: 100,
        z_order: 0,
        visibility: Visibility::Visible,
        opacity: 1_000_000,
        hoverable: true,
        border_width: 0,
        clip_widget: clip,
    }
}

fn three_level_store() -> (WidgetStore, Entity, Entity, Entity) {
    let root = Entity::root();
    let mid = Entity::new(1, 0);
    let leaf = Entity::new(2, 0);
    let mut store = WidgetStore::new();
    store.add_widget(root, Entity::null(), plain_props(root));
    store.add_widget(mid, root, plain_props(root));
    store.add_widget(leaf, mid, plain_props(root));
    (store, root, mid, leaf)
}

#[test]
fn route_direct_hits_target_only() {
    let (store, _root, _mid, leaf) = three_level_store();
    let ev = Event::new(WindowEvent::Redraw).target(leaf).propagate(Propagation::Direct);
    let r = route(&store, &ev);
    assert_eq!(r, vec![leaf]);
}

#[test]
fn route_up_walks_target_to_root() {
    let (store, root, mid, leaf) = three_level_store();
    let ev = Event::new(WindowEvent::Redraw).target(leaf);
    let r = route(&store, &ev);
    assert_eq!(r, vec![leaf, mid, root]);
}

#[test]
fn route_down_walks_root_to_target() {
    let (store, root, mid, leaf) = three_level_store();
    let ev = Event::new(WindowEvent::Redraw).target(leaf).propagate(Propagation::Down);
    let r = route(&store, &ev);
    assert_eq!(r, vec![root, mid, leaf]);
}

#[test]
fn route_down_up_delivers_target_once() {
    let (store, root, mid, leaf) = three_level_store();
    let ev = Event::new(WindowEvent::Redraw).target(leaf).propagate(Propagation::DownUp);
    let r = route(&store, &ev);
    assert_eq!(r, vec![root, mid, leaf, mid, root]);
}

#[test]
fn route_up_stops_at_origin() {
    let (store, _root, mid, leaf) = three_level_store();
    let ev = Event::new(WindowEvent::Redraw).target(leaf).origin(mid);
    let r = route(&store, &ev);
    assert_eq!(r, vec![leaf, mid]);
}

#[test]
fn route_to_null_target_is_a_no_op() {
    let (store, _root, _mid, _leaf) = three_level_store();
    let ev = Event::new(WindowEvent::Redraw);
    let r = route(&store, &ev);
    assert!(r.is_empty());
}

#[test]
fn flush_reports_redraw_and_drains() {
    let (store, _root, _mid, leaf) = three_level_store();
    let mut state = UiState::new();
    state.store = store;
    state.insert_event(Event::new(WindowEvent::Restyle).target(leaf));
    state.insert_event(Event::new(WindowEvent::Redraw));
    let mut handler = NoopHandler;
    let outcome = flush_events(&mut state, &mut handler, 100);
    assert!(outcome.drained);
    assert!(outcome.redraw);
    assert_eq!(state.queue.len(), 0);
}

#[test]
fn flush_without_redraw_requests_none() {
    let (store, _root, _mid, leaf) = three_level_store();
    let mut state = UiState::new();
    state.store = store;
    state.insert_event(Event::new(WindowEvent::Restyle).target(leaf));
    let mut handler = NoopHandler;
    let outcome = flush_events(&mut state, &mut handler, 100);
    assert!(outcome.drained);
    assert!(!outcome.redraw);
}

#[test]
fn dispatch_step_pops_exactly_one_event() {
    let (store, _root, _mid, leaf) = three_level_store();
    let mut state = UiState::new();
    state.store = store;
    state.insert_event(Event::new(WindowEvent::Redraw).target(leaf));
    state.insert_event(Event::new(WindowEvent::Restyle).target(leaf));
    let mut handler = NoopHandler;
    let redraw = dispatch_step(&mut state, &mut handler);
    assert!(redraw);
    assert_eq!(state.queue.len(), 1);
    assert_eq!(state.queue.get(0).payload, WindowEvent::Restyle);
}

/// A handler that answers a chained character event by enqueuing the next
/// link of the chain, directly targeted, until the chain runs out.
struct ChainHandler {
    calls: u64,
}

impl EventHandler for ChainHandler {
    fn on_event(&mut self, state: &mut UiState, recipient: Entity, event: &Event) {
        self.calls += 1;
        if let WindowEvent::CharInput(n) = event.payload {
            if n > 0 {
                state.insert_event(
                    Event::new(WindowEvent::CharInput(n - 1))
                        .target(recipient)
                        .propagate(Propagation::Direct),
                );
            }
        }
    }
}

#[test]
fn flush_drains_recursively_enqueued_chain() {
    // A handler that enqueues the next of an N-deep chain from each event:
    // the drain terminates after N + 1 steps and leaves the queue empty.
    let n: u32 = 5;
    let (store, _root, _mid, leaf) = three_level_store();
    let mut state = UiState::new();
    state.store = store;
    state.insert_event(
        Event::new(WindowEvent::CharInput(n)).target(leaf).propagate(Propagation::Direct),
    );
    let mut handler = ChainHandler { calls: 0 };
    let outcome = flush_events(&mut state, &mut handler, (n + 1) as u64);
    assert!(outcome.drained);
    assert_eq!(state.queue.len(), 0);
    assert_eq!(handler.calls, (n + 1) as u64);
}

#[test]
fn flush_stops_at_the_step_budget() {
    let n: u32 = 5;
    let (store, _root, _mid, leaf) = three_level_store();
    let mut state = UiState::new();
    state.store = store;
    state.insert_event(
        Event::new(WindowEvent::CharInput(n)).target(leaf).propagate(Propagation::Direct),
    );
    let mut handler = ChainHandler { calls: 0 };
    let outcome = flush_events(&mut state, &mut handler, n as u64);
    assert!(!outcome.drained);
    assert_eq!(state.queue.len(), 1);
}
