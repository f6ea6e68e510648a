//! The shared UI state that every handler sees: the widget store, the
//! transient input state, the focus/capture/hover references, and the event
//! queue. There are no ambient singletons: the state travels by exclusive
//! mutable reference through the dispatch call chain.

use vstd::prelude::*;

use crate::entity::Entity;
use crate::events::{Event, EventQueue, WindowEvent};
use crate::input::{Modifiers, MouseState};
use crate::store::{with_focus, WidgetStore};

verus! {

pub struct UiState {
    pub store: WidgetStore,
    pub mouse: MouseState,
    pub modifiers: Modifiers,
    /// The single resolved hovered widget; the root when nothing specific is
    /// hovered.
    pub hovered: Entity,
    /// The widget with keyboard focus.
    pub focused: Entity,
    /// The widget that captured the pointer; null when no capture is held.
    /// While set, every pointer event routes to it directly.
    pub captured: Entity,
    /// The widget a pressed button went down on; null after release.
    pub active: Entity,
    pub queue: EventQueue,
}

/// `post` keeps everything of `pre` except the event queue.
pub open spec fn same_but_queue(pre: UiState, post: UiState) -> bool {
    &&& post.store@ == pre.store@
    &&& post.mouse == pre.mouse
    &&& post.modifiers == pre.modifiers
    &&& post.hovered == pre.hovered
    &&& post.focused == pre.focused
    &&& post.captured == pre.captured
    &&& post.active == pre.active
}

impl UiState {
    /// The state before any widget is added: empty store, empty queue, the
    /// root hovered and focused, nothing captured or active.
    pub fn new() -> (s: UiState)
        ensures
            s.store@ == Seq::<crate::store::WidgetRecord>::empty(),
            s.mouse == MouseState::initial_spec(),
            s.modifiers == Modifiers::initial_spec(),
            s.hovered == Entity::root_spec(),
            s.focused == Entity::root_spec(),
            s.captured == Entity::null_spec(),
            s.active == Entity::null_spec(),
            s.queue@ == Seq::<Event>::empty(),
    {
        UiState {
            store: WidgetStore::new(),
            mouse: MouseState::initial(),
            modifiers: Modifiers::initial(),
            hovered: Entity::root(),
            focused: Entity::root(),
            captured: Entity::null(),
            active: Entity::null(),
            queue: EventQueue::new(),
        }
    }

    /// Appends an event to the queue; nothing else changes.
    pub fn insert_event(&mut self, e: Event)
        ensures
            same_but_queue(*old(self), *final(self)),
            final(self).queue@ == old(self).queue@.push(e),
    {
        self.queue.push(e);
    }

    /// A widget takes the pointer: until released, every pointer event routes
    /// to it with direct propagation, bypassing hit-testing.
    pub fn capture(&mut self, e: Entity)
        ensures
            final(self).captured == e,
            final(self).store@ == old(self).store@,
            final(self).mouse == old(self).mouse,
            final(self).modifiers == old(self).modifiers,
            final(self).hovered == old(self).hovered,
            final(self).focused == old(self).focused,
            final(self).active == old(self).active,
            final(self).queue@ == old(self).queue@,
    {
        self.captured = e;
    }

    /// A widget releases the pointer; only the holder's release clears the
    /// capture. Hit-testing resumes with the next cursor move.
    pub fn release(&mut self, e: Entity)
        ensures
            final(self).captured == (if old(self).captured == e {
                Entity::null_spec()
            } else {
                old(self).captured
            }),
            final(self).store@ == old(self).store@,
            final(self).mouse == old(self).mouse,
            final(self).modifiers == old(self).modifiers,
            final(self).hovered == old(self).hovered,
            final(self).focused == old(self).focused,
            final(self).active == old(self).active,
            final(self).queue@ == old(self).queue@,
    {
        if self.captured == e {
            self.captured = Entity::null();
        }
    }

    /// Moves keyboard focus: clears the previous focus widget's focus flag,
    /// sets the new one's, and enqueues a restyle on the root.
    pub fn set_focus(&mut self, e: Entity)
        ensures
            final(self).focused == e,
            final(self).store@ == with_focus(
                with_focus(old(self).store@, old(self).focused, false),
                e,
                true,
            ),
            final(self).queue@ == old(self).queue@.push(
                Event::new_spec(WindowEvent::Restyle).target_spec(Entity::root_spec()),
            ),
            final(self).mouse == old(self).mouse,
            final(self).modifiers == old(self).modifiers,
            final(self).hovered == old(self).hovered,
            final(self).captured == old(self).captured,
            final(self).active == old(self).active,
    {
        let prev = self.focused;
        self.store.set_focus_flag(prev, false);
        self.store.set_focus_flag(e, true);
        self.focused = e;
        self.queue.push(Event::new(WindowEvent::Restyle).target(Entity::root()));
    }
}

} // verus!
