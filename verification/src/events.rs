//! Events and the event queue. An event carries a payload, a target widget,
//! an origin widget, and a propagation mode; once enqueued it is immutable
//! until dispatch consumes it. The queue is strict FIFO: insertion order is
//! processing order, and events enqueued while the queue drains are appended
//! and processed in the same drain.

use vstd::prelude::*;

use crate::entity::Entity;

verus! {

#[derive(Clone, Copy, PartialEq, Eq, Structural, Debug)]
pub enum MouseButton {
    Left,
    Middle,
    Right,
    Other(u16),
}

#[derive(Clone, Copy, PartialEq, Eq, Structural, Debug)]
pub enum MouseButtonState {
    Pressed,
    Released,
}

#[derive(Clone, Copy, PartialEq, Eq, Structural, Debug)]
pub enum CursorIcon {
    Arrow,
    EResize,
}

/// Key codes the core reads: the modifier keys, Tab for focus traversal, the
/// note keys of the synthesizer example, and everything else.
#[derive(Clone, Copy, PartialEq, Eq, Structural, Debug)]
pub enum KeyCode {
    Shift,
    Control,
    Alt,
    Meta,
    Tab,
    Z,
    S,
    X,
    D,
    C,
    F,
    V,
    G,
    B,
    H,
    N,
    J,
    M,
    Other(u32),
}

/// The event payload: window-level events plus the widget-custom
/// slider-value-changed message (value in millionths).
#[derive(Clone, Copy, PartialEq, Eq, Structural, Debug)]
pub enum WindowEvent {
    MouseDown(MouseButton),
    MouseUp(MouseButton),
    /// Cursor position in logical pixels.
    MouseMove(i64, i64),
    /// Scroll deltas.
    MouseScroll(i64, i64),
    /// The cursor entered the target widget's resolved hover.
    MouseOver,
    /// The cursor left the target widget's resolved hover.
    MouseOut,
    KeyDown(KeyCode),
    KeyUp(KeyCode),
    /// A typed character, as a Unicode scalar value.
    CharInput(u32),
    Restyle,
    Relayout,
    Redraw,
    WindowClose,
    SetCursor(CursorIcon),
    /// Widget-custom: a slider's value changed, in millionths.
    SliderValue(i64),
}

/// How an event travels through the ancestor chain between its origin and its
/// target.
#[derive(Clone, Copy, PartialEq, Eq, Structural, Debug)]
pub enum Propagation {
    /// Target only.
    Direct,
    /// Origin (or root) down to the target.
    Down,
    /// Target up to the origin (or root): the default bubble.
    Up,
    /// Down to the target, then back up.
    DownUp,
}

#[derive(Clone, Copy, PartialEq, Eq, Structural, Debug)]
pub struct Event {
    pub payload: WindowEvent,
    pub target: Entity,
    pub origin: Entity,
    pub propagation: Propagation,
}

impl Event {
    /// A fresh event: no target yet, origin the root sentinel, bubbling (up)
    /// propagation.
    pub open spec fn new_spec(payload: WindowEvent) -> Event {
        Event {
            payload,
            target: Entity::null_spec(),
            origin: Entity::root_spec(),
            propagation: Propagation::Up,
        }
    }

    #[verifier::when_used_as_spec(new_spec)]
    pub fn new(payload: WindowEvent) -> (e: Event)
        ensures
            e == Event::new_spec(payload),
    {
        Event { payload, target: Entity::null(), origin: Entity::root(), propagation: Propagation::Up }
    }

    pub open spec fn target_spec(self, t: Entity) -> Event {
        Event { target: t, ..self }
    }

    #[verifier::when_used_as_spec(target_spec)]
    pub fn target(self, t: Entity) -> (e: Event)
        ensures
            e == self.target_spec(t),
    {
        Event { target: t, ..self }
    }

    pub open spec fn origin_spec(self, o: Entity) -> Event {
        Event { origin: o, ..self }
    }

    #[verifier::when_used_as_spec(origin_spec)]
    pub fn origin(self, o: Entity) -> (e: Event)
        ensures
            e == self.origin_spec(o),
    {
        Event { origin: o, ..self }
    }

    pub open spec fn propagate_spec(self, p: Propagation) -> Event {
        Event { propagation: p, ..self }
    }

    #[verifier::when_used_as_spec(propagate_spec)]
    pub fn propagate(self, p: Propagation) -> (e: Event)
        ensures
            e == self.propagate_spec(p),
    {
        Event { propagation: p, ..self }
    }
}

/// The pending events, in insertion order; the front is processed first.
pub struct EventQueue {
    events: Vec<Event>,
}

impl View for EventQueue {
    type V = Seq<Event>;

    closed spec fn view(&self) -> Seq<Event> {
        self.events@
    }
}

impl EventQueue {
    pub fn new() -> (q: EventQueue)
        ensures
            q@ == Seq::<Event>::empty(),
    {
        let q = EventQueue { events: Vec::new() };
        proof {
            assert(q@ =~= Seq::<Event>::empty());
        }
        q
    }

    pub fn len(&self) -> (n: usize)
        ensures
            n == self@.len(),
    {
        self.events.len()
    }

    pub fn is_empty(&self) -> (r: bool)
        ensures
            r == (self@.len() == 0),
    {
        self.events.len() == 0
    }

    pub fn get(&self, i: usize) -> (e: Event)
        requires
            i < self@.len(),
        ensures
            e == self@[i as int],
    {
        self.events[i]
    }

    /// Appends an event; it will be processed after everything already
    /// pending.
    pub fn push(&mut self, e: Event)
        ensures
            final(self)@ == old(self)@.push(e),
    {
        self.events.push(e);
    }

    /// Removes and returns the front event.
    pub fn pop_front(&mut self) -> (e: Event)
        requires
            old(self)@.len() > 0,
        ensures
            e == old(self)@[0],
            final(self)@ == old(self)@.skip(1),
    {
        let e = self.events.remove(0);
        proof {
            assert(self@ =~= old(self)@.skip(1));
        }
        e
    }
}

} // verus!
