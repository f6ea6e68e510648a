//! The input translator: converts platform mouse/keyboard events into event
//! queue entries while updating the transient input state and the
//! focus/capture/hover machine.
//!
//! Routing rule for pointer events (move, down, up, scroll): while a capture
//! is held, the event targets the capturing widget with direct propagation,
//! bypassing hit-testing; otherwise it targets the hovered widget with the
//! default bubbling propagation.
//!
//! Every transition is stated exactly by a spec function, and the laws about
//! capture routing and hover transitions are proved from those statements.

use vstd::prelude::*;

use crate::entity::Entity;
use crate::events::{
    Event, KeyCode, MouseButton, MouseButtonState, Propagation, WindowEvent,
};
use crate::hit::{hover_target, resolve_hover};
use crate::input::{Modifiers, MouseButtonData, MouseState, Point};
use crate::state::UiState;
use crate::store::{
    next_focus_of, prev_focus_of, with_focus, with_hover, with_over_winner, WidgetRecord,
};

verus! {

// ---------------------------------------------------------------------------
// Cursor move
// ---------------------------------------------------------------------------

/// The hit-test result of this move differs from the currently hovered
/// widget.
pub open spec fn hover_changed(pre: UiState, x: i64, y: i64) -> bool {
    hover_target(pre.store@, x as int, y as int) != pre.hovered
}

/// The pointer event the routing rule produces: direct to the capturing
/// widget while a capture is held, else bubbling to the given hover target.
pub open spec fn routed_to(captured: Entity, fallback: Entity, payload: WindowEvent) -> Event {
    if captured != Entity::null_spec() {
        Event::new_spec(payload).target_spec(captured).propagate_spec(Propagation::Direct)
    } else {
        Event::new_spec(payload).target_spec(fallback)
    }
}

/// The routed tail of a cursor move: while captured, a direct move to the
/// capturer; else, when something specific is hovered, a bubbling move to it;
/// else nothing.
pub open spec fn move_routed(pre: UiState, x: i64, y: i64) -> Seq<Event> {
    let w = hover_target(pre.store@, x as int, y as int);
    if pre.captured != Entity::null_spec() {
        seq![
            Event::new_spec(WindowEvent::MouseMove(x, y)).target_spec(pre.captured).propagate_spec(
                Propagation::Direct,
            ),
        ]
    } else if w != Entity::root_spec() {
        seq![Event::new_spec(WindowEvent::MouseMove(x, y)).target_spec(w)]
    } else {
        seq![]
    }
}

/// Everything a cursor move enqueues: a restyle and a relayout first; on a
/// hover change one mouse-out at the old hovered widget, one mouse-over at
/// the new, then a restyle and a redraw; finally the routed move itself.
pub open spec fn move_events(pre: UiState, x: i64, y: i64) -> Seq<Event> {
    let w = hover_target(pre.store@, x as int, y as int);
    let head = seq![
        Event::new_spec(WindowEvent::Restyle),
        Event::new_spec(WindowEvent::Relayout),
    ];
    let transition = if w != pre.hovered {
        seq![
            Event::new_spec(WindowEvent::MouseOut).target_spec(pre.hovered),
            Event::new_spec(WindowEvent::MouseOver).target_spec(w),
            Event::new_spec(WindowEvent::Restyle),
            Event::new_spec(WindowEvent::Redraw),
        ]
    } else {
        Seq::<Event>::empty()
    };
    head + transition + move_routed(pre, x, y)
}

/// The store after a cursor move: `over` flags rewritten for the new winner,
/// and on a hover change the old widget's `hover` flag cleared before the new
/// one's is set.
pub open spec fn move_store(pre: UiState, x: i64, y: i64) -> Seq<WidgetRecord> {
    let w = hover_target(pre.store@, x as int, y as int);
    let scanned = with_over_winner(pre.store@, w);
    if w != pre.hovered {
        with_hover(with_hover(scanned, pre.hovered, false), w, true)
    } else {
        scanned
    }
}

// ---------------------------------------------------------------------------
// Button press and release
// ---------------------------------------------------------------------------

/// A press makes the hovered widget active when something specific is
/// hovered and it is not already active.
pub open spec fn press_activates(pre: UiState) -> bool {
    pre.hovered != Entity::null_spec() && pre.active != pre.hovered
}

/// Everything a button press enqueues: a restyle when the press activates a
/// widget, then the routed mouse-down.
pub open spec fn down_events(pre: UiState, b: MouseButton) -> Seq<Event> {
    let restyle = if press_activates(pre) {
        seq![Event::new_spec(WindowEvent::Restyle)]
    } else {
        Seq::<Event>::empty()
    };
    restyle + seq![routed_to(pre.captured, pre.hovered, WindowEvent::MouseDown(b))]
}

/// Everything a button release enqueues: a restyle (the active widget is
/// cleared unconditionally), then the routed mouse-up.
pub open spec fn up_events(pre: UiState, b: MouseButton) -> Seq<Event> {
    seq![
        Event::new_spec(WindowEvent::Restyle),
        routed_to(pre.captured, pre.hovered, WindowEvent::MouseUp(b)),
    ]
}

/// The per-button record after a press: pressed state, the press-down
/// position, and the widget the press landed on.
pub open spec fn button_pressed(d: MouseButtonData, m: MouseState, hovered: Entity) -> MouseButtonData {
    MouseButtonData {
        state: MouseButtonState::Pressed,
        pos_down: Point { x: m.cursorx, y: m.cursory },
        pressed: hovered,
        ..d
    }
}

/// The per-button record after a release: released state, the release-up
/// position, and the widget the release landed on.
pub open spec fn button_released(d: MouseButtonData, m: MouseState, hovered: Entity) -> MouseButtonData {
    MouseButtonData {
        state: MouseButtonState::Released,
        pos_up: Point { x: m.cursorx, y: m.cursory },
        released: hovered,
        ..d
    }
}

/// The mouse state after a press of `b`; buttons other than left, middle and
/// right are routed but not recorded.
pub open spec fn mouse_after_down(m: MouseState, b: MouseButton, hovered: Entity) -> MouseState {
    match b {
        MouseButton::Left => MouseState { left: button_pressed(m.left, m, hovered), ..m },
        MouseButton::Middle => MouseState { middle: button_pressed(m.middle, m, hovered), ..m },
        MouseButton::Right => MouseState { right: button_pressed(m.right, m, hovered), ..m },
        MouseButton::Other(_) => m,
    }
}

/// The mouse state after a release of `b`.
pub open spec fn mouse_after_up(m: MouseState, b: MouseButton, hovered: Entity) -> MouseState {
    match b {
        MouseButton::Left => MouseState { left: button_released(m.left, m, hovered), ..m },
        MouseButton::Middle => MouseState { middle: button_released(m.middle, m, hovered), ..m },
        MouseButton::Right => MouseState { right: button_released(m.right, m, hovered), ..m },
        MouseButton::Other(_) => m,
    }
}

// ---------------------------------------------------------------------------
// Scroll
// ---------------------------------------------------------------------------

/// Everything a scroll enqueues: the routed scroll, or nothing when neither a
/// capture is held nor anything specific is hovered.
pub open spec fn scroll_events(pre: UiState, dx: i64, dy: i64) -> Seq<Event> {
    if pre.captured != Entity::null_spec() {
        seq![
            Event::new_spec(WindowEvent::MouseScroll(dx, dy)).target_spec(
                pre.captured,
            ).propagate_spec(Propagation::Direct),
        ]
    } else if pre.hovered != Entity::root_spec() {
        seq![Event::new_spec(WindowEvent::MouseScroll(dx, dy)).target_spec(pre.hovered)]
    } else {
        Seq::<Event>::empty()
    }
}

// ---------------------------------------------------------------------------
// Keyboard
// ---------------------------------------------------------------------------

/// The modifier flags after a key goes down (`down == true`) or up.
pub open spec fn modifiers_with(m: Modifiers, key: KeyCode, down: bool) -> Modifiers {
    match key {
        KeyCode::Shift => Modifiers { shift: down, ..m },
        KeyCode::Control => Modifiers { ctrl: down, ..m },
        KeyCode::Alt => Modifiers { alt: down, ..m },
        KeyCode::Meta => Modifiers { meta: down, ..m },
        _ => m,
    }
}

/// The first widget in hierarchy order; the root entity for an empty store.
pub open spec fn first_widget(s: Seq<WidgetRecord>) -> Entity {
    if s.len() > 0 {
        s[0].entity
    } else {
        Entity::root_spec()
    }
}

/// Where Tab moves keyboard focus: along the explicit next-focus link when
/// one is set, else wrapping to the first widget in hierarchy order; with
/// Shift held, along the explicit previous-focus link when one is set, else
/// wrapping backward to the root.
pub open spec fn focus_advance_target(s: Seq<WidgetRecord>, focused: Entity, backward: bool) -> Entity {
    if backward {
        let p = prev_focus_of(s, focused);
        if p != Entity::null_spec() {
            p
        } else {
            Entity::root_spec()
        }
    } else {
        let n = next_focus_of(s, focused);
        if n != Entity::null_spec() {
            n
        } else {
            first_widget(s)
        }
    }
}

/// Keyboard focus after a key press: moved by Tab, untouched otherwise.
pub open spec fn focused_after_key(pre: UiState, key: KeyCode) -> Entity {
    if key == KeyCode::Tab {
        focus_advance_target(pre.store@, pre.focused, modifiers_with(pre.modifiers, key, true).shift)
    } else {
        pre.focused
    }
}

/// Everything a key press enqueues: on Tab, the focus change's restyle on the
/// root first; then the key-down, targeted at the (possibly new) focused
/// widget.
pub open spec fn key_down_events(pre: UiState, key: KeyCode) -> Seq<Event> {
    let target = focused_after_key(pre, key);
    let key_ev = Event::new_spec(WindowEvent::KeyDown(key)).target_spec(target);
    if key == KeyCode::Tab {
        seq![
            Event::new_spec(WindowEvent::Restyle).target_spec(Entity::root_spec()),
            key_ev,
        ]
    } else {
        seq![key_ev]
    }
}

/// The store after a key press: on Tab the focus flags move, otherwise
/// nothing changes.
pub open spec fn key_down_store(pre: UiState, key: KeyCode) -> Seq<WidgetRecord> {
    if key == KeyCode::Tab {
        with_focus(
            with_focus(pre.store@, pre.focused, false),
            focused_after_key(pre, key),
            true,
        )
    } else {
        pre.store@
    }
}

impl UiState {
    /// Translates a cursor move: restyle and relayout are scheduled, the
    /// cursor position is recorded, hit-testing resolves the hovered widget
    /// and rewrites the `over` flags, a hover change swaps the `hover` flags,
    /// clears the active widget and emits mouse-out/mouse-over plus a restyle
    /// and a redraw, and the move itself is routed (directly to the capturer
    /// while a capture is held).
    pub fn on_cursor_move(&mut self, x: i64, y: i64)
        ensures
            final(self).queue@ == old(self).queue@ + move_events(*old(self), x, y),
            final(self).store@ == move_store(*old(self), x, y),
            final(self).hovered == hover_target(old(self).store@, x as int, y as int),
            final(self).active == (if hover_changed(*old(self), x, y) {
                Entity::null_spec()
            } else {
                old(self).active
            }),
            final(self).mouse == (MouseState { cursorx: x, cursory: y, ..old(self).mouse }),
            final(self).modifiers == old(self).modifiers,
            final(self).captured == old(self).captured,
            final(self).focused == old(self).focused,
    {
        self.insert_event(Event::new(WindowEvent::Restyle));
        self.insert_event(Event::new(WindowEvent::Relayout));
        self.mouse.cursorx = x;
        self.mouse.cursory = y;
        let w = resolve_hover(&self.store, x, y);
        self.store.set_over_winner(w);
        if w != self.hovered {
            let prev = self.hovered;
            self.store.set_hover(prev, false);
            self.store.set_hover(w, true);
            self.insert_event(Event::new(WindowEvent::MouseOut).target(prev));
            self.insert_event(Event::new(WindowEvent::MouseOver).target(w));
            self.hovered = w;
            self.active = Entity::null();
            self.insert_event(Event::new(WindowEvent::Restyle));
            self.insert_event(Event::new(WindowEvent::Redraw));
        }
        if !self.captured.is_null() {
            let cap = self.captured;
            self.insert_event(
                Event::new(WindowEvent::MouseMove(x, y)).target(cap).propagate(Propagation::Direct),
            );
        } else if !(self.hovered == Entity::root()) {
            let h = self.hovered;
            self.insert_event(Event::new(WindowEvent::MouseMove(x, y)).target(h));
        }
        proof {
            assert(self.queue@ =~= old(self).queue@ + move_events(*old(self), x, y));
        }
    }

    /// Translates a button press: the button record takes the press position
    /// and the hovered widget, a hovered widget that is not yet active
    /// becomes active with a restyle, and the mouse-down is routed (directly
    /// to the capturer while a capture is held).
    pub fn on_mouse_down(&mut self, b: MouseButton)
        ensures
            final(self).queue@ == old(self).queue@ + down_events(*old(self), b),
            final(self).mouse == mouse_after_down(old(self).mouse, b, old(self).hovered),
            final(self).active == (if press_activates(*old(self)) {
                old(self).hovered
            } else {
                old(self).active
            }),
            final(self).store@ == old(self).store@,
            final(self).modifiers == old(self).modifiers,
            final(self).hovered == old(self).hovered,
            final(self).captured == old(self).captured,
            final(self).focused == old(self).focused,
    {
        match b {
            MouseButton::Left => {
                self.mouse.left.state = MouseButtonState::Pressed;
            },
            MouseButton::Right => {
                self.mouse.right.state = MouseButtonState::Pressed;
            },
            MouseButton::Middle => {
                self.mouse.middle.state = MouseButtonState::Pressed;
            },
            MouseButton::Other(_) => {},
        }
        if !self.hovered.is_null() && !(self.active == self.hovered) {
            self.active = self.hovered;
            self.insert_event(Event::new(WindowEvent::Restyle));
        }
        if !self.captured.is_null() {
            let cap = self.captured;
            self.insert_event(
                Event::new(WindowEvent::MouseDown(b)).target(cap).propagate(Propagation::Direct),
            );
        } else {
            let h = self.hovered;
            self.insert_event(Event::new(WindowEvent::MouseDown(b)).target(h));
        }
        let pos = Point { x: self.mouse.cursorx, y: self.mouse.cursory };
        match b {
            MouseButton::Left => {
                self.mouse.left.pos_down = pos;
                self.mouse.left.pressed = self.hovered;
            },
            MouseButton::Middle => {
                self.mouse.middle.pos_down = pos;
                self.mouse.middle.pressed = self.hovered;
            },
            MouseButton::Right => {
                self.mouse.right.pos_down = pos;
                self.mouse.right.pressed = self.hovered;
            },
            MouseButton::Other(_) => {},
        }
        proof {
            assert(self.queue@ =~= old(self).queue@ + down_events(*old(self), b));
        }
    }

    /// Translates a button release: the button record takes the release
    /// position and the hovered widget, the active widget is cleared
    /// unconditionally with a restyle, and the mouse-up is routed (directly
    /// to the capturer while a capture is held).
    pub fn on_mouse_up(&mut self, b: MouseButton)
        ensures
            final(self).queue@ == old(self).queue@ + up_events(*old(self), b),
            final(self).mouse == mouse_after_up(old(self).mouse, b, old(self).hovered),
            final(self).active == Entity::null_spec(),
            final(self).store@ == old(self).store@,
            final(self).modifiers == old(self).modifiers,
            final(self).hovered == old(self).hovered,
            final(self).captured == old(self).captured,
            final(self).focused == old(self).focused,
    {
        match b {
            MouseButton::Left => {
                self.mouse.left.state = MouseButtonState::Released;
            },
            MouseButton::Right => {
                self.mouse.right.state = MouseButtonState::Released;
            },
            MouseButton::Middle => {
                self.mouse.middle.state = MouseButtonState::Released;
            },
            MouseButton::Other(_) => {},
        }
        self.active = Entity::null();
        self.insert_event(Event::new(WindowEvent::Restyle));
        if !self.captured.is_null() {
            let cap = self.captured;
            self.insert_event(
                Event::new(WindowEvent::MouseUp(b)).target(cap).propagate(Propagation::Direct),
            );
        } else {
            let h = self.hovered;
            self.insert_event(Event::new(WindowEvent::MouseUp(b)).target(h));
        }
        let pos = Point { x: self.mouse.cursorx, y: self.mouse.cursory };
        match b {
            MouseButton::Left => {
                self.mouse.left.pos_up = pos;
                self.mouse.left.released = self.hovered;
            },
            MouseButton::Middle => {
                self.mouse.middle.pos_up = pos;
                self.mouse.middle.released = self.hovered;
            },
            MouseButton::Right => {
                self.mouse.right.pos_up = pos;
                self.mouse.right.released = self.hovered;
            },
            MouseButton::Other(_) => {},
        }
        proof {
            assert(self.queue@ =~= old(self).queue@ + up_events(*old(self), b));
        }
    }

    /// Translates a scroll: routed like every pointer event, directly to the
    /// capturer while a capture is held, else to the hovered widget.
    pub fn on_mouse_scroll(&mut self, dx: i64, dy: i64)
        ensures
            final(self).queue@ == old(self).queue@ + scroll_events(*old(self), dx, dy),
            final(self).store@ == old(self).store@,
            final(self).mouse == old(self).mouse,
            final(self).modifiers == old(self).modifiers,
            final(self).hovered == old(self).hovered,
            final(self).captured == old(self).captured,
            final(self).active == old(self).active,
            final(self).focused == old(self).focused,
    {
        if !self.captured.is_null() {
            let cap = self.captured;
            self.insert_event(
                Event::new(WindowEvent::MouseScroll(dx, dy)).target(cap).propagate(
                    Propagation::Direct,
                ),
            );
        } else if !(self.hovered == Entity::root()) {
            let h = self.hovered;
            self.insert_event(Event::new(WindowEvent::MouseScroll(dx, dy)).target(h));
        }
        proof {
            assert(self.queue@ =~= old(self).queue@ + scroll_events(*old(self), dx, dy));
        }
    }

    /// Translates a key press: the matching modifier flag is set, Tab moves
    /// keyboard focus along the explicit link or its wrap-around fallback,
    /// and the key-down targets the focused widget.
    pub fn on_key_down(&mut self, key: KeyCode)
        ensures
            final(self).queue@ == old(self).queue@ + key_down_events(*old(self), key),
            final(self).store@ == key_down_store(*old(self), key),
            final(self).modifiers == modifiers_with(old(self).modifiers, key, true),
            final(self).focused == focused_after_key(*old(self), key),
            final(self).mouse == old(self).mouse,
            final(self).hovered == old(self).hovered,
            final(self).captured == old(self).captured,
            final(self).active == old(self).active,
    {
        match key {
            KeyCode::Shift => {
                self.modifiers.shift = true;
            },
            KeyCode::Control => {
                self.modifiers.ctrl = true;
            },
            KeyCode::Alt => {
                self.modifiers.alt = true;
            },
            KeyCode::Meta => {
                self.modifiers.meta = true;
            },
            _ => {},
        }
        if matches!(key, KeyCode::Tab) {
            let target = if self.modifiers.shift {
                let p = self.store.get_prev_focus(self.focused);
                if !p.is_null() {
                    p
                } else {
                    Entity::root()
                }
            } else {
                let n = self.store.get_next_focus(self.focused);
                if !n.is_null() {
                    n
                } else {
                    if self.store.len() > 0 {
                        self.store.record_at(0).entity
                    } else {
                        Entity::root()
                    }
                }
            };
            self.set_focus(target);
        }
        let f = self.focused;
        self.insert_event(Event::new(WindowEvent::KeyDown(key)).target(f));
        proof {
            assert(self.queue@ =~= old(self).queue@ + key_down_events(*old(self), key));
        }
    }

    /// Translates a key release: the matching modifier flag is cleared and
    /// the key-up targets the focused widget.
    pub fn on_key_up(&mut self, key: KeyCode)
        ensures
            final(self).queue@ == old(self).queue@.push(
                Event::new_spec(WindowEvent::KeyUp(key)).target_spec(old(self).focused),
            ),
            final(self).store@ == old(self).store@,
            final(self).modifiers == modifiers_with(old(self).modifiers, key, false),
            final(self).mouse == old(self).mouse,
            final(self).hovered == old(self).hovered,
            final(self).captured == old(self).captured,
            final(self).active == old(self).active,
            final(self).focused == old(self).focused,
    {
        match key {
            KeyCode::Shift => {
                self.modifiers.shift = false;
            },
            KeyCode::Control => {
                self.modifiers.ctrl = false;
            },
            KeyCode::Alt => {
                self.modifiers.alt = false;
            },
            KeyCode::Meta => {
                self.modifiers.meta = false;
            },
            _ => {},
        }
        let f = self.focused;
        self.insert_event(Event::new(WindowEvent::KeyUp(key)).target(f));
    }

    /// Translates a typed character: it targets the focused widget.
    pub fn on_char_input(&mut self, c: u32)
        ensures
            final(self).queue@ == old(self).queue@.push(
                Event::new_spec(WindowEvent::CharInput(c)).target_spec(old(self).focused),
            ),
            crate::state::same_but_queue(*old(self), *final(self)),
    {
        let f = self.focused;
        self.insert_event(Event::new(WindowEvent::CharInput(c)).target(f));
    }

    /// Translates the host's window-close notice: a window-close event
    /// targeted at the root.
    pub fn on_window_close(&mut self)
        ensures
            final(self).queue@ == old(self).queue@.push(
                Event::new_spec(WindowEvent::WindowClose).target_spec(Entity::root_spec()),
            ),
            crate::state::same_but_queue(*old(self), *final(self)),
    {
        self.insert_event(Event::new(WindowEvent::WindowClose).target(Entity::root()));
    }
}

// ---------------------------------------------------------------------------
// Laws
// ---------------------------------------------------------------------------

/// A pointer payload: one of the events the routing rule governs.
pub open spec fn is_pointer_payload(p: WindowEvent) -> bool {
    ||| p is MouseMove
    ||| p is MouseDown
    ||| p is MouseUp
    ||| p is MouseScroll
}

/// Capture invariant. While a widget holds the pointer capture, each
/// translated pointer event — move, press, release, scroll — is the one
/// pointer event its translation enqueues, and it targets the capturing
/// widget with direct propagation, whatever the cursor position and the
/// hit-test say. (Each translation function separately ensures that it leaves
/// the capture itself unchanged, so this holds until the capturer releases.)
pub proof fn lemma_capture_overrides_hit_test(
    pre: UiState,
    x: i64,
    y: i64,
    b: MouseButton,
    dx: i64,
    dy: i64,
)
    requires
        pre.captured != Entity::null_spec(),
    ensures
        ({
            let evs = move_events(pre, x, y);
            &&& evs.len() >= 1
            &&& evs.last() == Event::new_spec(WindowEvent::MouseMove(x, y)).target_spec(
                pre.captured,
            ).propagate_spec(Propagation::Direct)
            &&& forall|i: int| 0 <= i < evs.len() - 1 ==> !is_pointer_payload(evs[i].payload)
        }),
        ({
            let evs = down_events(pre, b);
            &&& evs.len() >= 1
            &&& evs.last() == Event::new_spec(WindowEvent::MouseDown(b)).target_spec(
                pre.captured,
            ).propagate_spec(Propagation::Direct)
            &&& forall|i: int| 0 <= i < evs.len() - 1 ==> !is_pointer_payload(evs[i].payload)
        }),
        ({
            let evs = up_events(pre, b);
            &&& evs.len() >= 1
            &&& evs.last() == Event::new_spec(WindowEvent::MouseUp(b)).target_spec(
                pre.captured,
            ).propagate_spec(Propagation::Direct)
            &&& forall|i: int| 0 <= i < evs.len() - 1 ==> !is_pointer_payload(evs[i].payload)
        }),
        scroll_events(pre, dx, dy) == seq![
            Event::new_spec(WindowEvent::MouseScroll(dx, dy)).target_spec(
                pre.captured,
            ).propagate_spec(Propagation::Direct),
        ],
{
    let evs = move_events(pre, x, y);
    assert(evs.last() == Event::new_spec(WindowEvent::MouseMove(x, y)).target_spec(
        pre.captured,
    ).propagate_spec(Propagation::Direct));
    assert forall|i: int| 0 <= i < evs.len() - 1 implies !is_pointer_payload(evs[i].payload) by {
        let w = hover_target(pre.store@, x as int, y as int);
        if w != pre.hovered {
            assert(evs.len() == 7);
        } else {
            assert(evs.len() == 3);
        }
    }
}

/// After a release, hit-testing resumes at once: with no capture held, the
/// move a cursor move routes targets exactly the widget the hit test
/// resolves, with the default bubbling propagation — or nothing when the hit
/// test resolves to the root sentinel.
pub proof fn lemma_uncaptured_move_routes_to_hit(pre: UiState, x: i64, y: i64)
    requires
        pre.captured == Entity::null_spec(),
    ensures
        ({
            let w = hover_target(pre.store@, x as int, y as int);
            move_routed(pre, x, y) == if w != Entity::root_spec() {
                seq![Event::new_spec(WindowEvent::MouseMove(x, y)).target_spec(w)]
            } else {
                Seq::<Event>::empty()
            }
        }),
{
}

/// Hover transitions are exact. When the hit test resolves a widget other
/// than the current hovered one, a cursor move enqueues exactly one mouse-out,
/// targeted at the old hovered widget, and exactly one mouse-over, targeted at
/// the new one, the out before the over; when the hover is unchanged it
/// enqueues neither, however often the hit test is recomputed.
pub proof fn lemma_hover_transition_exact(pre: UiState, x: i64, y: i64)
    ensures
        ({
            let evs = move_events(pre, x, y);
            let w = hover_target(pre.store@, x as int, y as int);
            if w != pre.hovered {
                &&& evs[2] == Event::new_spec(WindowEvent::MouseOut).target_spec(pre.hovered)
                &&& evs[3] == Event::new_spec(WindowEvent::MouseOver).target_spec(w)
                &&& forall|i: int|
                    0 <= i < evs.len() && i != 2 ==> !(evs[i].payload is MouseOut)
                &&& forall|i: int|
                    0 <= i < evs.len() && i != 3 ==> !(evs[i].payload is MouseOver)
            } else {
                forall|i: int|
                    0 <= i < evs.len() ==> !(evs[i].payload is MouseOut) && !(evs[i].payload
                        is MouseOver)
            }
        }),
{
    let evs = move_events(pre, x, y);
    let w = hover_target(pre.store@, x as int, y as int);
    if w != pre.hovered {
        if pre.captured != Entity::null_spec() || w != Entity::root_spec() {
            assert(evs.len() == 7);
        } else {
            assert(evs.len() == 6);
        }
    } else {
        if pre.captured != Entity::null_spec() || w != Entity::root_spec() {
            assert(evs.len() == 3);
        } else {
            assert(evs.len() == 2);
        }
    }
}

/// Focus wrap-around. Tab from a widget with no explicit next-focus link
/// wraps to the first widget in hierarchy order; Shift+Tab from a widget with
/// no explicit previous-focus link wraps backward to the root.
pub proof fn lemma_tab_wraps(s: Seq<WidgetRecord>, focused: Entity)
    ensures
        next_focus_of(s, focused) == Entity::null_spec() ==> focus_advance_target(s, focused, false)
            == first_widget(s),
        prev_focus_of(s, focused) == Entity::null_spec() ==> focus_advance_target(s, focused, true)
            == Entity::root_spec(),
{
}

} // verus!
