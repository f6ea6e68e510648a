//! The application: the host-facing shell around the UI state. The host owns
//! the event loop and hands the core each platform event and one frame tick;
//! the core has no independent lifecycle.
//!
//! Per frame tick: animations were advanced by the host's animation
//! collaborator (its report arrives as a flag); an active animation schedules
//! a relayout and a redraw; the event queue is drained; the host draws only
//! when the drain requests a redraw — the sole redraw-throttling mechanism.

use vstd::prelude::*;

use crate::dispatch::{drain_saw_redraw, drain_steps, flush_events, EventHandler, FlushOutcome};
use crate::entity::Entity;
use crate::events::{Event, KeyCode, MouseButton, WindowEvent};
use crate::hit::hover_target;
use crate::input::{Modifiers, MouseState};
use crate::state::UiState;
use crate::store::{WidgetProps, WidgetRecord, Visibility};
use crate::translate::{
    down_events, focused_after_key, hover_changed, key_down_events, key_down_store, modifiers_with,
    mouse_after_down, mouse_after_up, move_events, move_store, press_activates, scroll_events,
    up_events,
};

verus! {

/// Full opacity, in millionths.
pub const FULL_OPACITY: i64 = 1000000;

/// A platform input event, as the host window hands it over: plain values,
/// coordinates already in logical pixels.
#[derive(Clone, Copy, PartialEq, Eq, Structural, Debug)]
pub enum PlatformEvent {
    CursorMoved { x: i64, y: i64 },
    ButtonPressed(MouseButton),
    ButtonReleased(MouseButton),
    WheelScrolled { dx: i64, dy: i64 },
    KeyPressed(KeyCode),
    KeyReleased(KeyCode),
    CharTyped(u32),
    WindowClosed,
}

/// What a platform event appends to the queue.
pub open spec fn translated_events(pre: UiState, ev: PlatformEvent) -> Seq<Event> {
    match ev {
        PlatformEvent::CursorMoved { x, y } => move_events(pre, x, y),
        PlatformEvent::ButtonPressed(b) => down_events(pre, b),
        PlatformEvent::ButtonReleased(b) => up_events(pre, b),
        PlatformEvent::WheelScrolled { dx, dy } => scroll_events(pre, dx, dy),
        PlatformEvent::KeyPressed(k) => key_down_events(pre, k),
        PlatformEvent::KeyReleased(k) => seq![
            Event::new_spec(WindowEvent::KeyUp(k)).target_spec(pre.focused),
        ],
        PlatformEvent::CharTyped(c) => seq![
            Event::new_spec(WindowEvent::CharInput(c)).target_spec(pre.focused),
        ],
        PlatformEvent::WindowClosed => seq![
            Event::new_spec(WindowEvent::WindowClose).target_spec(Entity::root_spec()),
        ],
    }
}

/// The store after a platform event: a cursor move rewrites the hover and
/// over flags, Tab moves the focus flags, everything else leaves it alone.
pub open spec fn store_after(pre: UiState, ev: PlatformEvent) -> Seq<WidgetRecord> {
    match ev {
        PlatformEvent::CursorMoved { x, y } => move_store(pre, x, y),
        PlatformEvent::KeyPressed(k) => key_down_store(pre, k),
        _ => pre.store@,
    }
}

/// The hovered widget after a platform event: only a cursor move re-resolves
/// it.
pub open spec fn hovered_after(pre: UiState, ev: PlatformEvent) -> Entity {
    match ev {
        PlatformEvent::CursorMoved { x, y } => hover_target(pre.store@, x as int, y as int),
        _ => pre.hovered,
    }
}

/// The focused widget after a platform event: only a key press (Tab) moves
/// it.
pub open spec fn focused_after(pre: UiState, ev: PlatformEvent) -> Entity {
    match ev {
        PlatformEvent::KeyPressed(k) => focused_after_key(pre, k),
        _ => pre.focused,
    }
}

/// The active widget after a platform event: a press makes the hovered
/// widget active, a release clears it, and a hover change clears it.
pub open spec fn active_after(pre: UiState, ev: PlatformEvent) -> Entity {
    match ev {
        PlatformEvent::CursorMoved { x, y } => if hover_changed(pre, x, y) {
            Entity::null_spec()
        } else {
            pre.active
        },
        PlatformEvent::ButtonPressed(_) => if press_activates(pre) {
            pre.hovered
        } else {
            pre.active
        },
        PlatformEvent::ButtonReleased(_) => Entity::null_spec(),
        _ => pre.active,
    }
}

/// The mouse record after a platform event.
pub open spec fn mouse_after(pre: UiState, ev: PlatformEvent) -> MouseState {
    match ev {
        PlatformEvent::CursorMoved { x, y } => MouseState { cursorx: x, cursory: y, ..pre.mouse },
        PlatformEvent::ButtonPressed(b) => mouse_after_down(pre.mouse, b, pre.hovered),
        PlatformEvent::ButtonReleased(b) => mouse_after_up(pre.mouse, b, pre.hovered),
        _ => pre.mouse,
    }
}

/// The modifier flags after a platform event.
pub open spec fn modifiers_after(pre: UiState, ev: PlatformEvent) -> Modifiers {
    match ev {
        PlatformEvent::KeyPressed(k) => modifiers_with(pre.modifiers, k, true),
        PlatformEvent::KeyReleased(k) => modifiers_with(pre.modifiers, k, false),
        _ => pre.modifiers,
    }
}

/// The queue a frame's drain starts from: what was pending, and — when an
/// animation is active this tick — a relayout and a redraw scheduled behind
/// it.
pub open spec fn frame_start_queue(pending: Seq<Event>, animation_active: bool) -> Seq<Event> {
    if animation_active {
        pending + seq![
            Event::new_spec(WindowEvent::Relayout),
            Event::new_spec(WindowEvent::Redraw),
        ]
    } else {
        pending
    }
}

/// The geometry the root window starts with.
pub open spec fn root_props_spec(width: i64, height: i64) -> WidgetProps {
    WidgetProps {
        posx: 0,
        posy: 0,
        width,
        height,
        z_order: 0,
        visibility: Visibility::Visible,
        opacity: FULL_OPACITY as i64,
        hoverable: true,
        border_width: 0,
        clip_widget: Entity::root_spec(),
    }
}

/// The application: the UI state plus the two host entry points,
/// `handle_platform_event` and `on_frame`.
pub struct Application {
    pub state: UiState,
}

impl Application {
    /// A fresh application: the store holds the root window of the given
    /// inner size, and a restyle plus a relayout are already scheduled for
    /// the first frame.
    pub fn new(width: i64, height: i64) -> (app: Application)
        ensures
            app.state.store@ == seq![
                WidgetRecord {
                    entity: Entity::root_spec(),
                    parent: Entity::null_spec(),
                    next_focus: Entity::null_spec(),
                    prev_focus: Entity::null_spec(),
                    props: root_props_spec(width, height),
                    hover: false,
                    over: false,
                    focus: false,
                },
            ],
            app.state.queue@ == seq![
                Event::new_spec(WindowEvent::Restyle),
                Event::new_spec(WindowEvent::Relayout),
            ],
            app.state.mouse == MouseState::initial_spec(),
            app.state.modifiers == Modifiers::initial_spec(),
            app.state.hovered == Entity::root_spec(),
            app.state.focused == Entity::root_spec(),
            app.state.captured == Entity::null_spec(),
            app.state.active == Entity::null_spec(),
    {
        let mut state = UiState::new();
        let props = WidgetProps {
            posx: 0,
            posy: 0,
            width,
            height,
            z_order: 0,
            visibility: Visibility::Visible,
            opacity: FULL_OPACITY,
            hoverable: true,
            border_width: 0,
            clip_widget: Entity::root(),
        };
        state.store.add_widget(Entity::root(), Entity::null(), props);
        state.insert_event(Event::new(WindowEvent::Restyle));
        state.insert_event(Event::new(WindowEvent::Relayout));
        let app = Application { state };
        proof {
            assert(app.state.store@ =~= seq![
                WidgetRecord {
                    entity: Entity::root_spec(),
                    parent: Entity::null_spec(),
                    next_focus: Entity::null_spec(),
                    prev_focus: Entity::null_spec(),
                    props: root_props_spec(width, height),
                    hover: false,
                    over: false,
                    focus: false,
                },
            ]);
            assert(app.state.queue@ =~= seq![
                Event::new_spec(WindowEvent::Restyle),
                Event::new_spec(WindowEvent::Relayout),
            ]);
        }
        app
    }

    /// The single input entry point: translates one platform event into queue
    /// entries and input-state updates. The capture is never changed here;
    /// only widget-initiated capture and release calls move it.
    pub fn handle_platform_event(&mut self, ev: PlatformEvent)
        ensures
            final(self).state.queue@ == old(self).state.queue@ + translated_events(
                old(self).state,
                ev,
            ),
            final(self).state.store@ == store_after(old(self).state, ev),
            final(self).state.hovered == hovered_after(old(self).state, ev),
            final(self).state.focused == focused_after(old(self).state, ev),
            final(self).state.active == active_after(old(self).state, ev),
            final(self).state.mouse == mouse_after(old(self).state, ev),
            final(self).state.modifiers == modifiers_after(old(self).state, ev),
            final(self).state.captured == old(self).state.captured,
    {
        match ev {
            PlatformEvent::CursorMoved { x, y } => {
                self.state.on_cursor_move(x, y);
            },
            PlatformEvent::ButtonPressed(b) => {
                self.state.on_mouse_down(b);
            },
            PlatformEvent::ButtonReleased(b) => {
                self.state.on_mouse_up(b);
            },
            PlatformEvent::WheelScrolled { dx, dy } => {
                self.state.on_mouse_scroll(dx, dy);
            },
            PlatformEvent::KeyPressed(k) => {
                self.state.on_key_down(k);
            },
            PlatformEvent::KeyReleased(k) => {
                self.state.on_key_up(k);
                proof {
                    assert(self.state.queue@ =~= old(self).state.queue@ + translated_events(
                        old(self).state,
                        ev,
                    ));
                }
            },
            PlatformEvent::CharTyped(c) => {
                self.state.on_char_input(c);
                proof {
                    assert(self.state.queue@ =~= old(self).state.queue@ + translated_events(
                        old(self).state,
                        ev,
                    ));
                }
            },
            PlatformEvent::WindowClosed => {
                self.state.on_window_close();
                proof {
                    assert(self.state.queue@ =~= old(self).state.queue@ + translated_events(
                        old(self).state,
                        ev,
                    ));
                }
            },
        }
    }

    /// The frame tick. `animation_active` is the animation collaborator's
    /// report; when set, a relayout and a redraw are scheduled behind the
    /// pending events before the drain begins, so a frame that drains its
    /// queue redraws. The drain is the dispatcher's: a trace of dispatch
    /// steps from the frame's start queue, cut off only by the step budget,
    /// whose redraw report is exactly whether some processed event asked to
    /// redraw. The host draws when the outcome asks for a redraw and skips
    /// all drawing otherwise.
    pub fn on_frame<H: EventHandler>(
        &mut self,
        handler: &mut H,
        animation_active: bool,
        limit: u64,
    ) -> (r: FlushOutcome)
        ensures
            r.drained == (final(self).state.queue@.len() == 0),
            exists|qs: Seq<Seq<Event>>|
                {
                    &&& #[trigger] drain_steps(qs)
                    &&& qs.first() == frame_start_queue(old(self).state.queue@, animation_active)
                    &&& qs.last() == final(self).state.queue@
                    &&& qs.len() <= limit + 1
                    &&& (!r.drained ==> qs.len() == limit + 1)
                    &&& (r.redraw <==> drain_saw_redraw(qs))
                },
            r.drained && animation_active ==> r.redraw,
            r.drained && (exists|i: int|
                0 <= i < old(self).state.queue@.len() && old(self).state.queue@[i].payload
                    is Redraw) ==> r.redraw,
            !animation_active && old(self).state.queue@.len() == 0 ==> r.drained && !r.redraw,
    {
        if animation_active {
            self.state.insert_event(Event::new(WindowEvent::Relayout));
            self.state.insert_event(Event::new(WindowEvent::Redraw));
        }
        let ghost pre_flush = self.state.queue@;
        proof {
            assert(pre_flush =~= frame_start_queue(old(self).state.queue@, animation_active));
            if animation_active {
                assert(pre_flush[pre_flush.len() - 1].payload is Redraw);
            }
            if exists|i: int|
                0 <= i < old(self).state.queue@.len() && old(self).state.queue@[i].payload
                    is Redraw {
                let i = choose|i: int|
                    0 <= i < old(self).state.queue@.len() && old(self).state.queue@[i].payload
                        is Redraw;
                assert(pre_flush[i] == old(self).state.queue@[i]);
            }
        }
        flush_events(&mut self.state, handler, limit)
    }
}

} // verus!
