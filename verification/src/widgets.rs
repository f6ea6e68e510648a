//! A resizable panel: the one widget behavior the input core ships. A press
//! near its right edge captures the pointer and starts a resize; every
//! following move, wherever the cursor is, routes to the panel directly and
//! drags its width; the release ends the resize; a move not near the edge
//! releases the capture and restores the arrow cursor.

use vstd::prelude::*;

use crate::dispatch::EventHandler;
use crate::entity::Entity;
use crate::events::{CursorIcon, Event, MouseButton, WindowEvent};
use crate::state::UiState;
use crate::store::{props_of, with_width, WidgetProps, WidgetRecord};

verus! {

/// The width of the grab band along the right edge, logical pixels.
pub const RESIZE_BAND: i64 = 4;

/// `v` clamped into `i64`.
pub open spec fn clamp_i64(v: int) -> i64 {
    if v > i64::MAX {
        i64::MAX
    } else if v < i64::MIN {
        i64::MIN
    } else {
        v as i64
    }
}

/// `x` lies on the grab band at the widget's right edge, edges included (the
/// press test).
pub open spec fn on_edge_incl(p: WidgetProps, x: int) -> bool {
    p.posx + p.width - RESIZE_BAND <= x <= p.posx + p.width
}

/// `x` lies strictly inside the grab band (the move test).
pub open spec fn on_edge_strict(p: WidgetProps, x: int) -> bool {
    p.posx + p.width - RESIZE_BAND < x < p.posx + p.width
}

/// A vertical panel the user can resize by dragging its right edge.
#[derive(Clone, Copy, PartialEq, Eq, Structural, Debug)]
pub struct ResizableVBox {
    pub resizing: bool,
    pub previous_width: i64,
}

/// What one delivered event does to the panel: the new panel state, the
/// events it enqueues, the capture after it ran, and the store after it ran.
///
/// A left press on the edge band starts the resize, remembers the width and
/// captures the pointer. A move while resizing writes the dragged width. A
/// move elsewhere shows the resize cursor on the band, or restores the arrow
/// and releases the capture off it. A left release ends the resize and
/// replays a cursor move at the panel. A mouse-out off a resize restores the
/// arrow.
pub open spec fn rv_step(
    v: ResizableVBox,
    pre: UiState,
    recipient: Entity,
    payload: WindowEvent,
) -> (ResizableVBox, Seq<Event>, Entity, Seq<WidgetRecord>) {
    match payload {
        WindowEvent::MouseDown(b) => {
            let p = props_of(pre.store@, recipient);
            if b == MouseButton::Left && on_edge_incl(p, pre.mouse.left.pos_down.x as int) {
                (
                    ResizableVBox { resizing: true, previous_width: p.width },
                    Seq::<Event>::empty(),
                    recipient,
                    pre.store@,
                )
            } else {
                (v, Seq::<Event>::empty(), pre.captured, pre.store@)
            }
        },
        WindowEvent::MouseUp(b) => {
            if b == MouseButton::Left && v.resizing {
                (
                    ResizableVBox { resizing: false, ..v },
                    seq![
                        Event::new_spec(
                            WindowEvent::MouseMove(pre.mouse.cursorx, pre.mouse.cursory),
                        ).target_spec(recipient),
                    ],
                    pre.captured,
                    pre.store@,
                )
            } else {
                (v, Seq::<Event>::empty(), pre.captured, pre.store@)
            }
        },
        WindowEvent::MouseOut => {
            if !v.resizing {
                (
                    v,
                    seq![Event::new_spec(WindowEvent::SetCursor(CursorIcon::Arrow))],
                    pre.captured,
                    pre.store@,
                )
            } else {
                (v, Seq::<Event>::empty(), pre.captured, pre.store@)
            }
        },
        WindowEvent::MouseMove(x, _y) => {
            if v.resizing {
                let dragged = clamp_i64(
                    v.previous_width + x - pre.mouse.left.pos_down.x,
                );
                (v, Seq::<Event>::empty(), pre.captured, with_width(pre.store@, recipient, dragged))
            } else {
                let p = props_of(pre.store@, recipient);
                if on_edge_strict(p, x as int) {
                    (
                        v,
                        seq![Event::new_spec(WindowEvent::SetCursor(CursorIcon::EResize))],
                        pre.captured,
                        pre.store@,
                    )
                } else {
                    (
                        v,
                        seq![Event::new_spec(WindowEvent::SetCursor(CursorIcon::Arrow))],
                        if pre.captured == recipient {
                            Entity::null_spec()
                        } else {
                            pre.captured
                        },
                        pre.store@,
                    )
                }
            }
        },
        _ => (v, Seq::<Event>::empty(), pre.captured, pre.store@),
    }
}

impl ResizableVBox {
    pub fn new() -> (r: ResizableVBox)
        ensures
            r == (ResizableVBox { resizing: false, previous_width: 0 }),
    {
        ResizableVBox { resizing: false, previous_width: 0 }
    }

    /// Runs one delivered event against the panel, exactly as `rv_step` says.
    pub fn step(&mut self, state: &mut UiState, recipient: Entity, event: &Event)
        ensures
            ({
                let (v2, evs, cap, st) = rv_step(
                    *old(self),
                    *old(state),
                    recipient,
                    event.payload,
                );
                &&& *final(self) == v2
                &&& final(state).queue@ == old(state).queue@ + evs
                &&& final(state).captured == cap
                &&& final(state).store@ == st
            }),
            final(state).mouse == old(state).mouse,
            final(state).modifiers == old(state).modifiers,
            final(state).hovered == old(state).hovered,
            final(state).focused == old(state).focused,
            final(state).active == old(state).active,
            old(state).queue@.is_prefix_of(final(state).queue@),
    {
        let ghost q0 = state.queue@;
        match event.payload {
            WindowEvent::MouseDown(b) => {
                if matches!(b, MouseButton::Left) {
                    let p = state.store.props_of(recipient);
                    let down_x = state.mouse.left.pos_down.x as i128;
                    let edge = (p.posx as i128) + (p.width as i128);
                    if edge - (RESIZE_BAND as i128) <= down_x && down_x <= edge {
                        self.resizing = true;
                        self.previous_width = p.width;
                        state.capture(recipient);
                    }
                }
            },
            WindowEvent::MouseUp(b) => {
                if matches!(b, MouseButton::Left) && self.resizing {
                    self.resizing = false;
                    let mx = state.mouse.cursorx;
                    let my = state.mouse.cursory;
                    state.insert_event(
                        Event::new(WindowEvent::MouseMove(mx, my)).target(recipient),
                    );
                }
            },
            WindowEvent::MouseOut => {
                if !self.resizing {
                    state.insert_event(Event::new(WindowEvent::SetCursor(CursorIcon::Arrow)));
                }
            },
            WindowEvent::MouseMove(x, _y) => {
                if self.resizing {
                    let dragged_wide = (self.previous_width as i128) + (x as i128) - (
                    state.mouse.left.pos_down.x as i128);
                    let dragged: i64 = if dragged_wide > i64::MAX as i128 {
                        i64::MAX
                    } else if dragged_wide < i64::MIN as i128 {
                        i64::MIN
                    } else {
                        dragged_wide as i64
                    };
                    state.store.set_width(recipient, dragged);
                } else {
                    let p = state.store.props_of(recipient);
                    let cx = x as i128;
                    let edge = (p.posx as i128) + (p.width as i128);
                    if edge - (RESIZE_BAND as i128) < cx && cx < edge {
                        state.insert_event(
                            Event::new(WindowEvent::SetCursor(CursorIcon::EResize)),
                        );
                    } else {
                        state.insert_event(Event::new(WindowEvent::SetCursor(CursorIcon::Arrow)));
                        state.release(recipient);
                    }
                }
            },
            _ => {},
        }
        proof {
            let (v2, evs, cap, st) = rv_step(*old(self), *old(state), recipient, event.payload);
            assert(state.queue@ =~= q0 + evs);
            assert(q0.is_prefix_of(state.queue@)) by {
                assert(q0 =~= state.queue@.subrange(0, q0.len() as int));
            }
        }
    }
}

impl EventHandler for ResizableVBox {
    fn on_event(&mut self, state: &mut UiState, recipient: Entity, event: &Event) {
        self.step(state, recipient, event);
    }
}

} // verus!
