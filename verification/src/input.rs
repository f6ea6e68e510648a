//! Transient input state: cursor position, per-button press/release data and
//! the widgets they landed on, and the modifier flags.

use vstd::prelude::*;

use crate::entity::Entity;
use crate::events::MouseButtonState;

verus! {

#[derive(Clone, Copy, PartialEq, Eq, Structural, Debug)]
pub struct Point {
    pub x: i64,
    pub y: i64,
}

/// What the core remembers about one mouse button.
#[derive(Clone, Copy, PartialEq, Eq, Structural, Debug)]
pub struct MouseButtonData {
    pub state: MouseButtonState,
    /// Cursor position when the button last went down.
    pub pos_down: Point,
    /// Cursor position when the button last went up.
    pub pos_up: Point,
    /// The hovered widget when the button last went down.
    pub pressed: Entity,
    /// The hovered widget when the button last went up.
    pub released: Entity,
}

impl MouseButtonData {
    pub open spec fn initial_spec() -> MouseButtonData {
        MouseButtonData {
            state: MouseButtonState::Released,
            pos_down: Point { x: 0, y: 0 },
            pos_up: Point { x: 0, y: 0 },
            pressed: Entity::null_spec(),
            released: Entity::null_spec(),
        }
    }

    #[verifier::when_used_as_spec(initial_spec)]
    pub fn initial() -> (r: MouseButtonData)
        ensures
            r == MouseButtonData::initial_spec(),
    {
        MouseButtonData {
            state: MouseButtonState::Released,
            pos_down: Point { x: 0, y: 0 },
            pos_up: Point { x: 0, y: 0 },
            pressed: Entity::null(),
            released: Entity::null(),
        }
    }
}

/// Cursor position and the tracked buttons (left, middle, right; other
/// buttons are routed but not recorded).
#[derive(Clone, Copy, PartialEq, Eq, Structural, Debug)]
pub struct MouseState {
    pub cursorx: i64,
    pub cursory: i64,
    pub left: MouseButtonData,
    pub middle: MouseButtonData,
    pub right: MouseButtonData,
}

impl MouseState {
    pub open spec fn initial_spec() -> MouseState {
        MouseState {
            cursorx: 0,
            cursory: 0,
            left: MouseButtonData::initial_spec(),
            middle: MouseButtonData::initial_spec(),
            right: MouseButtonData::initial_spec(),
        }
    }

    #[verifier::when_used_as_spec(initial_spec)]
    pub fn initial() -> (r: MouseState)
        ensures
            r == MouseState::initial_spec(),
    {
        MouseState {
            cursorx: 0,
            cursory: 0,
            left: MouseButtonData::initial(),
            middle: MouseButtonData::initial(),
            right: MouseButtonData::initial(),
        }
    }
}

/// Modifier flags, each updated on every matching key code regardless of
/// focus.
#[derive(Clone, Copy, PartialEq, Eq, Structural, Debug)]
pub struct Modifiers {
    pub shift: bool,
    pub ctrl: bool,
    pub alt: bool,
    pub meta: bool,
}

impl Modifiers {
    pub open spec fn initial_spec() -> Modifiers {
        Modifiers { shift: false, ctrl: false, alt: false, meta: false }
    }

    #[verifier::when_used_as_spec(initial_spec)]
    pub fn initial() -> (r: Modifiers)
        ensures
            r == Modifiers::initial_spec(),
    {
        Modifiers { shift: false, ctrl: false, alt: false, meta: false }
    }
}

} // verus!
