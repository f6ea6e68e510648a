//! Widget references: opaque, comparable, copyable identifiers into the
//! externally owned widget hierarchy.

use vstd::prelude::*;

verus! {

/// A reference to a widget: an arena index plus a generation counter.
/// Entities are compared by value and never own the widget they name.
/// A sentinel "null" value denotes "no widget".
#[derive(Clone, Copy, PartialEq, Eq, Structural, Debug)]
pub struct Entity {
    pub index: u32,
    pub generation: u32,
}

impl Entity {
    /// The sentinel that stands for "no widget".
    pub open spec fn null_spec() -> Entity {
        Entity { index: u32::MAX, generation: u32::MAX }
    }

    #[verifier::when_used_as_spec(null_spec)]
    pub fn null() -> (e: Entity)
        ensures
            e == Entity::null_spec(),
    {
        Entity { index: u32::MAX, generation: u32::MAX }
    }

    /// The root of the hierarchy; also the "nothing specific hovered" result
    /// of hit-testing, distinct from null.
    pub open spec fn root_spec() -> Entity {
        Entity { index: 0, generation: 0 }
    }

    #[verifier::when_used_as_spec(root_spec)]
    pub fn root() -> (e: Entity)
        ensures
            e == Entity::root_spec(),
    {
        Entity { index: 0, generation: 0 }
    }

    pub fn new(index: u32, generation: u32) -> (e: Entity)
        ensures
            e == (Entity { index, generation }),
    {
        Entity { index, generation }
    }

    pub open spec fn is_null_spec(self) -> bool {
        self == Entity::null_spec()
    }

    #[verifier::when_used_as_spec(is_null_spec)]
    pub fn is_null(self) -> (r: bool)
        ensures
            r == self.is_null_spec(),
    {
        self.index == u32::MAX && self.generation == u32::MAX
    }
}

} // verus!
