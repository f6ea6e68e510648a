//! The widget store: the core's read model of the externally owned widget
//! hierarchy. For each widget it holds the geometry and style facts the input
//! pipeline reads (position, size, z-order, visibility, opacity, hoverability,
//! border width, clip widget), the hierarchy and focus links, and the
//! pseudo-class flags the pipeline writes back (`hover`, `over`, `focus`).
//!
//! Lookups never fail: a query on the null entity or on an entity that is not
//! in the store answers with a defined default (zero-sized, invisible,
//! non-hoverable), so routing and hit-testing never abort mid-dispatch.
//!
//! Coordinates are integers in logical pixels; `opacity` is in millionths
//! (0 = fully transparent); `border_width` is a pixel border width (border
//! widths in other style units contribute no hit-rectangle expansion, so they
//! enter the store as 0).

use vstd::prelude::*;

use crate::entity::Entity;

verus! {

#[derive(Clone, Copy, PartialEq, Eq, Structural, Debug)]
pub enum Visibility {
    Visible,
    Invisible,
}

/// Geometry and style facts about one widget, as the layout and style
/// collaborator last left them.
#[derive(Clone, Copy, PartialEq, Eq, Structural, Debug)]
pub struct WidgetProps {
    pub posx: i64,
    pub posy: i64,
    pub width: i64,
    pub height: i64,
    pub z_order: i64,
    pub visibility: Visibility,
    /// Opacity in millionths of full opacity; 0 means fully transparent.
    pub opacity: i64,
    pub hoverable: bool,
    /// Pixel border width; non-pixel border units contribute 0.
    pub border_width: i64,
    /// The ancestor whose plain rectangle clips this widget during hit-testing.
    pub clip_widget: Entity,
}

impl WidgetProps {
    /// What a query on a missing or null widget answers: zero-sized,
    /// invisible, non-hoverable, clipped by nothing.
    pub open spec fn default_spec() -> WidgetProps {
        WidgetProps {
            posx: 0,
            posy: 0,
            width: 0,
            height: 0,
            z_order: 0,
            visibility: Visibility::Invisible,
            opacity: 0,
            hoverable: false,
            border_width: 0,
            clip_widget: Entity::null_spec(),
        }
    }

    #[verifier::when_used_as_spec(default_spec)]
    pub fn default_props() -> (p: WidgetProps)
        ensures
            p == WidgetProps::default_spec(),
    {
        WidgetProps {
            posx: 0,
            posy: 0,
            width: 0,
            height: 0,
            z_order: 0,
            visibility: Visibility::Invisible,
            opacity: 0,
            hoverable: false,
            border_width: 0,
            clip_widget: Entity::null(),
        }
    }
}

/// One widget as the input core sees it: its reference, its place in the
/// hierarchy, its optional explicit focus links, its geometry and style
/// facts, and the pseudo-class flags the core maintains.
#[derive(Clone, Copy, PartialEq, Eq, Structural, Debug)]
pub struct WidgetRecord {
    pub entity: Entity,
    /// The parent widget; null for the root.
    pub parent: Entity,
    /// Explicit next-focus link for Tab traversal; null = no explicit link.
    pub next_focus: Entity,
    /// Explicit previous-focus link for Shift+Tab traversal; null = none.
    pub prev_focus: Entity,
    pub props: WidgetProps,
    /// Pseudo-class flag: this widget is the resolved hovered widget.
    pub hover: bool,
    /// Pseudo-class flag: the cursor is strictly inside this widget's hit
    /// bounds this frame (the single hit-test winner).
    pub over: bool,
    /// Pseudo-class flag: this widget has keyboard focus.
    pub focus: bool,
}

impl WidgetRecord {
    /// A fresh record with cleared flags and no explicit focus links.
    pub fn new(entity: Entity, parent: Entity, props: WidgetProps) -> (r: WidgetRecord)
        ensures
            r == (WidgetRecord {
                entity,
                parent,
                next_focus: Entity::null_spec(),
                prev_focus: Entity::null_spec(),
                props,
                hover: false,
                over: false,
                focus: false,
            }),
    {
        WidgetRecord {
            entity,
            parent,
            next_focus: Entity::null(),
            prev_focus: Entity::null(),
            props,
            hover: false,
            over: false,
            focus: false,
        }
    }
}

/// The widget store, in hierarchy traversal order (parents before their
/// children; the root first).
pub struct WidgetStore {
    widgets: Vec<WidgetRecord>,
}

impl View for WidgetStore {
    type V = Seq<WidgetRecord>;

    closed spec fn view(&self) -> Seq<WidgetRecord> {
        self.widgets@
    }
}

/// The index of the first record for `e` in `s`, or -1 when `e` has none.
pub open spec fn find_idx(s: Seq<WidgetRecord>, e: Entity) -> int
    decreases s.len(),
{
    if s.len() == 0 {
        -1
    } else if s[0].entity == e {
        0
    } else {
        let r = find_idx(s.skip(1), e);
        if r < 0 {
            -1
        } else {
            r + 1
        }
    }
}

/// When `e` has a record, `find_idx` answers a valid index holding `e`;
/// otherwise -1.
pub proof fn lemma_find_idx_valid(s: Seq<WidgetRecord>, e: Entity)
    ensures
        find_idx(s, e) == -1 || (0 <= find_idx(s, e) < s.len() && s[find_idx(s, e)].entity == e),
    decreases s.len(),
{
    if s.len() != 0 && s[0].entity != e {
        lemma_find_idx_valid(s.skip(1), e);
    }
}

/// `find_idx` answers the first matching index: no later match comes before
/// it.
pub proof fn lemma_find_idx_first(s: Seq<WidgetRecord>, e: Entity, j: int)
    requires
        0 <= j < s.len(),
        s[j].entity == e,
    ensures
        0 <= find_idx(s, e) <= j,
    decreases s.len(),
{
    if s[0].entity != e {
        lemma_find_idx_first(s.skip(1), e, j - 1);
    }
}

/// The first record for `e`, if any.
pub open spec fn record_of(s: Seq<WidgetRecord>, e: Entity) -> Option<WidgetRecord> {
    let i = find_idx(s, e);
    if i < 0 {
        None
    } else {
        Some(s[i])
    }
}

/// The geometry and style facts of `e`; the defined default when `e` is null
/// or missing.
pub open spec fn props_of(s: Seq<WidgetRecord>, e: Entity) -> WidgetProps {
    match record_of(s, e) {
        Some(rec) => rec.props,
        None => WidgetProps::default_spec(),
    }
}

/// The parent of `e`; null when `e` is null or missing.
pub open spec fn parent_of(s: Seq<WidgetRecord>, e: Entity) -> Entity {
    match record_of(s, e) {
        Some(rec) => rec.parent,
        None => Entity::null_spec(),
    }
}

/// The explicit next-focus link of `e`; null when unset or `e` is missing.
pub open spec fn next_focus_of(s: Seq<WidgetRecord>, e: Entity) -> Entity {
    match record_of(s, e) {
        Some(rec) => rec.next_focus,
        None => Entity::null_spec(),
    }
}

/// The explicit previous-focus link of `e`; null when unset or `e` is missing.
pub open spec fn prev_focus_of(s: Seq<WidgetRecord>, e: Entity) -> Entity {
    match record_of(s, e) {
        Some(rec) => rec.prev_focus,
        None => Entity::null_spec(),
    }
}

/// `s` with the `hover` flag of every record of `e` set to `b`.
pub open spec fn with_hover(s: Seq<WidgetRecord>, e: Entity, b: bool) -> Seq<WidgetRecord> {
    Seq::new(
        s.len(),
        |i: int|
            if s[i].entity == e {
                WidgetRecord { hover: b, ..s[i] }
            } else {
                s[i]
            },
    )
}

/// `s` with the `focus` flag of every record of `e` set to `b`.
pub open spec fn with_focus(s: Seq<WidgetRecord>, e: Entity, b: bool) -> Seq<WidgetRecord> {
    Seq::new(
        s.len(),
        |i: int|
            if s[i].entity == e {
                WidgetRecord { focus: b, ..s[i] }
            } else {
                s[i]
            },
    )
}

/// `s` with the `over` flag of every record of `e` set to `b`.
pub open spec fn with_over(s: Seq<WidgetRecord>, e: Entity, b: bool) -> Seq<WidgetRecord> {
    Seq::new(
        s.len(),
        |i: int|
            if s[i].entity == e {
                WidgetRecord { over: b, ..s[i] }
            } else {
                s[i]
            },
    )
}

/// `s` with the `over` flag of every record set to whether that record is the
/// hit-test winner `w`.
pub open spec fn with_over_winner(s: Seq<WidgetRecord>, w: Entity) -> Seq<WidgetRecord> {
    Seq::new(s.len(), |i: int| WidgetRecord { over: s[i].entity == w, ..s[i] })
}

/// `s` with the width of every record of `e` set to `w`.
pub open spec fn with_width(s: Seq<WidgetRecord>, e: Entity, w: i64) -> Seq<WidgetRecord> {
    Seq::new(
        s.len(),
        |i: int|
            if s[i].entity == e {
                WidgetRecord { props: WidgetProps { width: w, ..s[i].props }, ..s[i] }
            } else {
                s[i]
            },
    )
}

impl WidgetStore {
    pub fn new() -> (r: WidgetStore)
        ensures
            r@ == Seq::<WidgetRecord>::empty(),
    {
        let r = WidgetStore { widgets: Vec::new() };
        proof {
            assert(r@ =~= Seq::<WidgetRecord>::empty());
        }
        r
    }

    pub fn len(&self) -> (n: usize)
        ensures
            n == self@.len(),
    {
        self.widgets.len()
    }

    pub fn record_at(&self, i: usize) -> (r: WidgetRecord)
        requires
            i < self@.len(),
        ensures
            r == self@[i as int],
    {
        self.widgets[i]
    }

    /// Appends a record. The caller keeps hierarchy order: parents before
    /// their children.
    pub fn push(&mut self, rec: WidgetRecord)
        ensures
            final(self)@ == old(self)@.push(rec),
    {
        self.widgets.push(rec);
    }

    /// Appends a widget with cleared flags and no explicit focus links.
    pub fn add_widget(&mut self, entity: Entity, parent: Entity, props: WidgetProps)
        ensures
            final(self)@ == old(self)@.push(
                WidgetRecord {
                    entity,
                    parent,
                    next_focus: Entity::null_spec(),
                    prev_focus: Entity::null_spec(),
                    props,
                    hover: false,
                    over: false,
                    focus: false,
                },
            ),
    {
        let rec = WidgetRecord::new(entity, parent, props);
        self.widgets.push(rec);
    }

    /// The index of the first record for `e`, if any.
    pub fn find(&self, e: Entity) -> (r: Option<usize>)
        ensures
            match r {
                Some(i) => i < self@.len() && find_idx(self@, e) == i as int,
                None => find_idx(self@, e) == -1,
            },
    {
        let n = self.widgets.len();
        proof {
            assert(self@.skip(0) =~= self@);
        }
        let mut i: usize = 0;
        while i < n
            invariant
                i <= n,
                n == self@.len(),
                find_idx(self@.skip(i as int), e) >= 0 ==> find_idx(self@, e) == find_idx(
                    self@.skip(i as int),
                    e,
                ) + i as int,
                find_idx(self@.skip(i as int), e) < 0 ==> find_idx(self@, e) == -1,
            decreases n - i,
        {
            proof {
                assert(self@.skip(i as int)[0] == self@[i as int]);
            }
            if self.widgets[i].entity == e {
                proof {
                    assert(find_idx(self@.skip(i as int), e) == 0);
                }
                return Some(i);
            }
            proof {
                assert(self@.skip(i as int).skip(1) =~= self@.skip(i as int + 1));
            }
            i = i + 1;
        }
        proof {
            assert(self@.skip(n as int) =~= Seq::<WidgetRecord>::empty());
        }
        None
    }

    /// The first record for `e`, or `None` when `e` is null or missing.
    pub fn record_of(&self, e: Entity) -> (r: Option<WidgetRecord>)
        ensures
            r == record_of(self@, e),
    {
        match self.find(e) {
            Some(i) => Some(self.widgets[i]),
            None => None,
        }
    }

    /// The geometry and style facts of `e`; the defined default when `e` is
    /// null or missing.
    pub fn props_of(&self, e: Entity) -> (r: WidgetProps)
        ensures
            r == props_of(self@, e),
    {
        match self.record_of(e) {
            Some(rec) => rec.props,
            None => WidgetProps::default_props(),
        }
    }

    pub fn get_posx(&self, e: Entity) -> (r: i64)
        ensures
            r == props_of(self@, e).posx,
    {
        self.props_of(e).posx
    }

    pub fn get_posy(&self, e: Entity) -> (r: i64)
        ensures
            r == props_of(self@, e).posy,
    {
        self.props_of(e).posy
    }

    pub fn get_width(&self, e: Entity) -> (r: i64)
        ensures
            r == props_of(self@, e).width,
    {
        self.props_of(e).width
    }

    pub fn get_height(&self, e: Entity) -> (r: i64)
        ensures
            r == props_of(self@, e).height,
    {
        self.props_of(e).height
    }

    pub fn get_opacity(&self, e: Entity) -> (r: i64)
        ensures
            r == props_of(self@, e).opacity,
    {
        self.props_of(e).opacity
    }

    pub fn get_visibility(&self, e: Entity) -> (r: Visibility)
        ensures
            r == props_of(self@, e).visibility,
    {
        self.props_of(e).visibility
    }

    pub fn get_hoverability(&self, e: Entity) -> (r: bool)
        ensures
            r == props_of(self@, e).hoverable,
    {
        self.props_of(e).hoverable
    }

    pub fn get_z_order(&self, e: Entity) -> (r: i64)
        ensures
            r == props_of(self@, e).z_order,
    {
        self.props_of(e).z_order
    }

    pub fn get_border_width(&self, e: Entity) -> (r: i64)
        ensures
            r == props_of(self@, e).border_width,
    {
        self.props_of(e).border_width
    }

    pub fn get_clip_widget(&self, e: Entity) -> (r: Entity)
        ensures
            r == props_of(self@, e).clip_widget,
    {
        self.props_of(e).clip_widget
    }

    pub fn get_parent(&self, e: Entity) -> (r: Entity)
        ensures
            r == parent_of(self@, e),
    {
        match self.record_of(e) {
            Some(rec) => rec.parent,
            None => Entity::null(),
        }
    }

    pub fn get_next_focus(&self, e: Entity) -> (r: Entity)
        ensures
            r == next_focus_of(self@, e),
    {
        match self.record_of(e) {
            Some(rec) => rec.next_focus,
            None => Entity::null(),
        }
    }

    pub fn get_prev_focus(&self, e: Entity) -> (r: Entity)
        ensures
            r == prev_focus_of(self@, e),
    {
        match self.record_of(e) {
            Some(rec) => rec.prev_focus,
            None => Entity::null(),
        }
    }

    /// Sets the explicit focus links of every record of `e`.
    pub fn set_focus_links(&mut self, e: Entity, next: Entity, prev: Entity)
        ensures
            final(self)@.len() == old(self)@.len(),
            forall|i: int|
                0 <= i < old(self)@.len() ==> final(self)@[i] == (if old(self)@[i].entity == e {
                    WidgetRecord { next_focus: next, prev_focus: prev, ..old(self)@[i] }
                } else {
                    old(self)@[i]
                }),
    {
        let n = self.widgets.len();
        let mut i: usize = 0;
        while i < n
            invariant
                i <= n,
                n == self@.len(),
                self@.len() == old(self)@.len(),
                forall|j: int|
                    0 <= j < i ==> self@[j] == (if old(self)@[j].entity == e {
                        WidgetRecord { next_focus: next, prev_focus: prev, ..old(self)@[j] }
                    } else {
                        old(self)@[j]
                    }),
                forall|j: int| i <= j < n ==> self@[j] == old(self)@[j],
            decreases n - i,
        {
            if self.widgets[i].entity == e {
                let rec = self.widgets[i];
                self.widgets.set(i, WidgetRecord { next_focus: next, prev_focus: prev, ..rec });
            }
            i = i + 1;
        }
    }

    /// Writes the `hover` pseudo-class flag of `e`.
    pub fn set_hover(&mut self, e: Entity, b: bool)
        ensures
            final(self)@ == with_hover(old(self)@, e, b),
    {
        let n = self.widgets.len();
        let mut i: usize = 0;
        while i < n
            invariant
                i <= n,
                n == self@.len(),
                self@.len() == old(self)@.len(),
                forall|j: int| 0 <= j < i ==> self@[j] == with_hover(old(self)@, e, b)[j],
                forall|j: int| i <= j < n ==> self@[j] == old(self)@[j],
            decreases n - i,
        {
            if self.widgets[i].entity == e {
                let rec = self.widgets[i];
                self.widgets.set(i, WidgetRecord { hover: b, ..rec });
            }
            i = i + 1;
        }
        proof {
            assert(self@ =~= with_hover(old(self)@, e, b));
        }
    }

    /// Writes the `focus` pseudo-class flag of `e`.
    pub fn set_focus_flag(&mut self, e: Entity, b: bool)
        ensures
            final(self)@ == with_focus(old(self)@, e, b),
    {
        let n = self.widgets.len();
        let mut i: usize = 0;
        while i < n
            invariant
                i <= n,
                n == self@.len(),
                self@.len() == old(self)@.len(),
                forall|j: int| 0 <= j < i ==> self@[j] == with_focus(old(self)@, e, b)[j],
                forall|j: int| i <= j < n ==> self@[j] == old(self)@[j],
            decreases n - i,
        {
            if self.widgets[i].entity == e {
                let rec = self.widgets[i];
                self.widgets.set(i, WidgetRecord { focus: b, ..rec });
            }
            i = i + 1;
        }
        proof {
            assert(self@ =~= with_focus(old(self)@, e, b));
        }
    }

    /// Writes the `over` pseudo-class flag of `e`.
    pub fn set_over(&mut self, e: Entity, b: bool)
        ensures
            final(self)@ == with_over(old(self)@, e, b),
    {
        let n = self.widgets.len();
        let mut i: usize = 0;
        while i < n
            invariant
                i <= n,
                n == self@.len(),
                self@.len() == old(self)@.len(),
                forall|j: int| 0 <= j < i ==> self@[j] == with_over(old(self)@, e, b)[j],
                forall|j: int| i <= j < n ==> self@[j] == old(self)@[j],
            decreases n - i,
        {
            if self.widgets[i].entity == e {
                let rec = self.widgets[i];
                self.widgets.set(i, WidgetRecord { over: b, ..rec });
            }
            i = i + 1;
        }
        proof {
            assert(self@ =~= with_over(old(self)@, e, b));
        }
    }

    /// Writes the `over` pseudo-class flags after a hit-test: the winner `w`
    /// gets `true`, every other widget `false`.
    pub fn set_over_winner(&mut self, w: Entity)
        ensures
            final(self)@ == with_over_winner(old(self)@, w),
    {
        let n = self.widgets.len();
        let mut i: usize = 0;
        while i < n
            invariant
                i <= n,
                n == self@.len(),
                self@.len() == old(self)@.len(),
                forall|j: int| 0 <= j < i ==> self@[j] == with_over_winner(old(self)@, w)[j],
                forall|j: int| i <= j < n ==> self@[j] == old(self)@[j],
            decreases n - i,
        {
            let rec = self.widgets[i];
            self.widgets.set(i, WidgetRecord { over: rec.entity == w, ..rec });
            i = i + 1;
        }
        proof {
            assert(self@ =~= with_over_winner(old(self)@, w));
        }
    }

    /// Writes the width of `e`, as a widget-initiated style write that the
    /// layout collaborator would apply.
    pub fn set_width(&mut self, e: Entity, w: i64)
        ensures
            final(self)@ == with_width(old(self)@, e, w),
    {
        let n = self.widgets.len();
        let mut i: usize = 0;
        while i < n
            invariant
                i <= n,
                n == self@.len(),
                self@.len() == old(self)@.len(),
                forall|j: int| 0 <= j < i ==> self@[j] == with_width(old(self)@, e, w)[j],
                forall|j: int| i <= j < n ==> self@[j] == old(self)@[j],
            decreases n - i,
        {
            if self.widgets[i].entity == e {
                let rec = self.widgets[i];
                self.widgets.set(i, WidgetRecord { props: WidgetProps { width: w, ..rec.props }, ..rec });
            }
            i = i + 1;
        }
        proof {
            assert(self@ =~= with_width(old(self)@, e, w));
        }
    }
}

} // verus!
