//! Pointer hit-testing: given the cursor position and the widget store, the
//! topmost hoverable widget under the cursor, respecting clip rectangles and
//! z-order.
//!
//! Widgets are considered in store order (hierarchy traversal order). A
//! widget is a candidate when it is visible, not fully transparent, and
//! hoverable, and the cursor lies both inside its border-expanded rectangle
//! and inside its clip widget's plain rectangle. Among candidates, the
//! highest z-order wins; among equal z-orders, the one latest in hierarchy
//! order (a stable ascending z sort processed in painter's order would leave
//! it as the last overwrite). When nothing is hit, the root entity stands for
//! "nothing specific hovered".

use vstd::prelude::*;

use crate::entity::Entity;
use crate::store::{props_of, WidgetProps, WidgetRecord, WidgetStore, Visibility};

verus! {

/// The cursor lies inside the widget rectangle expanded by half the border
/// width on each side. Stated over doubled coordinates so that half-pixel
/// edges stay exact.
pub open spec fn in_effective_rect(p: WidgetProps, cx: int, cy: int) -> bool {
    &&& 2 * cx >= 2 * p.posx - p.border_width
    &&& 2 * cx < 2 * (p.posx + p.width) + p.border_width
    &&& 2 * cy >= 2 * p.posy - p.border_width
    &&& 2 * cy < 2 * (p.posy + p.height) + p.border_width
}

/// The cursor lies inside the plain (unexpanded) widget rectangle.
pub open spec fn in_plain_rect(p: WidgetProps, cx: int, cy: int) -> bool {
    &&& cx >= p.posx
    &&& cx < p.posx + p.width
    &&& cy >= p.posy
    &&& cy < p.posy + p.height
}

/// Widget `i` of `s` is a hit candidate for the cursor at `(cx, cy)`.
pub open spec fn hit(s: Seq<WidgetRecord>, i: int, cx: int, cy: int) -> bool {
    let p = s[i].props;
    &&& p.visibility == Visibility::Visible
    &&& p.opacity != 0
    &&& p.hoverable
    &&& in_effective_rect(p, cx, cy)
    &&& in_plain_rect(props_of(s, p.clip_widget), cx, cy)
}

/// The winning index among the first `n` widgets: the hit candidate with the
/// highest z-order, later store order breaking ties; -1 when none is hit.
pub open spec fn winner_idx(s: Seq<WidgetRecord>, cx: int, cy: int, n: int) -> int
    decreases n,
{
    if n <= 0 {
        -1
    } else {
        let rest = winner_idx(s, cx, cy, n - 1);
        if hit(s, n - 1, cx, cy) && (rest == -1 || s[n - 1].props.z_order
            >= s[rest].props.z_order) {
            n - 1
        } else {
            rest
        }
    }
}

/// What hit-testing resolves to: the winning widget, or the root entity when
/// nothing is hit.
pub open spec fn hover_target(s: Seq<WidgetRecord>, cx: int, cy: int) -> Entity {
    let w = winner_idx(s, cx, cy, s.len() as int);
    if w == -1 {
        Entity::root_spec()
    } else {
        s[w].entity
    }
}

/// The winning index over the first `n` widgets is either -1 with no hit
/// among them, or a hit whose z-order no other hit exceeds, with later store
/// order breaking z-order ties.
proof fn lemma_winner_idx_prefix(s: Seq<WidgetRecord>, cx: int, cy: int, n: int)
    requires
        0 <= n <= s.len(),
    ensures
        ({
            let w = winner_idx(s, cx, cy, n);
            &&& (w == -1 ==> forall|j: int| 0 <= j < n ==> !hit(s, j, cx, cy))
            &&& (w != -1 ==> 0 <= w < n && hit(s, w, cx, cy) && forall|j: int|
                0 <= j < n && hit(s, j, cx, cy) ==> s[j].props.z_order < s[w].props.z_order || (
                s[j].props.z_order == s[w].props.z_order && j <= w))
        }),
    decreases n,
{
    if n > 0 {
        lemma_winner_idx_prefix(s, cx, cy, n - 1);
    }
}

/// The hit-test contract: the resolved widget is the topmost candidate.
/// Exactly one widget is resolved; when nothing is hit it is the root
/// sentinel; otherwise it is a hit candidate — so visible, not fully
/// transparent, hoverable, under the cursor, and inside its clip — and no
/// candidate has a higher z-order, nor the same z-order later in store
/// order.
pub proof fn lemma_hover_target_topmost(s: Seq<WidgetRecord>, cx: int, cy: int)
    ensures
        ({
            let w = winner_idx(s, cx, cy, s.len() as int);
            &&& (w == -1 <==> forall|j: int| 0 <= j < s.len() ==> !hit(s, j, cx, cy))
            &&& (w == -1 ==> hover_target(s, cx, cy) == Entity::root_spec())
            &&& (w != -1 ==> {
                &&& 0 <= w < s.len()
                &&& hover_target(s, cx, cy) == s[w].entity
                &&& hit(s, w, cx, cy)
                &&& s[w].props.visibility == Visibility::Visible
                &&& s[w].props.opacity != 0
                &&& s[w].props.hoverable
                &&& forall|j: int|
                    0 <= j < s.len() && hit(s, j, cx, cy) ==> s[j].props.z_order
                        < s[w].props.z_order || (s[j].props.z_order == s[w].props.z_order && j
                        <= w)
            })
        }),
{
    lemma_winner_idx_prefix(s, cx, cy, s.len() as int);
}

/// The cursor test for one widget.
fn hit_at(store: &WidgetStore, i: usize, cx: i64, cy: i64) -> (r: bool)
    requires
        i < store@.len(),
    ensures
        r == hit(store@, i as int, cx as int, cy as int),
{
    let rec = store.record_at(i);
    let p = rec.props;
    if !(matches!(p.visibility, Visibility::Visible)) {
        return false;
    }
    if p.opacity == 0 {
        return false;
    }
    if !p.hoverable {
        return false;
    }
    let cx2 = 2 * (cx as i128);
    let cy2 = 2 * (cy as i128);
    let bw = p.border_width as i128;
    let ex0 = 2 * (p.posx as i128) - bw;
    let ex1 = 2 * ((p.posx as i128) + (p.width as i128)) + bw;
    let ey0 = 2 * (p.posy as i128) - bw;
    let ey1 = 2 * ((p.posy as i128) + (p.height as i128)) + bw;
    if !(cx2 >= ex0 && cx2 < ex1 && cy2 >= ey0 && cy2 < ey1) {
        return false;
    }
    let c = store.props_of(p.clip_widget);
    let ccx = cx as i128;
    let ccy = cy as i128;
    ccx >= c.posx as i128 && ccx < (c.posx as i128) + (c.width as i128) && ccy >= c.posy as i128
        && ccy < (c.posy as i128) + (c.height as i128)
}

/// Resolves the hovered widget for the cursor at `(cx, cy)`: the topmost (by
/// z-order, later hierarchy order breaking ties) visible, non-transparent,
/// hoverable widget whose effective rectangle and clip rectangle both contain
/// the cursor; the root entity when nothing is hit.
pub fn resolve_hover(store: &WidgetStore, cx: i64, cy: i64) -> (r: Entity)
    ensures
        r == hover_target(store@, cx as int, cy as int),
{
    let n = store.len();
    let mut found = false;
    let mut best: usize = 0;
    let mut i: usize = 0;
    while i < n
        invariant
            i <= n,
            n == store@.len(),
            !found ==> winner_idx(store@, cx as int, cy as int, i as int) == -1,
            found ==> winner_idx(store@, cx as int, cy as int, i as int) == best as int && best
                < n,
        decreases n - i,
    {
        if hit_at(store, i, cx, cy) {
            if !found {
                found = true;
                best = i;
            } else {
                let zi = store.record_at(i).props.z_order;
                let zb = store.record_at(best).props.z_order;
                if zi >= zb {
                    best = i;
                }
            }
        }
        i = i + 1;
    }
    if found {
        store.record_at(best).entity
    } else {
        Entity::root()
    }
}

} // verus!
