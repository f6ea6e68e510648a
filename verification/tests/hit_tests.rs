use uicore::entity::Entity;
use uicore::hit::resolve_hover;
use uicore::store::{Visibility, WidgetProps, WidgetStore};

fn props(posx: i64, posy: i64, width: i64, height: i64, z: i64, clip: Entity) -> WidgetProps {
    WidgetProps {
        posx,
        posy,
        width,
        height,
        z_order: z,
        visibility: Visibility::Visible,
        opacity: 1_000_000,
        hoverable: true,
        border_width: 0,
        clip_widget: clip,
    }
}

#[test]
fn hover_resolves_topmost_by_z_order() {
    let root = Entity::root();
    let a = Entity::new(1, 0);
    let b = Entity::new(2, 0);
    let mut store = WidgetStore::new();
    store.add_widget(root, Entity::null(), props(0, 0, 200, 200, 0, root));
    store.add_widget(a, root, props(0, 0, 100, 100, 1, root));
    store.add_widget(b, root, props(0, 0, 100, 100, 2, root));
    assert_eq!(resolve_hover(&store, 50, 50), b);
}

#[test]
fn hover_breaks_z_ties_by_later_hierarchy_order() {
    let root = Entity::root();
    let a = Entity::new(1, 0);
    let b = Entity::new(2, 0);
    let mut store = WidgetStore::new();
    store.add_widget(root, Entity::null(), props(0, 0, 200, 200, 0, root));
    store.add_widget(a, root, props(0, 0, 100, 100, 3, root));
    store.add_widget(b, root, props(0, 0, 100, 100, 3, root));
    assert_eq!(resolve_hover(&store, 50, 50), b);
}

#[test]
fn hover_skips_invisible_transparent_and_unhoverable() {
    let root = Entity::root();
    let a = Entity::new(1, 0);
    let b = Entity::new(2, 0);
    let c = Entity::new(3, 0);
    let mut store = WidgetStore::new();
    store.add_widget(root, Entity::null(), props(0, 0, 200, 200, 0, root));
    let mut pa = props(0, 0, 100, 100, 5, root);
    pa.visibility = Visibility::Invisible;
    store.add_widget(a, root, pa);
    let mut pb = props(0, 0, 100, 100, 4, root);
    pb.opacity = 0;
    store.add_widget(b, root, pb);
    let mut pc = props(0, 0, 100, 100, 3, root);
    pc.hoverable = false;
    store.add_widget(c, root, pc);
    assert_eq!(resolve_hover(&store, 50, 50), root);
}

#[test]
fn hover_outside_everything_is_the_root_sentinel() {
    let root = Entity::root();
    let a = Entity::new(1, 0);
    let mut store = WidgetStore::new();
    let mut proot = props(0, 0, 200, 200, 0, root);
    proot.hoverable = false;
    store.add_widget(root, Entity::null(), proot);
    store.add_widget(a, root, props(0, 0, 100, 100, 1, root));
    assert_eq!(resolve_hover(&store, 150, 150), root);
}

#[test]
fn hover_respects_clip_widget() {
    // Widget A (bounds 0,0,100,100, z=1) sits inside clip widget C (bounds
    // 0,0,40,40): the cursor at (50,50) is inside A but outside the clip, so
    // hover resolves to the sentinel, not A.
    let root = Entity::root();
    let c = Entity::new(1, 0);
    let a = Entity::new(2, 0);
    let mut store = WidgetStore::new();
    let mut proot = props(0, 0, 200, 200, 0, root);
    proot.hoverable = false;
    store.add_widget(root, Entity::null(), proot);
    let mut pc = props(0, 0, 40, 40, 0, root);
    pc.hoverable = false;
    store.add_widget(c, root, pc);
    store.add_widget(a, c, props(0, 0, 100, 100, 1, c));
    assert_eq!(resolve_hover(&store, 50, 50), root);
    // Inside the clip the same widget is hit.
    assert_eq!(resolve_hover(&store, 30, 30), a);
}

#[test]
fn hover_expands_hit_bounds_by_half_border_width() {
    let root = Entity::root();
    let a = Entity::new(1, 0);
    let mut store = WidgetStore::new();
    let mut proot = props(0, 0, 200, 200, 0, root);
    proot.hoverable = false;
    store.add_widget(root, Entity::null(), proot);
    let mut pa = props(50, 50, 20, 20, 1, root);
    pa.border_width = 8;
    store.add_widget(a, root, pa);
    // 4 pixels outside the plain rectangle still hits through the border.
    assert_eq!(resolve_hover(&store, 47, 60), a);
    // 5 pixels outside does not.
    assert_eq!(resolve_hover(&store, 45, 60), root);
}

#[test]
fn hover_on_an_empty_store_is_the_root_sentinel() {
    let store = WidgetStore::new();
    assert_eq!(resolve_hover(&store, 0, 0), Entity::root());
    assert!(!Entity::root().is_null());
    assert_ne!(Entity::root(), Entity::null());
}

#[test]
fn hover_handles_extreme_coordinates() {
    let root = Entity::root();
    let a = Entity::new(1, 0);
    let mut store = WidgetStore::new();
    let mut pa = props(i64::MIN / 2, i64::MIN / 2, i64::MAX / 2, i64::MAX / 2, 1, root);
    pa.border_width = i64::MAX;
    store.add_widget(root, Entity::null(), props(0, 0, 0, 0, 0, root));
    store.add_widget(a, root, pa);
    // The arithmetic is exact at the extremes; nothing is clipped inside the
    // zero-sized root, so nothing is hit.
    assert_eq!(resolve_hover(&store, i64::MAX, i64::MIN), root);
    assert_eq!(resolve_hover(&store, 0, 0), root);
}

#[test]
fn pseudo_class_setters_touch_only_their_widget() {
    let root = Entity::root();
    let a = Entity::new(1, 0);
    let mut store = WidgetStore::new();
    store.add_widget(root, Entity::null(), props(0, 0, 200, 200, 0, root));
    store.add_widget(a, root, props(0, 0, 100, 100, 1, root));
    store.set_over(a, true);
    store.set_hover(a, true);
    assert!(store.record_at(1).over);
    assert!(store.record_at(1).hover);
    assert!(!store.record_at(0).over);
    assert!(!store.record_at(0).hover);
    store.set_over(a, false);
    assert!(!store.record_at(1).over);
    assert!(store.record_at(1).hover);
}

#[test]
fn hover_sets_over_flag_on_winner_only() {
    let root = Entity::root();
    let a = Entity::new(1, 0);
    let b = Entity::new(2, 0);
    let mut store = WidgetStore::new();
    store.add_widget(root, Entity::null(), props(0, 0, 200, 200, 0, root));
    store.add_widget(a, root, props(0, 0, 100, 100, 1, root));
    store.add_widget(b, root, props(0, 0, 100, 100, 2, root));
    let w = resolve_hover(&store, 50, 50);
    store.set_over_winner(w);
    assert!(!store.record_at(0).over);
    assert!(!store.record_at(1).over);
    assert!(store.record_at(2).over);
}
