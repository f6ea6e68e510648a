use uicore::application::{Application, PlatformEvent};
use uicore::entity::Entity;
use uicore::events::{
    Event, KeyCode, MouseButton, MouseButtonState, Propagation, WindowEvent,
};
use uicore::store::{Visibility, WidgetProps};

fn widget_props(posx: i64, posy: i64, width: i64, height: i64, z: i64) -> WidgetProps {
    WidgetProps {
        posx,
        posy,
        width,
        height,
        z_order: z,
        visibility: Visibility::Visible,
        opacity: 1_000_000,
        hoverable: true,
        border_width: 0,
        clip_widget: Entity::root(),
    }
}

/// An application with widget B (hoverable, z=2) covering (0,0)..(100,100).
fn app_with_widget_b() -> (Application, Entity) {
    let b = Entity::new(1, 0);
    let mut app = Application::new(200, 200);
    app.state.store.add_widget(b, Entity::root(), widget_props(0, 0, 100, 100, 2));
    (app, b)
}

fn events_from(app: &Application, start: usize) -> Vec<Event> {
    let mut out = Vec::new();
    let mut i = start;
    while i < app.state.queue.len() {
        out.push(app.state.queue.get(i));
        i += 1;
    }
    out
}

#[test]
fn press_activates_hovered_widget() {
    // Press Left at (10,10) over widget B: `active` becomes B, one restyle is
    // enqueued, and the mouse-down targets B.
    let (mut app, b) = app_with_widget_b();
    app.handle_platform_event(PlatformEvent::CursorMoved { x: 10, y: 10 });
    assert_eq!(app.state.hovered, b);
    let before = app.state.queue.len();
    app.handle_platform_event(PlatformEvent::ButtonPressed(MouseButton::Left));
    assert_eq!(app.state.active, b);
    let appended = events_from(&app, before);
    assert_eq!(appended.len(), 2);
    assert_eq!(appended[0].payload, WindowEvent::Restyle);
    assert_eq!(appended[1].payload, WindowEvent::MouseDown(MouseButton::Left));
    assert_eq!(appended[1].target, b);
    assert_eq!(appended[1].propagation, Propagation::Up);
    assert_eq!(app.state.mouse.left.state, MouseButtonState::Pressed);
    assert_eq!(app.state.mouse.left.pressed, b);
    assert_eq!(app.state.mouse.left.pos_down.x, 10);
    assert_eq!(app.state.mouse.left.pos_down.y, 10);
}

#[test]
fn release_clears_active_and_records_release() {
    let (mut app, b) = app_with_widget_b();
    app.handle_platform_event(PlatformEvent::CursorMoved { x: 10, y: 10 });
    app.handle_platform_event(PlatformEvent::ButtonPressed(MouseButton::Left));
    let before = app.state.queue.len();
    app.handle_platform_event(PlatformEvent::ButtonReleased(MouseButton::Left));
    assert!(app.state.active.is_null());
    let appended = events_from(&app, before);
    assert_eq!(appended.len(), 2);
    assert_eq!(appended[0].payload, WindowEvent::Restyle);
    assert_eq!(appended[1].payload, WindowEvent::MouseUp(MouseButton::Left));
    assert_eq!(appended[1].target, b);
    assert_eq!(app.state.mouse.left.state, MouseButtonState::Released);
    assert_eq!(app.state.mouse.left.released, b);
}

#[test]
fn hover_transition_emits_one_out_then_one_over() {
    let (mut app, b) = app_with_widget_b();
    let before = app.state.queue.len();
    app.handle_platform_event(PlatformEvent::CursorMoved { x: 10, y: 10 });
    let appended = events_from(&app, before);
    // Restyle, Relayout, MouseOut(old), MouseOver(new), Restyle, Redraw,
    // routed MouseMove.
    assert_eq!(appended.len(), 7);
    assert_eq!(appended[2].payload, WindowEvent::MouseOut);
    assert_eq!(appended[2].target, Entity::root());
    assert_eq!(appended[3].payload, WindowEvent::MouseOver);
    assert_eq!(appended[3].target, b);
    let outs = appended.iter().filter(|e| e.payload == WindowEvent::MouseOut).count();
    let overs = appended.iter().filter(|e| e.payload == WindowEvent::MouseOver).count();
    assert_eq!(outs, 1);
    assert_eq!(overs, 1);
}

#[test]
fn unchanged_hover_emits_no_transition() {
    let (mut app, b) = app_with_widget_b();
    app.handle_platform_event(PlatformEvent::CursorMoved { x: 10, y: 10 });
    let before = app.state.queue.len();
    app.handle_platform_event(PlatformEvent::CursorMoved { x: 12, y: 12 });
    let appended = events_from(&app, before);
    // Restyle, Relayout, routed MouseMove: no MouseOut, no MouseOver.
    assert_eq!(appended.len(), 3);
    assert!(appended.iter().all(|e| e.payload != WindowEvent::MouseOut));
    assert!(appended.iter().all(|e| e.payload != WindowEvent::MouseOver));
    assert_eq!(appended[2].payload, WindowEvent::MouseMove(12, 12));
    assert_eq!(appended[2].target, b);
}

#[test]
fn captured_widget_receives_all_pointer_events_directly() {
    let (mut app, b) = app_with_widget_b();
    let c = Entity::new(7, 0);
    app.state.capture(c);
    let before = app.state.queue.len();
    // The cursor is over B, but everything routes to the captured C,
    // directly.
    app.handle_platform_event(PlatformEvent::CursorMoved { x: 10, y: 10 });
    let appended = events_from(&app, before);
    let mv = appended.last().unwrap();
    assert_eq!(mv.payload, WindowEvent::MouseMove(10, 10));
    assert_eq!(mv.target, c);
    assert_eq!(mv.propagation, Propagation::Direct);
    assert_eq!(app.state.hovered, b);

    let before = app.state.queue.len();
    app.handle_platform_event(PlatformEvent::ButtonPressed(MouseButton::Left));
    let appended = events_from(&app, before);
    let down = appended.last().unwrap();
    assert_eq!(down.payload, WindowEvent::MouseDown(MouseButton::Left));
    assert_eq!(down.target, c);
    assert_eq!(down.propagation, Propagation::Direct);

    let before = app.state.queue.len();
    app.handle_platform_event(PlatformEvent::ButtonReleased(MouseButton::Left));
    let appended = events_from(&app, before);
    let up = appended.last().unwrap();
    assert_eq!(up.payload, WindowEvent::MouseUp(MouseButton::Left));
    assert_eq!(up.target, c);
    assert_eq!(up.propagation, Propagation::Direct);

    let before = app.state.queue.len();
    app.handle_platform_event(PlatformEvent::WheelScrolled { dx: 0, dy: 3 });
    let appended = events_from(&app, before);
    let scroll = appended.last().unwrap();
    assert_eq!(scroll.payload, WindowEvent::MouseScroll(0, 3));
    assert_eq!(scroll.target, c);
    assert_eq!(scroll.propagation, Propagation::Direct);
}

#[test]
fn hit_testing_resumes_after_release() {
    let (mut app, b) = app_with_widget_b();
    let c = Entity::new(7, 0);
    app.state.capture(c);
    app.handle_platform_event(PlatformEvent::CursorMoved { x: 10, y: 10 });
    app.state.release(c);
    assert!(app.state.captured.is_null());
    let before = app.state.queue.len();
    app.handle_platform_event(PlatformEvent::CursorMoved { x: 11, y: 11 });
    let appended = events_from(&app, before);
    let mv = appended.last().unwrap();
    assert_eq!(mv.payload, WindowEvent::MouseMove(11, 11));
    assert_eq!(mv.target, b);
    assert_eq!(mv.propagation, Propagation::Up);
}

#[test]
fn release_by_another_widget_keeps_the_capture() {
    let (mut app, _b) = app_with_widget_b();
    let c = Entity::new(7, 0);
    app.state.capture(c);
    app.state.release(Entity::new(8, 0));
    assert_eq!(app.state.captured, c);
}

#[test]
fn hover_change_updates_pseudo_class_flags() {
    let (mut app, b) = app_with_widget_b();
    app.handle_platform_event(PlatformEvent::CursorMoved { x: 10, y: 10 });
    // Record 1 is B: hovered, over.
    assert!(app.state.store.record_at(1).hover);
    assert!(app.state.store.record_at(1).over);
    assert!(!app.state.store.record_at(0).over);
    // Move off every widget but the root.
    app.handle_platform_event(PlatformEvent::CursorMoved { x: 150, y: 150 });
    assert!(!app.state.store.record_at(1).hover);
    assert!(!app.state.store.record_at(1).over);
    assert_eq!(app.state.hovered, Entity::root());
    assert_eq!(b, Entity::new(1, 0));
}

#[test]
fn modifier_keys_track_up_and_down() {
    let (mut app, _b) = app_with_widget_b();
    app.handle_platform_event(PlatformEvent::KeyPressed(KeyCode::Shift));
    assert!(app.state.modifiers.shift);
    app.handle_platform_event(PlatformEvent::KeyPressed(KeyCode::Control));
    assert!(app.state.modifiers.ctrl);
    app.handle_platform_event(PlatformEvent::KeyReleased(KeyCode::Shift));
    assert!(!app.state.modifiers.shift);
    assert!(app.state.modifiers.ctrl);
    app.handle_platform_event(PlatformEvent::KeyReleased(KeyCode::Control));
    assert!(!app.state.modifiers.ctrl);
}

#[test]
fn tab_follows_explicit_next_focus_link() {
    let (mut app, b) = app_with_widget_b();
    let w2 = Entity::new(2, 0);
    app.state.store.add_widget(w2, Entity::root(), widget_props(100, 0, 50, 50, 1));
    app.state.store.set_focus_links(b, w2, Entity::null());
    app.state.set_focus(b);
    app.handle_platform_event(PlatformEvent::KeyPressed(KeyCode::Tab));
    assert_eq!(app.state.focused, w2);
    assert!(app.state.store.record_at(2).focus);
    assert!(!app.state.store.record_at(1).focus);
}

#[test]
fn tab_without_next_link_wraps_to_first_widget() {
    let (mut app, b) = app_with_widget_b();
    app.state.set_focus(b);
    let before = app.state.queue.len();
    app.handle_platform_event(PlatformEvent::KeyPressed(KeyCode::Tab));
    // The first widget in hierarchy order is the root.
    assert_eq!(app.state.focused, Entity::root());
    let appended = events_from(&app, before);
    // The focus change restyles the root, then the key-down goes to the new
    // focused widget.
    assert_eq!(appended[0].payload, WindowEvent::Restyle);
    assert_eq!(appended[0].target, Entity::root());
    assert_eq!(appended[1].payload, WindowEvent::KeyDown(KeyCode::Tab));
    assert_eq!(appended[1].target, Entity::root());
}

#[test]
fn shift_tab_without_prev_link_wraps_to_root() {
    let (mut app, b) = app_with_widget_b();
    app.state.set_focus(b);
    app.handle_platform_event(PlatformEvent::KeyPressed(KeyCode::Shift));
    app.handle_platform_event(PlatformEvent::KeyPressed(KeyCode::Tab));
    assert_eq!(app.state.focused, Entity::root());
}

#[test]
fn shift_tab_follows_explicit_prev_focus_link() {
    let (mut app, b) = app_with_widget_b();
    let w2 = Entity::new(2, 0);
    app.state.store.add_widget(w2, Entity::root(), widget_props(100, 0, 50, 50, 1));
    app.state.store.set_focus_links(b, Entity::null(), w2);
    app.state.set_focus(b);
    app.handle_platform_event(PlatformEvent::KeyPressed(KeyCode::Shift));
    app.handle_platform_event(PlatformEvent::KeyPressed(KeyCode::Tab));
    assert_eq!(app.state.focused, w2);
}

#[test]
fn keys_and_characters_target_the_focused_widget() {
    let (mut app, b) = app_with_widget_b();
    app.state.set_focus(b);
    let before = app.state.queue.len();
    app.handle_platform_event(PlatformEvent::KeyPressed(KeyCode::Z));
    app.handle_platform_event(PlatformEvent::CharTyped(122));
    let appended = events_from(&app, before);
    assert_eq!(appended.len(), 2);
    assert_eq!(appended[0].payload, WindowEvent::KeyDown(KeyCode::Z));
    assert_eq!(appended[0].target, b);
    assert_eq!(appended[1].payload, WindowEvent::CharInput(122));
    assert_eq!(appended[1].target, b);
}

#[test]
fn scroll_over_nothing_routes_nowhere() {
    // A store whose root is not hoverable: the cursor hovers nothing
    // specific.
    let mut app = Application::new(200, 200);
    let mut proot = widget_props(0, 0, 200, 200, 0);
    proot.hoverable = false;
    app.state.store = uicore::store::WidgetStore::new();
    app.state.store.add_widget(Entity::root(), Entity::null(), proot);
    app.handle_platform_event(PlatformEvent::CursorMoved { x: 50, y: 50 });
    assert_eq!(app.state.hovered, Entity::root());
    let before = app.state.queue.len();
    app.handle_platform_event(PlatformEvent::WheelScrolled { dx: 1, dy: 2 });
    assert_eq!(app.state.queue.len(), before);
}

#[test]
fn hover_change_resets_active() {
    let (mut app, b) = app_with_widget_b();
    app.handle_platform_event(PlatformEvent::CursorMoved { x: 10, y: 10 });
    app.handle_platform_event(PlatformEvent::ButtonPressed(MouseButton::Left));
    assert_eq!(app.state.active, b);
    app.handle_platform_event(PlatformEvent::CursorMoved { x: 150, y: 150 });
    assert!(app.state.active.is_null());
}
