use uicore::application::{Application, PlatformEvent};
use uicore::dispatch::{EventHandler, NoopHandler};
use uicore::entity::Entity;
use uicore::events::{
    CursorIcon, Event, MouseButton, Propagation, WindowEvent,
};
use uicore::state::UiState;
use uicore::store::{Visibility, WidgetProps};
use uicore::widgets::ResizableVBox;
use uicore::WindowDescription;

#[test]
fn idle_frame_skips_drawing() {
    let mut app = Application::new(200, 200);
    let mut handler = NoopHandler;
    // The first frame drains the startup restyle and relayout.
    let first = app.on_frame(&mut handler, false, 1000);
    assert!(first.drained);
    assert!(!first.redraw);
    // With nothing pending and no animation, the next frame draws nothing.
    let idle = app.on_frame(&mut handler, false, 1000);
    assert!(idle.drained);
    assert!(!idle.redraw);
    assert_eq!(app.state.queue.len(), 0);
}

#[test]
fn active_animation_forces_a_redraw() {
    let mut app = Application::new(200, 200);
    let mut handler = NoopHandler;
    let outcome = app.on_frame(&mut handler, true, 1000);
    assert!(outcome.drained);
    assert!(outcome.redraw);
}

#[test]
fn animation_frame_schedules_relayout_then_redraw() {
    // An active animation puts exactly a relayout and a redraw behind the
    // pending events; with a budget of one step only the relayout is
    // processed, and the redraw is still pending.
    let mut app = Application::new(200, 200);
    let mut handler = NoopHandler;
    app.on_frame(&mut handler, false, 1000);
    let short = app.on_frame(&mut handler, true, 1);
    assert!(!short.drained);
    assert!(!short.redraw);
    assert_eq!(app.state.queue.len(), 1);
    assert_eq!(app.state.queue.get(0).payload, WindowEvent::Redraw);
    // The next frame finishes the drain and reports the redraw.
    let rest = app.on_frame(&mut handler, false, 1000);
    assert!(rest.drained);
    assert!(rest.redraw);
}

#[test]
fn pending_redraw_event_marks_the_frame_dirty() {
    let mut app = Application::new(200, 200);
    app.state.insert_event(Event::new(WindowEvent::Redraw));
    let mut handler = NoopHandler;
    let outcome = app.on_frame(&mut handler, false, 1000);
    assert!(outcome.drained);
    assert!(outcome.redraw);
}

#[test]
fn hover_change_makes_the_next_frame_redraw() {
    let mut app = Application::new(200, 200);
    let b = Entity::new(1, 0);
    app.state.store.add_widget(
        b,
        Entity::root(),
        WidgetProps {
            posx: 0,
            posy: 0,
            width: 100,
            height: 100,
            z_order: 1,
            visibility: Visibility::Visible,
            opacity: 1_000_000,
            hoverable: true,
            border_width: 0,
            clip_widget: Entity::root(),
        },
    );
    app.handle_platform_event(PlatformEvent::CursorMoved { x: 10, y: 10 });
    let mut handler = NoopHandler;
    let outcome = app.on_frame(&mut handler, false, 1000);
    assert!(outcome.drained);
    assert!(outcome.redraw);
}

/// Routes events for the one resizable panel in these tests.
struct PanelRegistry {
    panel_entity: Entity,
    panel: ResizableVBox,
}

impl EventHandler for PanelRegistry {
    fn on_event(&mut self, state: &mut UiState, recipient: Entity, event: &Event) {
        if recipient == self.panel_entity {
            self.panel.step(state, recipient, event);
        }
    }
}

fn resizable_app() -> (Application, Entity) {
    let panel = Entity::new(1, 0);
    let mut app = Application::new(400, 400);
    app.state.store.add_widget(
        panel,
        Entity::root(),
        WidgetProps {
            posx: 0,
            posy: 0,
            width: 300,
            height: 400,
            z_order: 1,
            visibility: Visibility::Visible,
            opacity: 1_000_000,
            hoverable: true,
            border_width: 0,
            clip_widget: Entity::root(),
        },
    );
    (app, panel)
}

#[test]
fn resizable_panel_captures_and_drags_its_edge() {
    let (mut app, panel) = resizable_app();
    let mut registry = PanelRegistry { panel_entity: panel, panel: ResizableVBox::new() };

    // Press inside the 4-pixel band at the right edge (width 300).
    app.handle_platform_event(PlatformEvent::CursorMoved { x: 298, y: 50 });
    app.handle_platform_event(PlatformEvent::ButtonPressed(MouseButton::Left));
    let outcome = app.on_frame(&mut registry, false, 1000);
    assert!(outcome.drained);
    assert!(registry.panel.resizing);
    assert_eq!(app.state.captured, panel);

    // Drag 40 pixels right: the move routes to the captured panel directly
    // and the panel width follows, hit test notwithstanding.
    app.handle_platform_event(PlatformEvent::CursorMoved { x: 338, y: 50 });
    let outcome = app.on_frame(&mut registry, false, 1000);
    assert!(outcome.drained);
    assert_eq!(app.state.store.get_width(panel), 340);

    // Release: the resize ends and the panel replays a cursor move at
    // itself; the cursor now sits off the new edge band, so the panel
    // releases the capture and restores the arrow cursor.
    app.handle_platform_event(PlatformEvent::ButtonReleased(MouseButton::Left));
    app.handle_platform_event(PlatformEvent::CursorMoved { x: 200, y: 50 });
    let outcome = app.on_frame(&mut registry, false, 1000);
    assert!(outcome.drained);
    assert!(!registry.panel.resizing);
    assert!(app.state.captured.is_null());
}

#[test]
fn resizable_panel_shows_the_resize_cursor_on_the_band() {
    let (mut app, panel) = resizable_app();
    let mut rv = ResizableVBox::new();
    // A move strictly inside the 4-pixel band at the right edge (width 300)
    // asks for the resize cursor.
    let before = app.state.queue.len();
    let ev = Event::new(WindowEvent::MouseMove(297, 50)).target(panel);
    rv.step(&mut app.state, panel, &ev);
    assert_eq!(app.state.queue.len(), before + 1);
    assert_eq!(
        app.state.queue.get(before).payload,
        WindowEvent::SetCursor(CursorIcon::EResize)
    );
    // A move off the band restores the arrow and releases any capture.
    app.state.capture(panel);
    let ev = Event::new(WindowEvent::MouseMove(100, 50)).target(panel);
    rv.step(&mut app.state, panel, &ev);
    assert_eq!(
        app.state.queue.get(before + 1).payload,
        WindowEvent::SetCursor(CursorIcon::Arrow)
    );
    assert!(app.state.captured.is_null());
    // A mouse-out while not resizing restores the arrow too.
    let ev = Event::new(WindowEvent::MouseOut).target(panel);
    rv.step(&mut app.state, panel, &ev);
    assert_eq!(
        app.state.queue.get(before + 2).payload,
        WindowEvent::SetCursor(CursorIcon::Arrow)
    );
}

#[test]
fn window_description_builders_fill_the_fields() {
    let w = WindowDescription::new();
    assert_eq!(w.title, "Default");
    assert_eq!((w.inner_width, w.inner_height), (800, 600));
    assert_eq!((w.min_inner_width, w.min_inner_height), (100, 100));
    assert!(w.icon.is_none());

    let w = WindowDescription::new()
        .with_title("Synth")
        .with_inner_size(640, 480)
        .with_min_inner_size(320, 240)
        .with_icon(vec![1, 2, 3], 2, 2);
    assert_eq!(w.title, "Synth");
    assert_eq!((w.inner_width, w.inner_height), (640, 480));
    assert_eq!((w.min_inner_width, w.min_inner_height), (320, 240));
    assert_eq!(w.icon, Some(vec![1, 2, 3]));
    assert_eq!((w.icon_width, w.icon_height), (2, 2));
}

#[test]
fn window_close_translates_to_a_root_event() {
    let mut app = Application::new(200, 200);
    let before = app.state.queue.len();
    app.handle_platform_event(PlatformEvent::WindowClosed);
    assert_eq!(app.state.queue.len(), before + 1);
    let ev = app.state.queue.get(before);
    assert_eq!(ev.payload, WindowEvent::WindowClose);
    assert_eq!(ev.target, Entity::root());
    assert_eq!(ev.propagation, Propagation::Up);
    assert_eq!(ev.origin, Entity::root());
}
