//! Instance registry and lifecycle: creation, pausing, resuming,
//! destruction, and the inertness of stale handles.

use fx_session::app::App;
use fx_session::event::AppEvent;
use fx_session::registry::Registry;
use fx_session::renderer::create_renderer;
use ratatui::backend::TestBackend;
use ratatui::Terminal;

const GOOD_DSL: &str = "fx::dissolve(500)";

#[test]
fn create_renderer_registers_live_instance() {
    let mut registry = Registry::new();
    let setup = create_renderer(&mut registry, GOOD_DSL, "AB\nC").unwrap();
    assert_eq!(setup.terminal_size, (2, 2));
    let id = setup.renderer.instance_id();
    assert_eq!(registry.get_running_flag(id), Some(true));
    assert!(registry.get_sender(id).is_some());
    assert!(setup.renderer.is_running(&registry));
}

#[test]
fn initial_commands_are_enqueued_at_creation() {
    let mut registry = Registry::new();
    let mut setup = create_renderer(&mut registry, GOOD_DSL, "AB\nC").unwrap();
    let mut terminal = Terminal::new(TestBackend::new(10, 4)).unwrap();
    let app: &mut App = &mut setup.app;
    let events = &setup.events;
    terminal
        .draw(|frame| {
            let (diags, _) = app.frame_step(true, events, frame);
            assert!(diags.is_empty());
        })
        .unwrap();
    assert_eq!(app.canvas_size(), (2, 2));
    assert!(app.has_effect_source());
}

#[test]
fn stop_and_start_toggle_running() {
    let mut registry = Registry::new();
    let setup = create_renderer(&mut registry, GOOD_DSL, "AB").unwrap();
    assert!(setup.renderer.is_running(&registry));
    assert!(setup.renderer.stop(&mut registry));
    assert!(!setup.renderer.is_running(&registry));
    assert!(setup.renderer.start(&mut registry));
    assert!(setup.renderer.is_running(&registry));
}

#[test]
fn destroy_makes_identifier_unreachable() {
    let mut registry = Registry::new();
    let setup = create_renderer(&mut registry, GOOD_DSL, "AB").unwrap();
    let id = setup.renderer.instance_id();
    let held_producer = registry.get_sender(id).unwrap();
    setup.renderer.destroy(&mut registry);
    // No caller can re-acquire a handle through the identifier.
    assert!(registry.get_sender(id).is_none());
    assert_eq!(registry.get_running_flag(id), None);
    // A producer handle held from before stays harmlessly inert: the
    // enqueue itself still succeeds, nothing observes it.
    assert!(held_producer.send(AppEvent::Tick).is_ok());
}

#[test]
fn handle_commands_enqueue_through_registry() {
    let mut registry = Registry::new();
    let mut setup = create_renderer(&mut registry, GOOD_DSL, "AB").unwrap();
    setup.renderer.update_effect(&registry, GOOD_DSL);
    setup.renderer.play_effect(&registry);
    let mut terminal = Terminal::new(TestBackend::new(10, 4)).unwrap();
    let app = &mut setup.app;
    let events = &setup.events;
    terminal
        .draw(|frame| {
            let (diags, _) = app.frame_step(true, events, frame);
            assert!(diags.is_empty());
        })
        .unwrap();
    assert!(app.has_effect_source());
}

#[test]
fn identifiers_are_never_reused() {
    let mut registry = Registry::new();
    let first = create_renderer(&mut registry, GOOD_DSL, "AB").unwrap();
    let first_id = first.renderer.instance_id();
    first.renderer.destroy(&mut registry);
    let second = create_renderer(&mut registry, GOOD_DSL, "CD").unwrap();
    assert_ne!(second.renderer.instance_id(), first_id);
}

#[test]
fn two_instances_do_not_interact() {
    let mut registry = Registry::new();
    let a = create_renderer(&mut registry, GOOD_DSL, "AB").unwrap();
    let b = create_renderer(&mut registry, GOOD_DSL, "WXYZ").unwrap();
    assert_ne!(a.renderer.instance_id(), b.renderer.instance_id());
    assert!(a.renderer.stop(&mut registry));
    assert!(!a.renderer.is_running(&registry));
    assert!(b.renderer.is_running(&registry));
}

#[test]
fn stale_handle_commands_reach_live_instance_via_registry() {
    let mut registry = Registry::new();
    let mut setup = create_renderer(&mut registry, GOOD_DSL, "AB").unwrap();
    setup.renderer.update_canvas(&registry, "XYZ\n12");
    let mut terminal = Terminal::new(TestBackend::new(10, 4)).unwrap();
    let app = &mut setup.app;
    let events = &setup.events;
    terminal
        .draw(|frame| {
            app.frame_step(true, events, frame);
        })
        .unwrap();
    // The initial canvas command came first, the update last: last wins.
    assert_eq!(app.canvas_size(), (3, 2));
}
