//! The render loop driver on a real frame target: draining queued
//! commands, composing the canvas onto the frame, pausing and resuming.

use fx_session::app::App;
use fx_session::event::AppEvent;
use fx_session::event_handler::EventHandler;
use ratatui::backend::TestBackend;
use ratatui::Terminal;

fn tick_rate() -> core::time::Duration {
    core::time::Duration::from_millis(33)
}

#[test]
fn frame_step_applies_queued_commands_in_order() {
    let events = EventHandler::new(tick_rate());
    let mut app = App::new();
    let mut terminal = Terminal::new(TestBackend::new(10, 4)).unwrap();
    events.dispatch(AppEvent::ReplaceCanvas(String::from("AB")));
    events.dispatch(AppEvent::ReplaceCanvas(String::from("XYZ\n12")));
    terminal
        .draw(|frame| {
            let (diags, _) = app.frame_step(true, &events, frame);
            assert!(diags.is_empty());
        })
        .unwrap();
    assert_eq!(app.canvas_size(), (3, 2));
}

#[test]
fn frame_step_composes_canvas_onto_frame() {
    let events = EventHandler::new(tick_rate());
    let mut app = App::new();
    let mut terminal = Terminal::new(TestBackend::new(10, 4)).unwrap();
    events.dispatch(AppEvent::ReplaceCanvas(String::from("AB")));
    terminal
        .draw(|frame| {
            app.frame_step(true, &events, frame);
        })
        .unwrap();
    let buffer = terminal.backend().buffer();
    assert_eq!(buffer.cell((0, 0)).unwrap().symbol(), "A");
    assert_eq!(buffer.cell((1, 0)).unwrap().symbol(), "B");
}

#[test]
fn stopped_frame_defers_commands_without_dropping_them() {
    let events = EventHandler::new(tick_rate());
    let mut app = App::new();
    let mut terminal = Terminal::new(TestBackend::new(10, 4)).unwrap();
    events.dispatch(AppEvent::ReplaceCanvas(String::from("AB")));
    // A paused frame short-circuits: no command is drained, nothing changes.
    terminal
        .draw(|frame| {
            let (diags, _) = app.frame_step(false, &events, frame);
            assert!(diags.is_empty());
        })
        .unwrap();
    assert_eq!(app.canvas_size(), (20, 10));
    // Resuming applies the deferred command.
    terminal
        .draw(|frame| {
            app.frame_step(true, &events, frame);
        })
        .unwrap();
    assert_eq!(app.canvas_size(), (2, 1));
}

#[test]
fn each_failing_command_emits_one_diagnostic() {
    let events = EventHandler::new(tick_rate());
    let mut app = App::new();
    let mut terminal = Terminal::new(TestBackend::new(10, 4)).unwrap();
    events.dispatch(AppEvent::CompileDsl(String::from("bad syntax {{")));
    events.dispatch(AppEvent::CompileDsl(String::from("also bad ((")));
    events.dispatch(AppEvent::Tick);
    terminal
        .draw(|frame| {
            let (diags, _) = app.frame_step(true, &events, frame);
            assert_eq!(diags.len(), 2);
        })
        .unwrap();
    assert!(!app.has_effect_source());
}

#[test]
fn effect_animates_over_frames() {
    let events = EventHandler::new(tick_rate());
    let mut app = App::new();
    let mut terminal = Terminal::new(TestBackend::new(10, 4)).unwrap();
    events.dispatch(AppEvent::ReplaceCanvas(String::from("AB")));
    events.dispatch(AppEvent::CompileDsl(String::from("fx::dissolve(500)")));
    for _ in 0..3 {
        terminal
            .draw(|frame| {
                let (diags, _) = app.frame_step(true, &events, frame);
                assert!(diags.is_empty());
            })
            .unwrap();
    }
    assert!(app.has_effect_source());
    assert_eq!(app.canvas_size(), (2, 1));
}

#[test]
fn render_keeps_session_state() {
    let mut app = App::new();
    let mut terminal = Terminal::new(TestBackend::new(10, 4)).unwrap();
    terminal
        .draw(|frame| {
            app.render(frame);
        })
        .unwrap();
    assert_eq!(app.canvas_size(), (20, 10));
    assert!(!app.has_effect_source());
}

#[test]
fn queue_hands_out_commands_in_enqueue_order() {
    let events = EventHandler::new(tick_rate());
    events.dispatch(AppEvent::Resize(1, 1));
    events.dispatch(AppEvent::Tick);
    assert!(matches!(events.try_next(), Some(AppEvent::Resize(1, 1))));
    assert!(matches!(events.try_next(), Some(AppEvent::Tick)));
    assert!(events.try_next().is_none());
}

#[test]
fn queue_iter_and_drain_empty_the_queue() {
    let events = EventHandler::new(tick_rate());
    events.dispatch(AppEvent::Tick);
    events.dispatch(AppEvent::Tick);
    let mut it = events.iter();
    assert!(matches!(it.next(), Some(AppEvent::Tick)));
    events.dispatch(AppEvent::Resize(2, 2));
    let drained = events.drain();
    assert_eq!(drained.len(), 2);
    assert!(matches!(drained[0], AppEvent::Tick));
    assert!(matches!(drained[1], AppEvent::Resize(2, 2)));
    assert!(events.try_next().is_none());
}

#[test]
fn queue_next_returns_pending_command() {
    let events = EventHandler::new(tick_rate());
    let producer = events.sender();
    producer.send(AppEvent::Tick).unwrap();
    assert!(matches!(events.next(), Ok(AppEvent::Tick)));
}

#[test]
fn step_applies_handed_commands_without_a_queue() {
    let mut app = App::new();
    let mut terminal = Terminal::new(TestBackend::new(10, 4)).unwrap();
    terminal
        .draw(|frame| {
            let diags = app.step(
                vec![
                    AppEvent::ReplaceCanvas(String::from("AB\nC")),
                    AppEvent::CompileDsl(String::from("bad syntax {{")),
                    AppEvent::Tick,
                ],
                frame,
            );
            assert_eq!(diags.len(), 1);
        })
        .unwrap();
    assert_eq!(app.canvas_size(), (2, 2));
    assert!(!app.has_effect_source());
}
