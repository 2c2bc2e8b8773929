//! Session state transitions: command application, diagnostics, and the
//! retention rules for the canvas and the effect source.

use fx_session::app::App;
use fx_session::event::AppEvent;

const GOOD_DSL: &str = "fx::dissolve(500)";
const BAD_DSL: &str = "bad syntax {{";

#[test]
fn new_session_defaults() {
    let app = App::new();
    assert_eq!(app.canvas_size(), (20, 10));
    assert!(!app.has_effect_source());
    assert_eq!(app.last_frame_elapsed(), 0);
}

#[test]
fn replace_canvas_installs_minimal_grid() {
    let mut app = App::new();
    let diag = app.apply_event(AppEvent::ReplaceCanvas(String::from("AB\nC")));
    assert!(diag.is_none());
    assert_eq!(app.canvas_size(), (2, 2));
}

#[test]
fn last_replace_canvas_wins() {
    let mut app = App::new();
    app.apply_event(AppEvent::ReplaceCanvas(String::from("AB\nC")));
    app.apply_event(AppEvent::ReplaceCanvas(String::from("WXYZ")));
    assert_eq!(app.canvas_size(), (4, 1));
}

#[test]
fn command_stream_with_bad_compile() {
    // ReplaceCanvas("AB\nC"), CompileEffect(bad), Tick: the canvas becomes
    // the 2-by-2 grid, no effect source is retained, and the compile
    // failure emits a diagnostic exactly once.
    let mut app = App::new();
    let d1 = app.apply_event(AppEvent::ReplaceCanvas(String::from("AB\nC")));
    let d2 = app.apply_event(AppEvent::CompileDsl(String::from(BAD_DSL)));
    let d3 = app.apply_event(AppEvent::Tick);
    assert!(d1.is_none());
    assert!(d2.is_some());
    assert!(d3.is_none());
    assert_eq!(app.canvas_size(), (2, 2));
    assert!(!app.has_effect_source());
}

#[test]
fn compile_error_message_is_informative() {
    let mut app = App::new();
    let diag = app.apply_event(AppEvent::CompileDsl(String::from(BAD_DSL))).unwrap();
    assert!(!diag.is_empty());
}

#[test]
fn successful_compile_retains_source() {
    let mut app = App::new();
    let diag = app.apply_event(AppEvent::CompileDsl(String::from(GOOD_DSL)));
    assert!(diag.is_none());
    assert!(app.has_effect_source());
}

#[test]
fn failed_compile_preserves_previous_effect() {
    let mut app = App::new();
    app.apply_event(AppEvent::ReplaceCanvas(String::from("AB\nC")));
    app.apply_event(AppEvent::CompileDsl(String::from(GOOD_DSL)));
    let diag = app.apply_event(AppEvent::CompileDsl(String::from(BAD_DSL)));
    assert!(diag.is_some());
    // The retained source and the canvas are untouched by the failure.
    assert!(app.has_effect_source());
    assert_eq!(app.canvas_size(), (2, 2));
    // Replaying the retained, known-good source still works.
    let replay = app.apply_event(AppEvent::ReplayCurrentEffect);
    assert!(replay.is_none());
}

#[test]
fn replay_without_source_is_noop() {
    let mut app = App::new();
    let diag = app.apply_event(AppEvent::ReplayCurrentEffect);
    assert!(diag.is_none());
    assert_eq!(app.canvas_size(), (20, 10));
    assert!(!app.has_effect_source());
}

#[test]
fn resize_installs_empty_grid_of_given_size() {
    let mut app = App::new();
    app.apply_event(AppEvent::ReplaceCanvas(String::from("AB\nC")));
    let diag = app.apply_event(AppEvent::Resize(7, 3));
    assert!(diag.is_none());
    assert_eq!(app.canvas_size(), (7, 3));
}

#[test]
fn tick_changes_nothing() {
    let mut app = App::new();
    app.apply_event(AppEvent::ReplaceCanvas(String::from("AB")));
    let diag = app.apply_event(AppEvent::Tick);
    assert!(diag.is_none());
    assert_eq!(app.canvas_size(), (2, 1));
    assert!(!app.has_effect_source());
}
