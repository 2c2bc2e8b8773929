//! Per-instance session state and the render-loop driver's state machine.
//!
//! A session owns a static canvas buffer, at most one active effect per
//! layer tag, the most recently successfully compiled effect source (kept
//! to support replaying), and the frame clock bookkeeping.  Once per
//! display frame the driver drains all pending commands, applies them in
//! enqueue order, steps the clock, composes the canvas onto the frame and
//! paints the effect layer over it.

use vstd::prelude::*;

use crate::ansi::{
    ansi_ok, buffer_height, buffer_view, buffer_width, empty_buffer, empty_grid, parse_ansi,
    parsed_rows, parsed_text_view, render_text_buffer, rendered_view, text_view,
};
use crate::clock::{clamp_elapsed, instant_now, millis_between};
use crate::event::AppEvent;
use crate::event_handler::EventHandler;
use crate::fx::{
    add_unique_effect, blit_canvas, blit_view, compile_dsl_effect, dsl_compiles, frame_view,
    layer_tags, new_effect_manager, process_effects, EffectLayers,
};
use crate::width::{grid_columns, grid_dimensions, sat_u16};

verus! {

/// The fixed layer tag under which a session's single active effect is
/// registered; registering again under it replaces the previous effect.
pub const EFFECT_LAYER_TAG: u8 = 0;

/// The observable state of one session: the canvas dimensions and the
/// retained effect source.  Commands are folded over this model; the
/// opaque parts of a session (cell contents, the compiled effect object,
/// the clock) are constrained separately, by the methods' own contracts.
pub struct SessionModel {
    pub canvas_w: u16,
    pub canvas_h: u16,
    pub effect_dsl: Option<Seq<char>>,
}

/// What applying one command does to the observable session state:
/// a canvas replacement whose payload parses installs the minimal bounding
/// grid of the parse; a compilation that succeeds retains its source; a
/// resize installs the given dimensions; everything else, and every failed
/// parse or compilation, leaves the state unchanged.
pub open spec fn step_model(m: SessionModel, ev: AppEvent) -> SessionModel {
    match ev {
        AppEvent::ReplaceCanvas(src) => if ansi_ok(src@) {
            SessionModel {
                canvas_w: sat_u16(grid_columns(parsed_rows(src@))),
                canvas_h: sat_u16(parsed_rows(src@).len()),
                effect_dsl: m.effect_dsl,
            }
        } else {
            m
        },
        AppEvent::CompileDsl(code) => if dsl_compiles(code@) {
            SessionModel { canvas_w: m.canvas_w, canvas_h: m.canvas_h, effect_dsl: Some(code@) }
        } else {
            m
        },
        AppEvent::ReplayCurrentEffect => m,
        AppEvent::Resize(w, h) => SessionModel {
            canvas_w: w,
            canvas_h: h,
            effect_dsl: m.effect_dsl,
        },
        AppEvent::Tick => m,
    }
}

/// The observable state after applying a sequence of commands in order.
pub open spec fn fold_model(m: SessionModel, evs: Seq<AppEvent>) -> SessionModel
    decreases evs.len(),
{
    if evs.len() == 0 {
        m
    } else {
        step_model(fold_model(m, evs.drop_last()), evs.last())
    }
}

/// Whether applying one command emits a diagnostic: exactly the canvas
/// replacements whose payload does not parse and the compilations whose
/// source does not compile.
pub open spec fn step_diagnostic(ev: AppEvent) -> bool {
    ||| (ev matches AppEvent::ReplaceCanvas(s) && !ansi_ok(s@))
    ||| (ev matches AppEvent::CompileDsl(c) && !dsl_compiles(c@))
}

/// How many of the given commands emit a diagnostic.
pub open spec fn count_diagnostics(evs: Seq<AppEvent>) -> nat
    decreases evs.len(),
{
    if evs.len() == 0 {
        0
    } else {
        count_diagnostics(evs.drop_last()) + if step_diagnostic(evs.last()) {
            1nat
        } else {
            0nat
        }
    }
}

/// One rendering session's state.
pub struct App {
    effects: EffectLayers,
    effect_dsl: Option<String>,
    canvas_buf: ratatui::buffer::Buffer,
    canvas_w: u16,
    canvas_h: u16,
    last_tick_instant: web_time::Instant,
    last_tick_duration: u32,
}

impl App {
    /// The observable session state.
    pub closed spec fn model(&self) -> SessionModel {
        SessionModel {
            canvas_w: self.canvas_w,
            canvas_h: self.canvas_h,
            effect_dsl: match self.effect_dsl {
                Some(s) => Some(s@),
                None => None,
            },
        }
    }

    /// The canvas buffer that composition copies onto the frame.
    pub closed spec fn canvas(&self) -> ratatui::buffer::Buffer {
        self.canvas_buf
    }

    /// The set of active effect layers.
    pub closed spec fn effect_layers(&self) -> EffectLayers {
        self.effects
    }

    /// The elapsed time the most recent frame consumed, in milliseconds.
    pub closed spec fn last_elapsed(&self) -> u32 {
        self.last_tick_duration
    }

    /// Well-formedness: the held buffer covers exactly the recorded canvas
    /// dimensions, and a retained effect source is known to compile, so
    /// that replaying it cannot fail.
    pub closed spec fn wf(&self) -> bool {
        &&& buffer_width(self.canvas_buf) == self.canvas_w
        &&& buffer_height(self.canvas_buf) == self.canvas_h
        &&& (self.effect_dsl matches Some(s) ==> dsl_compiles(s@))
    }

    /// The dimensions of the current canvas grid.
    pub fn canvas_size(&self) -> (dims: (u16, u16))
        ensures
            dims.0 == self.model().canvas_w,
            dims.1 == self.model().canvas_h,
    {
        (self.canvas_w, self.canvas_h)
    }

    /// Whether an effect source was ever successfully compiled and is
    /// retained for replaying.
    pub fn has_effect_source(&self) -> (b: bool)
        ensures
            b == (self.model().effect_dsl is Some),
    {
        self.effect_dsl.is_some()
    }

    /// The elapsed milliseconds the most recent frame consumed.
    pub fn last_frame_elapsed(&self) -> (e: u32)
        ensures
            e == self.last_elapsed(),
    {
        self.last_tick_duration
    }

    /// A fresh session: a default-sized empty canvas, no active effect and
    /// no retained effect source.
    pub fn new() -> (app: App)
        ensures
            app.wf(),
            app.model().canvas_w == 20,
            app.model().canvas_h == 10,
            app.model().effect_dsl is None,
            app.last_elapsed() == 0,
            layer_tags(app.effect_layers()) == Set::<u8>::empty(),
            buffer_view(app.canvas()) == empty_grid(20, 10),
    {
        App {
            effects: new_effect_manager(),
            effect_dsl: None,
            canvas_buf: empty_buffer(20, 10),
            canvas_w: 20,
            canvas_h: 10,
            last_tick_instant: instant_now(),
            last_tick_duration: 0,
        }
    }

    /// Registers a compiled effect at the fixed layer tag, replacing any
    /// effect already registered there.
    fn register_effect(&mut self, effect: tachyonfx::Effect)
        ensures
            layer_tags(final(self).effects) == layer_tags(old(self).effects).insert(
                EFFECT_LAYER_TAG,
            ),
            final(self).effect_dsl == old(self).effect_dsl,
            final(self).canvas_buf == old(self).canvas_buf,
            final(self).canvas_w == old(self).canvas_w,
            final(self).canvas_h == old(self).canvas_h,
            final(self).last_tick_instant == old(self).last_tick_instant,
            final(self).last_tick_duration == old(self).last_tick_duration,
    {
        add_unique_effect(&mut self.effects, EFFECT_LAYER_TAG, effect);
    }

    /// Parses the given ANSI source and replaces the canvas wholesale with
    /// its minimal bounding grid; a failed parse emits a diagnostic and
    /// leaves the session exactly as it was.
    fn update_canvas(&mut self, source: String) -> (diag: Option<String>)
        requires
            old(self).wf(),
        ensures
            final(self).wf(),
            final(self).model() == step_model(old(self).model(), AppEvent::ReplaceCanvas(source)),
            diag is Some <==> !ansi_ok(source@),
            diag matches Some(m) ==> m@ == "Failed to parse ANSI input"@,
            ansi_ok(source@) ==> buffer_view(final(self).canvas()) == rendered_view(
                parsed_text_view(source@),
                final(self).model().canvas_w,
                final(self).model().canvas_h,
            ),
            !ansi_ok(source@) ==> *final(self) == *old(self),
            final(self).effects == old(self).effects,
            final(self).effect_dsl == old(self).effect_dsl,
            final(self).last_tick_instant == old(self).last_tick_instant,
            final(self).last_tick_duration == old(self).last_tick_duration,
    {
        match parse_ansi(source.as_str()) {
            None => Some(<String as vstd::string::StringExecFns>::from_str(
                "Failed to parse ANSI input",
            )),
            Some(parsed) => {
                let dims = grid_dimensions(&parsed.row_widths);
                self.canvas_buf = render_text_buffer(&parsed.text, dims.0, dims.1);
                self.canvas_w = dims.0;
                self.canvas_h = dims.1;
                None
            },
        }
    }

    /// Replaces the canvas with an empty grid of the given dimensions,
    /// discarding cell contents.
    fn resize_canvas(&mut self, w: u16, h: u16)
        requires
            old(self).wf(),
        ensures
            final(self).wf(),
            final(self).model() == step_model(old(self).model(), AppEvent::Resize(w, h)),
            buffer_view(final(self).canvas()) == empty_grid(w, h),
            final(self).effects == old(self).effects,
            final(self).effect_dsl == old(self).effect_dsl,
            final(self).last_tick_instant == old(self).last_tick_instant,
            final(self).last_tick_duration == old(self).last_tick_duration,
    {
        self.canvas_buf = empty_buffer(w, h);
        self.canvas_w = w;
        self.canvas_h = h;
    }

    /// Compiles the given effect description; on success registers the
    /// effect at the fixed layer tag and retains the source for replaying,
    /// on failure emits the compiler's diagnostic and leaves the session
    /// exactly as it was.
    fn compile_and_register_effect(&mut self, code: String) -> (diag: Option<String>)
        requires
            old(self).wf(),
        ensures
            final(self).wf(),
            final(self).model() == step_model(old(self).model(), AppEvent::CompileDsl(code)),
            diag is Some <==> !dsl_compiles(code@),
            dsl_compiles(code@) ==> layer_tags(final(self).effect_layers()) == layer_tags(
                old(self).effect_layers(),
            ).insert(EFFECT_LAYER_TAG),
            !dsl_compiles(code@) ==> *final(self) == *old(self),
            final(self).canvas_buf == old(self).canvas_buf,
            final(self).last_tick_instant == old(self).last_tick_instant,
            final(self).last_tick_duration == old(self).last_tick_duration,
    {
        match compile_dsl_effect(code.as_str()) {
            Ok(effect) => {
                self.effect_dsl = Some(code);
                self.register_effect(effect);
                None
            },
            Err(message) => Some(message),
        }
    }

    /// Re-compiles and re-registers the retained effect source; a no-op
    /// when none is retained.  A retained source is known-good, so the
    /// re-compilation cannot fail.
    fn replay_effect(&mut self)
        requires
            old(self).wf(),
        ensures
            final(self).wf(),
            final(self).model() == old(self).model(),
            old(self).model().effect_dsl is None ==> *final(self) == *old(self),
            old(self).model().effect_dsl is Some ==> layer_tags(final(self).effect_layers())
                == layer_tags(old(self).effect_layers()).insert(EFFECT_LAYER_TAG),
            final(self).canvas_buf == old(self).canvas_buf,
            final(self).effect_dsl == old(self).effect_dsl,
            final(self).last_tick_instant == old(self).last_tick_instant,
            final(self).last_tick_duration == old(self).last_tick_duration,
    {
        let effect = match &self.effect_dsl {
            Some(dsl) => match compile_dsl_effect(dsl.as_str()) {
                Ok(e) => Some(e),
                Err(_) => {
                    // Well-formedness retains only sources that compile,
                    // so the compiler cannot refuse one here.
                    proof {
                        assert(false);
                    }
                    None
                },
            },
            None => None,
        };
        match effect {
            Some(e) => self.register_effect(e),
            None => (),
        }
    }

    /// Applies one command to the session, in the order the command
    /// stream dictates, and returns the diagnostic it emits, if any.
    /// Failed parses and failed compilations are recoverable: they emit
    /// exactly one diagnostic and leave the session exactly as it was.
    pub fn apply_event(&mut self, event: AppEvent) -> (diag: Option<String>)
        requires
            old(self).wf(),
        ensures
            final(self).wf(),
            final(self).model() == step_model(old(self).model(), event),
            diag is Some <==> step_diagnostic(event),
            step_diagnostic(event) ==> *final(self) == *old(self),
            event matches AppEvent::Tick ==> *final(self) == *old(self),
            (event matches AppEvent::ReplayCurrentEffect && old(self).model().effect_dsl is None)
                ==> *final(self) == *old(self),
            !(event matches AppEvent::ReplaceCanvas(_)) && !(event matches AppEvent::Resize(_, _))
                ==> final(self).canvas() == old(self).canvas(),
            (event matches AppEvent::ReplaceCanvas(_) || event matches AppEvent::Resize(_, _)
                || event matches AppEvent::Tick) ==> final(self).effect_layers() == old(
                self,
            ).effect_layers(),
            (event matches AppEvent::CompileDsl(c) && dsl_compiles(c@)) ==> layer_tags(
                final(self).effect_layers(),
            ) == layer_tags(old(self).effect_layers()).insert(EFFECT_LAYER_TAG),
            (event matches AppEvent::ReplayCurrentEffect && old(self).model().effect_dsl is Some)
                ==> layer_tags(final(self).effect_layers()) == layer_tags(
                old(self).effect_layers(),
            ).insert(EFFECT_LAYER_TAG),
            event matches AppEvent::ReplaceCanvas(s) ==> (ansi_ok(s@) ==> buffer_view(
                final(self).canvas(),
            ) == rendered_view(
                parsed_text_view(s@),
                final(self).model().canvas_w,
                final(self).model().canvas_h,
            )),
            event matches AppEvent::Resize(w, h) ==> buffer_view(final(self).canvas())
                == empty_grid(w, h),
            final(self).last_elapsed() == old(self).last_elapsed(),
    {
        match event {
            AppEvent::ReplaceCanvas(ansi) => self.update_canvas(ansi),
            AppEvent::CompileDsl(code) => self.compile_and_register_effect(code),
            AppEvent::ReplayCurrentEffect => {
                self.replay_effect();
                None
            },
            AppEvent::Resize(w, h) => {
                self.resize_canvas(w, h);
                None
            },
            AppEvent::Tick => None,
        }
    }

    /// Steps the frame clock: the elapsed time since the previous tick,
    /// clamped to a representable range, is recorded and consumed by the
    /// frame being rendered.  Nothing else of the session changes.
    fn tick(&mut self) -> (elapsed: u32)
        requires
            old(self).wf(),
        ensures
            final(self).wf(),
            final(self).model() == old(self).model(),
            elapsed == final(self).last_tick_duration,
            final(self).canvas_buf == old(self).canvas_buf,
            final(self).effects == old(self).effects,
            final(self).effect_dsl == old(self).effect_dsl,
    {
        let now = instant_now();
        let measured = millis_between(&self.last_tick_instant, &now);
        let elapsed = clamp_elapsed(measured);
        self.last_tick_instant = now;
        self.last_tick_duration = elapsed;
        elapsed
    }

    /// Renders one frame: steps the clock, copies the canvas verbatim onto
    /// the frame's buffer, then advances and paints the effect layer over
    /// it.  The observable session state and the canvas are unchanged;
    /// composition and animation always run on whatever state exists.
    pub fn render<'a>(&mut self, frame: &mut ratatui::Frame<'a>)
        requires
            old(self).wf(),
        ensures
            final(self).wf(),
            final(self).model() == old(self).model(),
            final(self).canvas() == old(self).canvas(),
            layer_tags(final(self).effect_layers()).subset_of(
                layer_tags(old(self).effect_layers()),
            ),
            layer_tags(old(self).effect_layers()) == Set::<u8>::empty() ==> frame_view(
                *final(frame),
            ) == blit_view(buffer_view(old(self).canvas()), frame_view(*old(frame))),
    {
        let elapsed = self.tick();
        blit_canvas(&self.canvas_buf, frame);
        process_effects(&mut self.effects, elapsed, frame);
    }

    /// One frame of the render loop driver, over the commands it was
    /// handed: applies them in order, each exactly as `apply_event` says,
    /// then renders the frame.  Returns the diagnostics the failing
    /// commands emitted, one each, in command order.
    pub fn step<'a>(&mut self, commands: Vec<AppEvent>, frame: &mut ratatui::Frame<'a>) -> (diags:
        Vec<String>)
        requires
            old(self).wf(),
        ensures
            final(self).wf(),
            final(self).model() == fold_model(old(self).model(), commands@),
            diags@.len() == count_diagnostics(commands@),
            (commands@.len() == 0 && layer_tags(old(self).effect_layers()) == Set::<u8>::empty())
                ==> frame_view(*final(frame)) == blit_view(
                buffer_view(old(self).canvas()),
                frame_view(*old(frame)),
            ),
    {
        let mut diags: Vec<String> = Vec::new();
        let ghost all: Seq<AppEvent> = commands@;
        let ghost mut applied: Seq<AppEvent> = Seq::empty();
        let mut pending = commands;
        while pending.len() > 0
            invariant
                self.wf(),
                self.model() == fold_model(old(self).model(), applied),
                diags@.len() == count_diagnostics(applied),
                all == applied + pending@,
                applied.len() == 0 ==> *self == *old(self),
            decreases pending.len(),
        {
            let ev = pending.remove(0);
            let ghost gev = ev;
            let diag = self.apply_event(ev);
            proof {
                assert(applied.push(gev).drop_last() =~= applied);
                assert(applied.push(gev) + pending@ =~= all);
                applied = applied.push(gev);
            }
            match diag {
                Some(message) => diags.push(message),
                None => (),
            }
        }
        self.render(frame);
        diags
    }

    /// One invocation of the render loop driver against the command queue.
    /// When the instance is paused it short-circuits before draining
    /// commands or touching any state, so the displayed frame stays frozen
    /// and pending commands are only deferred, never dropped.  Otherwise it
    /// drains all pending commands and hands them to `step`, whose contract
    /// pins the whole frame; which commands were pending is the queue's
    /// outside state, so here they are returned as a ghost sequence,
    /// together with the diagnostics the failed ones emitted.
    pub fn frame_step<'a>(
        &mut self,
        running: bool,
        events: &EventHandler,
        frame: &mut ratatui::Frame<'a>,
    ) -> (out: (Vec<String>, Ghost<Seq<AppEvent>>))
        requires
            old(self).wf(),
        ensures
            final(self).wf(),
            !running ==> *final(self) == *old(self) && *final(frame) == *old(frame) && out.0@.len() == 0,
            running ==> final(self).model() == fold_model(old(self).model(), out.1@),
            running ==> out.0@.len() == count_diagnostics(out.1@),
    {
        if !running {
            return (Vec::new(), Ghost(Seq::empty()));
        }
        let pending = events.drain();
        let ghost drained: Seq<AppEvent> = pending@;
        let diags = self.step(pending, frame);
        (diags, Ghost(drained))
    }
}

/// The source of the last canvas replacement in the given command sequence
/// whose payload parses successfully, if any.
pub open spec fn last_parsed_source(evs: Seq<AppEvent>) -> Option<Seq<char>>
    decreases evs.len(),
{
    if evs.len() == 0 {
        None
    } else {
        match evs.last() {
            AppEvent::ReplaceCanvas(s) => if ansi_ok(s@) {
                Some(s@)
            } else {
                last_parsed_source(evs.drop_last())
            },
            _ => last_parsed_source(evs.drop_last()),
        }
    }
}

/// Law: over any sequence of canvas-replacement commands, the resulting
/// canvas dimensions equal the minimal bounding grid of the last command
/// whose payload parsed successfully; when none did, they stay as they
/// were.
pub proof fn lemma_canvas_dims_track_last_success(m: SessionModel, evs: Seq<AppEvent>)
    requires
        forall|i: int| 0 <= i < evs.len() ==> evs[i] is ReplaceCanvas,
    ensures
        match last_parsed_source(evs) {
            Some(src) => fold_model(m, evs).canvas_w == sat_u16(grid_columns(parsed_rows(src)))
                && fold_model(m, evs).canvas_h == sat_u16(parsed_rows(src).len()),
            None => fold_model(m, evs).canvas_w == m.canvas_w && fold_model(m, evs).canvas_h
                == m.canvas_h,
        },
    decreases evs.len(),
{
    if evs.len() > 0 {
        assert(forall|i: int|
            0 <= i < evs.drop_last().len() ==> evs.drop_last()[i] is ReplaceCanvas);
        lemma_canvas_dims_track_last_success(m, evs.drop_last());
    }
}

/// Law: replaying the current effect when no effect source was ever
/// successfully compiled leaves the observable session state unchanged.
pub proof fn lemma_replay_without_source_is_noop(m: SessionModel)
    requires
        m.effect_dsl is None,
    ensures
        step_model(m, AppEvent::ReplayCurrentEffect) == m,
{
}

/// Law: a compilation command whose source does not compile leaves the
/// observable session state unchanged.
pub proof fn lemma_failed_compile_is_noop(m: SessionModel, code: String)
    requires
        !dsl_compiles(code@),
    ensures
        step_model(m, AppEvent::CompileDsl(code)) == m,
{
}

} // verus!
