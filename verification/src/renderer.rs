//! The host-facing boundary of one rendering instance: creation, command
//! enqueueing through the registry, and the lifecycle controller.
//!
//! Lifecycle: an instance starts `Active`; `stop` pauses it (the render
//! loop still runs but short-circuits before touching any state); `start`
//! resumes it; `destroy` mutes it and removes it from the registry, which
//! is terminal.  The per-frame callback itself cannot be unregistered from
//! the host once installed — only muted through the running flag.

use vstd::prelude::*;

use crate::ansi::{ansi_ok, parse_ansi, parsed_rows};
use crate::app::App;
use crate::clock::duration_from_millis;
use crate::event::{owned_text, AppEvent};
use crate::event_handler::{send_event, EventHandler};
use crate::registry::{InstanceData, Registry};
use crate::width::{grid_columns, grid_dimensions, sat_u16};

verus! {

/// The host-facing handle to one rendering instance.  It carries only the
/// instance's identifier; all state lives with the registry and with the
/// render loop driver.
pub struct TachyonFxRenderer {
    instance_id: u32,
}

/// Everything a newly created rendering instance hands back to the host:
/// the caller-facing handle, the command queue whose consumer end the
/// render loop driver owns, the session state the driver folds commands
/// over, and the terminal grid size the backend must be created with.
pub struct SessionSetup {
    pub renderer: TachyonFxRenderer,
    pub events: EventHandler,
    pub app: App,
    pub terminal_size: (u16, u16),
}

impl TachyonFxRenderer {
    /// The identifier under which this instance is registered.
    pub closed spec fn id(&self) -> u32 {
        self.instance_id
    }

    /// The identifier under which this instance is registered.
    pub fn instance_id(&self) -> (id: u32)
        ensures
            id == self.id(),
    {
        self.instance_id
    }

    /// Enqueues a command for this instance, if it is still registered;
    /// after destruction the identifier finds no producer handle and the
    /// call has no effect.
    fn enqueue(&self, registry: &Registry, event: AppEvent) {
        match registry.get_sender(self.instance_id) {
            Some(sender) => send_event(&sender, event),
            None => (),
        }
    }

    /// Enqueues a compilation of the given effect description.
    pub fn update_effect(&self, registry: &Registry, dsl_code: &str) {
        self.enqueue(registry, AppEvent::CompileDsl(owned_text(dsl_code)));
    }

    /// Enqueues a replay of the most recently successfully compiled
    /// effect.
    pub fn play_effect(&self, registry: &Registry) {
        self.enqueue(registry, AppEvent::ReplayCurrentEffect);
    }

    /// Enqueues a wholesale canvas replacement from the given ANSI text.
    pub fn update_canvas(&self, registry: &Registry, ansi_text: &str) {
        self.enqueue(registry, AppEvent::ReplaceCanvas(owned_text(ansi_text)));
    }

    /// Resumes the instance: its render loop applies queued commands
    /// again, from where they were left.  Reports whether the instance is
    /// still registered.
    pub fn start(&self, registry: &mut Registry) -> (found: bool)
        requires
            old(registry).wf(),
        ensures
            final(registry).wf(),
            found <==> old(registry).instances().contains_key(self.id()),
            found ==> final(registry).instances() == old(registry).instances().insert(
                self.id(),
                (InstanceData {
                    sender: old(registry).instances()[self.id()].sender,
                    running: true,
                }),
            ),
            !found ==> final(registry).instances() == old(registry).instances(),
            final(registry).allocated_ids() == old(registry).allocated_ids(),
    {
        registry.set_running(self.instance_id, true)
    }

    /// Pauses the instance: its render loop keeps running but
    /// short-circuits before draining commands or touching any state, so
    /// the displayed frame stays frozen.  Reports whether the instance is
    /// still registered.
    pub fn stop(&self, registry: &mut Registry) -> (found: bool)
        requires
            old(registry).wf(),
        ensures
            final(registry).wf(),
            found <==> old(registry).instances().contains_key(self.id()),
            found ==> final(registry).instances() == old(registry).instances().insert(
                self.id(),
                (InstanceData {
                    sender: old(registry).instances()[self.id()].sender,
                    running: false,
                }),
            ),
            !found ==> final(registry).instances() == old(registry).instances(),
            final(registry).allocated_ids() == old(registry).allocated_ids(),
    {
        registry.set_running(self.instance_id, false)
    }

    /// Whether the instance is registered and live.
    pub fn is_running(&self, registry: &Registry) -> (r: bool)
        ensures
            r == (registry.instances().contains_key(self.id())
                && registry.instances()[self.id()].running),
    {
        match registry.get_running_flag(self.instance_id) {
            Some(b) => b,
            None => false,
        }
    }

    /// Terminal teardown: mutes the instance and removes it from the
    /// registry, so no caller can re-acquire a producer handle through its
    /// identifier.  A producer handle already held elsewhere stays
    /// harmlessly inert: enqueueing through it still succeeds, but nothing
    /// ever drains the queue again.
    pub fn destroy(self, registry: &mut Registry)
        requires
            old(registry).wf(),
        ensures
            final(registry).wf(),
            final(registry).instances() == old(registry).instances().remove(self.id()),
            !final(registry).instances().contains_key(self.id()),
            final(registry).allocated_ids() == old(registry).allocated_ids(),
    {
        let found = registry.set_running(self.instance_id, false);
        registry.remove_instance(self.instance_id);
        proof {
            if found {
                assert(old(registry).instances().insert(
                    self.id(),
                    (InstanceData {
                        sender: old(registry).instances()[self.id()].sender,
                        running: false,
                    }),
                ).remove(self.id()) =~= old(registry).instances().remove(self.id()));
            }
        }
    }
}

/// The terminal grid needed to show the given ANSI content: the minimal
/// bounding grid of its parse.  Fails exactly when the content does not
/// parse.
pub fn calculate_terminal_size(canvas: &str) -> (r: Result<(u16, u16), String>)
    ensures
        r is Ok <==> ansi_ok(canvas@),
        r matches Ok(dims) ==> dims.0 == sat_u16(grid_columns(parsed_rows(canvas@))) && dims.1
            == sat_u16(parsed_rows(canvas@).len()),
        r matches Err(m) ==> m@ == "Failed to parse ANSI input"@,
{
    match parse_ansi(canvas) {
        Some(parsed) => Ok(grid_dimensions(&parsed.row_widths)),
        None => Err(owned_text("Failed to parse ANSI input")),
    }
}

/// Creates a new rendering instance: computes the terminal grid from the
/// initial canvas content, sets up the command queue with the initial
/// canvas and effect commands already enqueued, allocates a fresh
/// identifier (never reused, even after destruction) and registers the
/// instance as live.  Fails exactly when the initial canvas content does
/// not parse; a failure touches nothing.  The host must then create its
/// rendering backend of `terminal_size` cells and invoke
/// `app.frame_step` once per display frame.
pub fn create_renderer(registry: &mut Registry, dsl_code: &str, canvas_content: &str) -> (r:
    Result<SessionSetup, String>)
    requires
        old(registry).wf(),
        old(registry).can_allocate(),
    ensures
        final(registry).wf(),
        r is Ok <==> ansi_ok(canvas_content@),
        r matches Ok(setup) ==> {
            &&& setup.app.wf()
            &&& setup.app.model().effect_dsl is None
            &&& setup.renderer.id() == old(registry).allocation_counter()
            &&& final(registry).allocation_counter() == old(registry).allocation_counter() + 1
            &&& !old(registry).allocated_ids().contains(setup.renderer.id())
            &&& !old(registry).instances().contains_key(setup.renderer.id())
            &&& final(registry).instances() == old(registry).instances().insert(
                setup.renderer.id(),
                final(registry).instances()[setup.renderer.id()],
            )
            &&& final(registry).instances().contains_key(setup.renderer.id())
            &&& final(registry).instances()[setup.renderer.id()].running
            &&& setup.terminal_size.0 == sat_u16(grid_columns(parsed_rows(canvas_content@)))
            &&& setup.terminal_size.1 == sat_u16(parsed_rows(canvas_content@).len())
        },
        r is Err ==> *final(registry) == *old(registry),
{
    let terminal_size = match calculate_terminal_size(canvas_content) {
        Ok(size) => size,
        Err(message) => {
            return Err(message);
        },
    };
    let events = EventHandler::new(duration_from_millis(33));
    let sender = events.sender();
    events.dispatch(AppEvent::ReplaceCanvas(owned_text(canvas_content)));
    events.dispatch(AppEvent::CompileDsl(owned_text(dsl_code)));
    let app = App::new();
    let instance_id = registry.next_instance_id();
    registry.register_instance(instance_id, sender, true);
    Ok(SessionSetup { renderer: TachyonFxRenderer { instance_id }, events, app, terminal_size })
}

} // verus!
