//! Session commands.  Commands are immutable once enqueued and are applied
//! in enqueue order, one queue per instance.

use vstd::prelude::*;

verus! {

/// One command for a rendering session.
pub enum AppEvent {
    /// Compile the given effect description and register the result,
    /// replacing the effect at the fixed layer tag.
    CompileDsl(String),
    /// Parse the given ANSI text and replace the canvas wholesale with its
    /// minimal bounding grid.
    ReplaceCanvas(String),
    /// Re-compile and re-register the most recently successfully compiled
    /// effect description; a no-op when none exists.
    ReplayCurrentEffect,
    /// Replace the canvas with an empty grid of the given dimensions.
    Resize(u16, u16),
    /// A pure frame marker; carries no state change.
    Tick,
}

/// An owned copy of a borrowed text, as command payloads are owned.
pub fn owned_text(s: &str) -> (t: String)
    ensures
        t@ == s@,
{
    <String as vstd::string::StringExecFns>::from_str(s)
}

} // verus!
