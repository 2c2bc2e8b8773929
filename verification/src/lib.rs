//! A multi-instance rendering-session manager for an ANSI-art playground:
//! sessions hold a static canvas buffer and a time-driven effect layer,
//! receive ordered commands from the host, and compose both onto a frame
//! once per display refresh.  Parsing ANSI text, compiling effect
//! descriptions and painting effects are done by outside libraries; the
//! session, registry and lifecycle logic here is verified.

use vstd::prelude::*;

pub mod ansi;
pub mod app;
pub mod clock;
pub mod color;
pub mod event;
pub mod event_handler;
pub mod fx;
pub mod registry;
pub mod renderer;
pub mod width;

verus! {

/// Pixel size of the drawing surface for a terminal of `term` cells when a
/// single font cell is `cell` pixels: each cell contributes its size less a
/// two-pixel margin.
pub fn calculate_canvas_size(term: (u16, u16), cell: (u16, u16)) -> (px: (u32, u32))
    requires
        cell.0 >= 2,
        cell.1 >= 2,
    ensures
        px.0 == term.0 * (cell.0 - 2),
        px.1 == term.1 * (cell.1 - 2),
{
    proof {
        assert((term.0 as int) * ((cell.0 as int) - 2) < 0x1_0000_0000 && (term.1 as int) * ((
        cell.1 as int) - 2) < 0x1_0000_0000) by (nonlinear_arith)
            requires
                term.0 <= 0xFFFF,
                term.1 <= 0xFFFF,
                cell.0 <= 0xFFFF,
                cell.1 <= 0xFFFF,
                cell.0 >= 2,
                cell.1 >= 2,
        ;
    }
    ((term.0 as u32) * (cell.0 as u32 - 2), (term.1 as u32) * (cell.1 as u32 - 2))
}

} // verus!
