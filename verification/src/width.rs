//! Display-width arithmetic for the minimal bounding grid of a parsed
//! canvas: every grapheme cluster occupies one display column, except wide
//! glyphs, which occupy two.  A grid's width is the widest line's display
//! width; its height is the number of lines.  Both saturate at the largest
//! cell coordinate a terminal grid can address.

use vstd::prelude::*;

verus! {

/// Display columns taken by one grapheme cluster, from the raw width the
/// font measurement reports: wide glyphs (raw width two or more) take two
/// columns, everything else takes one.
pub open spec fn cluster_columns(raw: u8) -> nat {
    if raw >= 2 {
        2
    } else {
        1
    }
}

/// Display width of one line: the sum of its clusters' columns.
pub open spec fn line_columns(row: Seq<u8>) -> nat
    decreases row.len(),
{
    if row.len() == 0 {
        0
    } else {
        line_columns(row.drop_last()) + cluster_columns(row.last())
    }
}

/// Width of the minimal bounding grid: the widest line's display width.
pub open spec fn grid_columns(rows: Seq<Seq<u8>>) -> nat
    decreases rows.len(),
{
    if rows.len() == 0 {
        0
    } else {
        let rest = grid_columns(rows.drop_last());
        let last = line_columns(rows.last());
        if last > rest {
            last
        } else {
            rest
        }
    }
}

/// Saturation to the range of a 16-bit cell coordinate.
pub open spec fn sat_u16(n: nat) -> u16 {
    if n > 0xFFFF {
        0xFFFF
    } else {
        n as u16
    }
}

/// The view of a grid of raw cluster widths.
pub open spec fn rows_view(rows: Seq<Vec<u8>>) -> Seq<Seq<u8>> {
    rows.map_values(|v: Vec<u8>| v@)
}

/// Display width of one line, from the raw widths of its grapheme
/// clusters, saturating at the largest cell coordinate.
pub fn line_display_width(row: &Vec<u8>) -> (w: u16)
    ensures
        w == sat_u16(line_columns(row@)),
{
    let mut acc: u16 = 0;
    let mut i: usize = 0;
    while i < row.len()
        invariant
            i <= row.len(),
            acc == sat_u16(line_columns(row@.take(i as int))),
        decreases row.len() - i,
    {
        proof {
            assert(row@.take(i + 1).drop_last() =~= row@.take(i as int));
            assert(row@.take(i + 1).last() == row@[i as int]);
        }
        let step: u16 = if row[i] >= 2 {
            2
        } else {
            1
        };
        if acc >= 0xFFFF - step + 1 {
            acc = 0xFFFF;
        } else {
            acc = acc + step;
        }
        i = i + 1;
    }
    proof {
        assert(row@.take(row@.len() as int) =~= row@);
    }
    acc
}

/// Dimensions `(width, height)` of the minimal bounding grid of the given
/// lines of raw cluster widths, each coordinate saturating at the largest
/// cell coordinate.
pub fn grid_dimensions(rows: &Vec<Vec<u8>>) -> (dims: (u16, u16))
    ensures
        dims.0 == sat_u16(grid_columns(rows_view(rows@))),
        dims.1 == sat_u16(rows@.len()),
{
    let mut w: u16 = 0;
    let mut i: usize = 0;
    while i < rows.len()
        invariant
            i <= rows.len(),
            w == sat_u16(grid_columns(rows_view(rows@.take(i as int)))),
        decreases rows.len() - i,
    {
        proof {
            assert(rows_view(rows@.take(i + 1)).drop_last() =~= rows_view(rows@.take(i as int)));
            assert(rows_view(rows@.take(i + 1)).last() == rows@[i as int]@);
        }
        let lw = line_display_width(&rows[i]);
        if lw > w {
            w = lw;
        }
        i = i + 1;
    }
    proof {
        assert(rows@.take(rows@.len() as int) =~= rows@);
    }
    let h: u16 = if rows.len() > 0xFFFF {
        0xFFFF
    } else {
        rows.len() as u16
    };
    (w, h)
}

} // verus!
