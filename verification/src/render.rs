//! What a cell of the grid looks like on the screen.

use vstd::prelude::*;
use crate::grid::Grid;
use crate::term::{Term, rows_of};

verus! {

/// The character drawn for a cell that shows nothing.
pub const BLANK: char = ' ';

/// Whether `c` is a control code: one of U+0000 to U+001F or of U+007F to
/// U+009F, the code points of the general category `Cc`.
pub open spec fn is_control(c: char) -> bool {
    c as u32 <= 0x1f || 0x7f <= c as u32 <= 0x9f
}

/// Whether `c` is a control code.
pub fn is_control_code(c: char) -> (control: bool)
    ensures
        control == is_control(c),
{
    let code: u32 = c as u32;
    code <= 0x1f || (0x7f <= code && code <= 0x9f)
}

/// The character drawn for a cell: the cell's own character, or a blank for
/// an unset cell and for a control code.
pub open spec fn spec_glyph(cell: Option<char>) -> char {
    match cell {
        Some(c) => if is_control(c) {
            BLANK
        } else {
            c
        },
        None => BLANK,
    }
}

/// The character drawn for a cell.
pub fn glyph(cell: &Option<char>) -> (shown: char)
    ensures
        shown == spec_glyph(*cell),
{
    match cell {
        Some(c) => if is_control_code(*c) {
            BLANK
        } else {
            *c
        },
        None => BLANK,
    }
}

/// The picture of a grid: for each row, top row first, the characters drawn
/// for its cells, left to right.
pub open spec fn spec_frame(grid: Grid<char>) -> Seq<Seq<char>> {
    Seq::new(
        grid.rows.len(),
        |r: int| Seq::new(grid.rows[r].len(), |c: int| spec_glyph(grid.rows[r][c])),
    )
}

/// The characters drawn for one row of cells, left to right.
fn glyph_row(cells: &Vec<Option<char>>) -> (shown: Vec<char>)
    ensures
        shown@ == Seq::new(cells@.len(), |c: int| spec_glyph(cells@[c])),
{
    let mut shown: Vec<char> = Vec::new();
    let mut c: usize = 0;
    while c < cells.len()
        invariant
            c <= cells@.len(),
            shown@ == Seq::new(c as nat, |k: int| spec_glyph(cells@[k])),
        decreases cells@.len() - c,
    {
        shown.push(glyph(&cells[c]));
        c += 1;
    }
    shown
}

/// The picture of a grid: what is drawn for each of its cells.
pub fn frame(term: &Term<char>) -> (picture: Vec<Vec<char>>)
    ensures
        rows_of(picture@) == spec_frame(term@),
{
    let buffers = term.buffers();
    let mut picture: Vec<Vec<char>> = Vec::new();
    let mut r: usize = 0;
    while r < buffers.len()
        invariant
            r <= buffers@.len(),
            rows_of(buffers@) == term@.rows,
            picture@.len() == r,
            forall|k: int|
                0 <= k < r ==> (#[trigger] picture@[k])@ == Seq::new(
                    buffers@[k]@.len(),
                    |c: int| spec_glyph(buffers@[k]@[c]),
                ),
        decreases buffers@.len() - r,
    {
        picture.push(glyph_row(&buffers[r]));
        r += 1;
    }
    assert forall|k: int| 0 <= k < buffers@.len() implies rows_of(picture@)[k] == spec_frame(
        term@,
    )[k] by {
        assert(term@.rows[k] == buffers@[k]@);
    }
    picture
}

} // verus!
