//! The executable terminal grid.
//!
//! [`Term`] keeps the rows in a vector of vectors. Its view is the abstract
//! [`Grid`], and every operation is specified as the transition of the same
//! name on that view.

use vstd::prelude::*;
use crate::error::Error;
use crate::grid::{Grid, blank_row};

verus! {

/// The number of columns of a grid made by [`Term::new`].
pub const DEFAULT_WIDTH: u32 = 80;

/// The number of rows of a grid made by [`Term::new`].
pub const DEFAULT_HEIGHT: u32 = 25;

/// Anything with a fixed size in character cells.
pub trait Dimention {
    /// The number of columns.
    fn width(&self) -> u32;

    /// The number of rows.
    fn height(&self) -> u32;
}

/// The views of the rows of a buffer, top row first.
pub open spec fn rows_of<C>(buffers: Seq<Vec<C>>) -> Seq<Seq<C>> {
    Seq::new(buffers.len(), |r: int| buffers[r]@)
}

/// A fixed-size grid of optional cells with a cursor.
#[derive(Debug, Clone)]
pub struct Term<T> {
    width: u32,
    height: u32,
    x: u32,
    y: u32,
    buffers: Vec<Vec<Option<T>>>,
}

impl<T> View for Term<T> {
    type V = Grid<T>;

    closed spec fn view(&self) -> Grid<T> {
        Grid {
            width: self.width as nat,
            height: self.height as nat,
            x: self.x as nat,
            y: self.y as nat,
            rows: rows_of(self.buffers@),
        }
    }
}

/// A row of `width` unset cells.
fn blank_line<T>(width: u32) -> (row: Vec<Option<T>>)
    ensures
        row@ == blank_row::<T>(width as nat),
{
    let mut row: Vec<Option<T>> = Vec::new();
    let mut i: u32 = 0;
    while i < width
        invariant
            i <= width,
            row@ == blank_row::<T>(i as nat),
        decreases width - i,
    {
        row.push(None);
        i += 1;
    }
    row
}

impl<T> Term<T> {
    /// The invariant of every grid that this module hands out: the buffer has
    /// the grid's shape and the cursor lies inside it.
    pub open spec fn wf(&self) -> bool {
        self@.wf()
    }

    /// A blank grid of the default size, cursor at the top left.
    pub fn new() -> (term: Term<T>)
        ensures
            term.wf(),
            term@ == Grid::<T>::blank(DEFAULT_WIDTH as nat, DEFAULT_HEIGHT as nat),
    {
        Self::default()
    }

    /// A blank grid of the given size, cursor at the top left.
    pub fn with_size(width: u32, height: u32) -> (term: Term<T>)
        requires
            width > 0,
            height > 0,
        ensures
            term.wf(),
            term@ == Grid::<T>::blank(width as nat, height as nat),
    {
        let mut buffers: Vec<Vec<Option<T>>> = Vec::new();
        let mut r: u32 = 0;
        while r < height
            invariant
                r <= height,
                buffers@.len() == r,
                forall|i: int| 0 <= i < r ==> (#[trigger] buffers@[i])@ == blank_row::<T>(width as nat),
            decreases height - r,
        {
            buffers.push(blank_line(width));
            r += 1;
        }
        Term { width, height, x: 0, y: 0, buffers }
    }

    /// The column of the cursor.
    pub fn x(&self) -> (x: u32)
        ensures
            x == self@.x,
    {
        self.x
    }

    /// The row of the cursor.
    pub fn y(&self) -> (y: u32)
        ensures
            y == self@.y,
    {
        self.y
    }

    /// The rows of the grid, top row first.
    pub fn buffers(&self) -> (buffers: &Vec<Vec<Option<T>>>)
        ensures
            rows_of(buffers@) == self@.rows,
    {
        &self.buffers
    }

    /// Moves the cursor to column 0 of its row.
    pub fn carriage_return(&mut self)
        ensures
            final(self)@ == old(self)@.carriage_return(),
            old(self).wf() ==> final(self).wf(),
    {
        self.x = 0;
    }

    /// Moves the cursor down one row. On the last row the grid scrolls by one
    /// row instead: the top row leaves, a blank row enters at the bottom, and
    /// the cursor stays on the last row.
    pub fn line_feed(&mut self)
        requires
            old(self).wf(),
        ensures
            final(self).wf(),
            final(self)@ == old(self)@.line_feed(),
    {
        if self.y + 1 < self.height {
            self.y += 1;
        } else {
            let _ = self.rotate_buffer(1);
            self.y = self.height - 1;
        }
    }

    /// Writes `cell` under the cursor and moves the cursor one column to the
    /// right; past the last column the cursor wraps to column 0 and a line
    /// feed follows.
    ///
    /// Fails with [`Error::CantPushElement`], and changes nothing, exactly
    /// when the cursor is outside the grid. On a well-formed grid the cursor
    /// is inside, so there the call succeeds.
    pub fn push_element(&mut self, cell: Option<T>) -> (done: Result<(), Error>)
        requires
            old(self)@.shaped(),
        ensures
            (done is Err) <==> !old(self)@.cursor_inside(),
            done is Err ==> {
                &&& done == Err::<(), Error>(Error::CantPushElement)
                &&& final(self)@ == old(self)@
            },
            done is Ok ==> {
                &&& final(self).wf()
                &&& final(self)@ == old(self)@.push(cell)
            },
    {
        let y: usize = self.y as usize;
        let x: usize = self.x as usize;
        if y < self.buffers.len() && x < self.buffers[y].len() {
            self.buffers[y][x] = cell;
            assert(self@.rows == old(self)@.rows.update(
                y as int,
                old(self)@.rows[y as int].update(x as int, cell),
            ));
            self.x += 1;
            if self.x >= self.width {
                self.x = 0;
                self.line_feed();
            }
            Ok(())
        } else {
            Err(Error::CantPushElement)
        }
    }

    /// Scrolls the grid up by `n` rows: `n` times the top row leaves and a
    /// blank row enters at the bottom. The cursor does not move.
    pub fn rotate_buffer(&mut self, n: usize) -> (done: Result<(), Error>)
        requires
            old(self).wf(),
        ensures
            done is Ok,
            final(self).wf(),
            final(self)@ == old(self)@.scroll(n as nat),
    {
        let mut i: usize = 0;
        while i < n
            invariant
                i <= n,
                self.wf(),
                self@ == old(self)@.scroll(i as nat),
            decreases n - i,
        {
            let ghost before = self@;
            self.buffers.remove(0);
            self.buffers.push(blank_line(self.width));
            assert(self@.rows == before.scroll(1).rows);
            i += 1;
        }
        Ok(())
    }
}

impl<T> Default for Term<T> {
    /// A blank grid of the default size, cursor at the top left.
    fn default() -> (term: Term<T>)
        ensures
            term.wf(),
            term@ == Grid::<T>::blank(DEFAULT_WIDTH as nat, DEFAULT_HEIGHT as nat),
    {
        Term::with_size(DEFAULT_WIDTH, DEFAULT_HEIGHT)
    }
}

impl<T> Dimention for Term<T> {
    fn width(&self) -> (width: u32)
        ensures
            width == self@.width,
    {
        self.width
    }

    fn height(&self) -> (height: u32)
        ensures
            height == self@.height,
    {
        self.height
    }
}

} // verus!
