//! The mathematical model of the terminal grid.
//!
//! A [`Grid`] is a ghost value: the fixed dimensions, the cursor and the rows
//! of optional cells. The transitions on it say what each operation of the
//! executable grid does.

use vstd::prelude::*;

verus! {

/// The abstract state of a terminal grid.
#[verifier::ext_equal]
pub struct Grid<T> {
    pub width: nat,
    pub height: nat,
    pub x: nat,
    pub y: nat,
    pub rows: Seq<Seq<Option<T>>>,
}

/// A row of `width` unset cells.
pub open spec fn blank_row<T>(width: nat) -> Seq<Option<T>> {
    Seq::new(width, |i: int| None::<T>)
}

impl<T> Grid<T> {
    /// The grid holds exactly `height` rows of exactly `width` cells.
    pub open spec fn shaped(self) -> bool {
        &&& self.rows.len() == self.height
        &&& forall|r: int| 0 <= r < self.height ==> (#[trigger] self.rows[r]).len() == self.width
    }

    /// The cursor lies inside the grid.
    pub open spec fn cursor_inside(self) -> bool {
        self.x < self.width && self.y < self.height
    }

    /// The grid has its shape and the cursor lies inside it.
    pub open spec fn wf(self) -> bool {
        self.shaped() && self.cursor_inside()
    }

    /// A grid of the given size with every cell unset and the cursor at the
    /// top left.
    pub open spec fn blank(width: nat, height: nat) -> Grid<T> {
        Grid { width, height, x: 0, y: 0, rows: Seq::new(height, |r: int| blank_row::<T>(width)) }
    }

    /// The cursor returns to column 0 of its row.
    pub open spec fn carriage_return(self) -> Grid<T> {
        Grid { x: 0, ..self }
    }

    /// The rows move up by `n`: the top `n` rows leave, and `n` blank rows
    /// enter at the bottom. The cursor stays where it is.
    pub open spec fn scroll(self, n: nat) -> Grid<T> {
        Grid {
            rows: Seq::new(
                self.rows.len(),
                |r: int|
                    if r + n < self.rows.len() {
                        self.rows[r + n]
                    } else {
                        blank_row::<T>(self.width)
                    },
            ),
            ..self
        }
    }

    /// The row of the last line of the grid.
    pub open spec fn last_row(self) -> nat {
        if self.height > 0 {
            (self.height - 1) as nat
        } else {
            0
        }
    }

    /// The cursor moves down one row; on the last row the grid scrolls by one
    /// row instead and the cursor stays on the last row.
    pub open spec fn line_feed(self) -> Grid<T> {
        if self.y + 1 < self.height {
            Grid { y: self.y + 1, ..self }
        } else {
            Grid { y: self.last_row(), ..self.scroll(1) }
        }
    }

    /// The cell under the cursor becomes `cell` and the cursor moves one
    /// column to the right; past the last column it wraps to column 0 and a
    /// line feed follows.
    pub open spec fn push(self, cell: Option<T>) -> Grid<T> {
        let written = Grid {
            rows: self.rows.update(self.y as int, self.rows[self.y as int].update(self.x as int, cell)),
            ..self
        };
        if self.x + 1 < self.width {
            Grid { x: self.x + 1, ..written }
        } else {
            Grid { x: 0, ..written }.line_feed()
        }
    }

    /// `n` line feeds in a row.
    pub open spec fn line_feeds(self, n: nat) -> Grid<T>
        decreases n,
    {
        if n == 0 {
            self
        } else {
            self.line_feeds((n - 1) as nat).line_feed()
        }
    }

    /// The cells of `cells` pushed one after the other, first cell first.
    pub open spec fn push_all(self, cells: Seq<Option<T>>) -> Grid<T>
        decreases cells.len(),
    {
        if cells.len() == 0 {
            self
        } else {
            self.push_all(cells.drop_last()).push(cells.last())
        }
    }

    /// The grid after one operation.
    pub open spec fn apply(self, op: Op<T>) -> Grid<T> {
        match op {
            Op::CarriageReturn => self.carriage_return(),
            Op::LineFeed => self.line_feed(),
            Op::Push(cell) => self.push(cell),
            Op::Scroll(n) => self.scroll(n),
        }
    }

    /// The grid after the operations of `ops`, first operation first.
    pub open spec fn run(self, ops: Seq<Op<T>>) -> Grid<T>
        decreases ops.len(),
    {
        if ops.len() == 0 {
            self
        } else {
            self.run(ops.drop_last()).apply(ops.last())
        }
    }
}

/// One operation on a grid.
pub enum Op<T> {
    CarriageReturn,
    LineFeed,
    Push(Option<T>),
    Scroll(nat),
}

/// A blank grid with at least one row and one column is well formed.
pub proof fn lemma_blank_is_well_formed<T>(width: nat, height: nat)
    requires
        width > 0,
        height > 0,
    ensures
        Grid::<T>::blank(width, height).wf(),
{
}

/// No operation changes the size of a grid, and each one takes a well-formed
/// grid to a well-formed grid.
pub proof fn lemma_apply_keeps_shape<T>(g: Grid<T>, op: Op<T>)
    requires
        g.wf(),
    ensures
        g.apply(op).wf(),
        g.apply(op).width == g.width,
        g.apply(op).height == g.height,
{
}

/// Whatever operations run on a well-formed grid, after each of them the grid
/// still has its `height` rows of `width` cells and the cursor is inside it.
pub proof fn lemma_run_keeps_shape<T>(g: Grid<T>, ops: Seq<Op<T>>)
    requires
        g.wf(),
    ensures
        forall|k: int|
            0 <= k <= ops.len() ==> {
                let after = #[trigger] g.run(ops.take(k));
                &&& after.width == g.width
                &&& after.height == g.height
                &&& after.rows.len() == g.height
                &&& forall|r: int| 0 <= r < g.height ==> (#[trigger] after.rows[r]).len() == g.width
                &&& after.x < g.width
                &&& after.y < g.height
            },
    decreases ops.len(),
{
    assert forall|k: int| 0 <= k <= ops.len() implies {
        let after = #[trigger] g.run(ops.take(k));
        &&& after.wf()
        &&& after.width == g.width
        &&& after.height == g.height
    } by {
        if 0 < k < ops.len() {
            lemma_run_keeps_shape(g, ops.drop_last());
            assert(ops.drop_last().take(k) == ops.take(k));
        } else if k > 0 {
            lemma_run_keeps_shape(g, ops.drop_last());
            assert(ops.take(k) == ops);
            assert(ops.drop_last().take(k - 1) == ops.drop_last());
            lemma_apply_keeps_shape(g.run(ops.drop_last()), ops.last());
        }
    }
}

/// Scrolling by no rows changes nothing, and scrolling by `n + 1` rows is
/// scrolling by `n` rows and then by one more.
pub proof fn lemma_scroll_steps<T>(g: Grid<T>, n: nat)
    ensures
        g.scroll(0) == g,
        g.scroll(n + 1) == g.scroll(n).scroll(1),
{
}

/// Pushing the first `k` cells of a row, starting at column 0 and stopping
/// short of the last column, rewrites the start of the cursor's row and moves
/// the cursor `k` columns to the right.
proof fn lemma_push_prefix<T>(g: Grid<T>, cells: Seq<Option<T>>, k: nat)
    requires
        g.wf(),
        g.x == 0,
        cells.len() == g.width,
        k < g.width,
    ensures
        g.push_all(cells.take(k as int)) == (Grid {
            x: k,
            rows: g.rows.update(
                g.y as int,
                cells.take(k as int) + g.rows[g.y as int].skip(k as int),
            ),
            ..g
        }),
    decreases k,
{
    let row = g.rows[g.y as int];
    if k == 0 {
        assert(cells.take(0) + row.skip(0) == row);
    } else {
        lemma_push_prefix(g, cells, (k - 1) as nat);
        assert(cells.take(k as int).drop_last() == cells.take(k - 1));
        assert((cells.take(k - 1) + row.skip(k - 1)).update(k - 1, cells[k - 1])
            == cells.take(k as int) + row.skip(k as int));
    }
}

/// Pushing a full row of cells from column 0 writes exactly those cells into
/// the cursor's row, so that no cell of the row keeps what it held, and then
/// feeds one line: the cursor ends in column 0 of the next row, or, from the
/// last row, the grid scrolls by one row and the cursor stays on the last
/// row.
pub proof fn lemma_wrap<T>(g: Grid<T>, cells: Seq<Option<T>>)
    requires
        g.wf(),
        g.x == 0,
        cells.len() == g.width,
    ensures
        g.push_all(cells) == (Grid { rows: g.rows.update(g.y as int, cells), ..g }).line_feed(),
        g.push_all(cells).x == 0,
        g.y + 1 < g.height ==> {
            &&& g.push_all(cells).y == g.y + 1
            &&& g.push_all(cells).rows == g.rows.update(g.y as int, cells)
        },
        g.y + 1 == g.height ==> {
            &&& g.push_all(cells).y == g.y
            &&& g.push_all(cells).rows == g.rows.update(g.y as int, cells).skip(1).push(
                blank_row::<T>(g.width),
            )
        },
{
    let k = (g.width - 1) as nat;
    let row = g.rows[g.y as int];
    lemma_push_prefix(g, cells, k);
    assert(cells.drop_last() == cells.take(k as int));
    assert((cells.take(k as int) + row.skip(k as int)).update(k as int, cells.last()) == cells);
}

/// From the top row, fewer line feeds than the grid has rows only move the
/// cursor down.
proof fn lemma_line_feeds_descend<T>(g: Grid<T>, k: nat)
    requires
        g.wf(),
        g.y == 0,
        k < g.height,
    ensures
        g.line_feeds(k) == (Grid { y: k, ..g }),
    decreases k,
{
    if k > 0 {
        lemma_line_feeds_descend(g, (k - 1) as nat);
    }
}

/// From the top row, as many line feeds as the grid has rows scroll the grid
/// exactly once: the top row leaves, the other rows move up by one, a blank
/// row enters at the bottom, and the cursor ends on the last row, in the
/// column where it was.
pub proof fn lemma_line_feeds_scroll_once<T>(g: Grid<T>)
    requires
        g.wf(),
        g.y == 0,
    ensures
        g.line_feeds(g.height).wf(),
        g.line_feeds(g.height).rows == g.rows.skip(1).push(blank_row::<T>(g.width)),
        g.line_feeds(g.height).rows.len() == g.height,
        g.line_feeds(g.height).y == g.height - 1,
        g.line_feeds(g.height).x == g.x,
{
    lemma_line_feeds_descend(g, (g.height - 1) as nat);
}

/// On a grid at least two columns wide, a carriage return followed by a push
/// overwrites column 0 of the cursor's row and leaves the cursor in column 1
/// of the same row.
pub proof fn lemma_return_then_push<T>(g: Grid<T>, cell: Option<T>)
    requires
        g.wf(),
        g.width >= 2,
    ensures
        g.carriage_return().push(cell) == (Grid {
            x: 1,
            rows: g.rows.update(g.y as int, g.rows[g.y as int].update(0, cell)),
            ..g
        }),
{
}

} // verus!
