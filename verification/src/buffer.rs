//! The render grid: a flat, row-major array of styled cells together with
//! an optional cursor position.
//!
//! Shape invariant: the cell array always holds exactly `width * height`
//! cells. The cursor may transiently point outside the current bounds; the
//! renderer treats an out-of-range cursor as "no cursor".

use vstd::prelude::*;

use crate::style::Style;

verus! {

/// One character-and-style unit of the render grid.
#[derive(Debug, Clone, Copy)]
pub struct Cell {
    pub c: char,
    pub style: Style,
}

impl Cell {
    /// The cell every cleared grid position holds: a space in the default
    /// style.
    pub open spec fn spec_default() -> Cell {
        Cell { c: ' ', style: Style::spec_default() }
    }

    /// A cell showing `c` in the default style.
    pub fn char(c: char) -> (r: Cell)
        ensures
            r == (Cell { c: c, style: Style::spec_default() }),
    {
        Cell { c, style: Style::default() }
    }
}

impl Default for Cell {
    fn default() -> (r: Cell)
        ensures
            r == Cell::spec_default(),
    {
        Cell { c: ' ', style: Style::default() }
    }
}

/// A 2-D buffer of styled characters plus an optional cursor position,
/// stored row-major in a flat array.
pub struct Buffer {
    pub data: Vec<Cell>,
    pub width: usize,
    pub height: usize,
    pub cursor: Option<(usize, usize)>,
}

impl Buffer {
    /// The shape invariant: the flat array holds exactly one cell per
    /// grid position.
    pub open spec fn wf(self) -> bool {
        self.data@.len() == self.width * self.height && self.width * self.height <= usize::MAX
    }

    pub open spec fn spec_width(self) -> usize {
        self.width
    }

    pub open spec fn spec_height(self) -> usize {
        self.height
    }

    pub open spec fn spec_cells(self) -> Seq<Cell> {
        self.data@
    }

    /// The cell at column `x`, row `y` (both in bounds).
    pub open spec fn spec_cell(self, x: int, y: int) -> Cell {
        self.data@[y * self.width + x]
    }

    pub open spec fn spec_cursor(self) -> Option<(usize, usize)> {
        self.cursor
    }

    /// Every cell is the default cell.
    pub open spec fn all_default(self) -> bool {
        forall|k: int| 0 <= k < self.data@.len() ==> self.data@[k] == Cell::spec_default()
    }

    /// A fresh buffer of the given dimensions, all cells default, no
    /// cursor.
    pub fn new(width: usize, height: usize) -> (r: Buffer)
        requires
            width * height <= usize::MAX,
        ensures
            r.wf(),
            r.spec_width() == width,
            r.spec_height() == height,
            r.all_default(),
            r.spec_cursor() is None,
    {
        let len = width * height;
        let mut data: Vec<Cell> = Vec::new();
        while data.len() < len
            invariant
                data@.len() <= len,
                forall|k: int| 0 <= k < data@.len() ==> data@[k] == Cell::spec_default(),
            decreases len - data@.len(),
        {
            data.push(Cell::default());
        }
        Buffer { data, width, height, cursor: None }
    }

    /// Resets the buffer to the given dimensions with every cell default
    /// and no cursor. The steady-state path (unchanged dimensions) reuses
    /// the existing allocation.
    pub fn resize_and_clear(&mut self, width: usize, height: usize)
        requires
            width * height <= usize::MAX,
        ensures
            final(self).wf(),
            final(self).spec_width() == width,
            final(self).spec_height() == height,
            final(self).all_default(),
            final(self).spec_cursor() is None,
    {
        let len = width * height;
        self.data.clear();
        while self.data.len() < len
            invariant
                self.data@.len() <= len,
                forall|k: int| 0 <= k < self.data@.len() ==> self.data@[k] == Cell::spec_default(),
            decreases len - self.data@.len(),
        {
            self.data.push(Cell::default());
        }
        self.width = width;
        self.height = height;
        self.cursor = None;
    }

    pub fn width(&self) -> (r: usize)
        ensures
            r == self.spec_width(),
    {
        self.width
    }

    pub fn height(&self) -> (r: usize)
        ensures
            r == self.spec_height(),
    {
        self.height
    }

    pub fn len(&self) -> (r: usize)
        ensures
            r == self.spec_cells().len(),
    {
        self.data.len()
    }

    pub fn is_empty(&self) -> (r: bool)
        ensures
            r == (self.spec_cells().len() == 0),
    {
        self.data.is_empty()
    }

    pub fn as_slice(&self) -> (r: &[Cell])
        ensures
            r@ == self.spec_cells(),
    {
        self.data.as_slice()
    }

    /// The cell at `(x, y)`, or `None` when either coordinate is out of
    /// bounds.
    pub fn get(&self, x: usize, y: usize) -> (r: Option<&Cell>)
        requires
            self.wf(),
        ensures
            match r {
                Some(c) => x < self.spec_width() && y < self.spec_height() && *c
                    == self.spec_cell(x as int, y as int),
                None => x >= self.spec_width() || y >= self.spec_height(),
            },
    {
        if x < self.width && y < self.height {
            proof {
                lemma_row_major_index_in_range(
                    x as int,
                    y as int,
                    self.width as int,
                    self.height as int,
                );
            }
            let idx = y * self.width + x;
            Some(&self.data[idx])
        } else {
            None
        }
    }

    /// A mutable borrow of the cell at `(x, y)`, or `None` when either
    /// coordinate is out of bounds (the buffer is then unchanged).
    pub fn get_mut(&mut self, x: usize, y: usize) -> (r: Option<&mut Cell>)
        requires
            old(self).wf(),
        ensures
            final(self).wf(),
            final(self).spec_width() == old(self).spec_width(),
            final(self).spec_height() == old(self).spec_height(),
            final(self).spec_cursor() == old(self).spec_cursor(),
            r is Some <==> x < old(self).spec_width() && y < old(self).spec_height(),
            match r {
                Some(c) => *c == old(self).spec_cell(x as int, y as int) && final(self).spec_cells()
                    == old(self).spec_cells().update(
                    y * old(self).spec_width() + x,
                    *final(c),
                ),
                None => *final(self) == *old(self),
            },
    {
        if x < self.width && y < self.height {
            proof {
                lemma_row_major_index_in_range(
                    x as int,
                    y as int,
                    self.width as int,
                    self.height as int,
                );
            }
            let idx = y * self.width + x;
            Some(&mut self.data[idx])
        } else {
            None
        }
    }

    /// Overwrites the cell at `(x, y)`, which must be in bounds.
    pub fn set(&mut self, x: usize, y: usize, cell: Cell)
        requires
            old(self).wf(),
            x < old(self).spec_width(),
            y < old(self).spec_height(),
        ensures
            final(self).wf(),
            final(self).spec_width() == old(self).spec_width(),
            final(self).spec_height() == old(self).spec_height(),
            final(self).spec_cursor() == old(self).spec_cursor(),
            final(self).spec_cells() == old(self).spec_cells().update(
                y * old(self).spec_width() + x,
                cell,
            ),
    {
        proof {
            lemma_row_major_index_in_range(
                x as int,
                y as int,
                self.width as int,
                self.height as int,
            );
        }
        let idx = y * self.width + x;
        self.data.set(idx, cell);
    }

    /// Overwrites only the character of the cell at `(x, y)`, which
    /// must be in bounds; the cell's style is kept.
    pub fn set_char(&mut self, x: usize, y: usize, c: char)
        requires
            old(self).wf(),
            x < old(self).spec_width(),
            y < old(self).spec_height(),
        ensures
            final(self).wf(),
            final(self).spec_width() == old(self).spec_width(),
            final(self).spec_height() == old(self).spec_height(),
            final(self).spec_cursor() == old(self).spec_cursor(),
            final(self).spec_cells() == old(self).spec_cells().update(
                y * old(self).spec_width() + x,
                Cell { c, style: old(self).spec_cell(x as int, y as int).style },
            ),
            final(self).spec_cell(x as int, y as int) == (Cell {
                c,
                style: old(self).spec_cell(x as int, y as int).style,
            }),
            forall|i: int, j: int|
                0 <= i < old(self).spec_width() && 0 <= j < old(self).spec_height() && !(i == x && j
                    == y) ==> #[trigger] final(self).spec_cell(i, j) == old(self).spec_cell(i, j),
    {
        proof {
            lemma_row_major_index_in_range(
                x as int,
                y as int,
                self.width as int,
                self.height as int,
            );
        }
        let idx = y * self.width + x;
        let style = self.data[idx].style;
        let ghost mid = *self;
        self.data.set(idx, Cell { c, style });
        proof {
            let wi = self.spec_width() as int;
            let hi = self.spec_height() as int;
            assert forall|i: int, j: int|
                0 <= i < wi && 0 <= j < hi && !(i == x && j == y) implies #[trigger] self.spec_cell(
                    i,
                    j,
                ) == mid.spec_cell(i, j) by {
                lemma_row_major_index_in_range(i, j, wi, hi);
                lemma_row_major_index_injective(wi, i, j, x as int, y as int);
            }
        }
    }

    /// Copies `buf`'s cells into `self` at offset `(x, y)`, clipping to
    /// whichever buffer is smaller in each axis. When `set_cursor` holds,
    /// `buf`'s cursor position, translated by the offset, replaces
    /// `self`'s (a translation past the integer range drops the cursor).
    pub fn blit(&mut self, x: usize, y: usize, buf: &Buffer, set_cursor: bool)
        requires
            old(self).wf(),
            buf.wf(),
        ensures
            final(self).wf(),
            final(self).spec_width() == old(self).spec_width(),
            final(self).spec_height() == old(self).spec_height(),
            forall|i: int, j: int|
                0 <= i < old(self).spec_width() && 0 <= j < old(self).spec_height()
                    ==> #[trigger] final(self).spec_cell(i, j) == (if x <= i < x + buf.spec_width()
                    && y <= j < y + buf.spec_height() {
                    buf.spec_cell(i - x, j - y)
                } else {
                    old(self).spec_cell(i, j)
                }),
            final(self).spec_cursor() == (if set_cursor {
                spec_translate_cursor(buf.spec_cursor(), x as int, y as int)
            } else {
                old(self).spec_cursor()
            }),
    {
        let copy_w = if x < self.width {
            let rem = self.width - x;
            if buf.width < rem {
                buf.width
            } else {
                rem
            }
        } else {
            0
        };
        let copy_h = if y < self.height {
            let rem = self.height - y;
            if buf.height < rem {
                buf.height
            } else {
                rem
            }
        } else {
            0
        };

        let ghost snap = *old(self);

        let mut sy: usize = 0;
        while sy < copy_h
            invariant
                self.wf(),
                copy_w <= buf.spec_width(),
                copy_h <= buf.spec_height(),
                copy_w > 0 ==> x + copy_w <= self.spec_width(),
                copy_h > 0 ==> y + copy_h <= self.spec_height(),
                sy <= copy_h,
                buf.wf(),
                self.spec_width() == snap.spec_width(),
                self.spec_height() == snap.spec_height(),
                self.spec_cursor() == snap.spec_cursor(),
                forall|i: int, j: int|
                    0 <= i < self.spec_width() && 0 <= j < self.spec_height()
                        ==> #[trigger] self.spec_cell(i, j) == (if x <= i < x + copy_w && y <= j < y
                        + sy {
                        buf.spec_cell(i - x, j - y)
                    } else {
                        snap.spec_cell(i, j)
                    }),
            decreases copy_h - sy,
        {
            let mut sx: usize = 0;
            while sx < copy_w
                invariant
                    self.wf(),
                    copy_w <= buf.spec_width(),
                    copy_h <= buf.spec_height(),
                    copy_w > 0 ==> x + copy_w <= self.spec_width(),
                    copy_h > 0 ==> y + copy_h <= self.spec_height(),
                    sy < copy_h,
                    sx <= copy_w,
                    buf.wf(),
                    self.spec_width() == snap.spec_width(),
                    self.spec_height() == snap.spec_height(),
                    self.spec_cursor() == snap.spec_cursor(),
                    forall|i: int, j: int|
                        0 <= i < self.spec_width() && 0 <= j < self.spec_height()
                            ==> #[trigger] self.spec_cell(i, j) == (if (x <= i < x + copy_w && y <= j
                            < y + sy) || (j == y + sy && x <= i < x + sx) {
                            buf.spec_cell(i - x, j - y)
                        } else {
                            snap.spec_cell(i, j)
                        }),
                decreases copy_w - sx,
            {
                proof {
                    lemma_row_major_index_in_range(
                        sx as int,
                        sy as int,
                        buf.spec_width() as int,
                        buf.spec_height() as int,
                    );
                }
                let idx = sy * buf.width + sx;
                let cell = buf.data[idx];
                let ghost mid = *self;
                self.set(x + sx, y + sy, cell);
                proof {
                    let w = self.spec_width() as int;
                    let h = self.spec_height() as int;
                    lemma_row_major_index_in_range(x + sx, y + sy, w, h);
                    assert forall|i: int, j: int|
                        0 <= i < w && 0 <= j < h implies #[trigger] self.spec_cell(i, j) == (if (x
                        <= i < x + copy_w && y <= j < y + sy) || (j == y + sy && x <= i < x + sx
                        + 1) {
                        buf.spec_cell(i - x, j - y)
                    } else {
                        snap.spec_cell(i, j)
                    }) by {
                        lemma_row_major_index_in_range(i, j, w, h);
                        assert(mid.spec_cell(i, j) == (if (x <= i < x + copy_w && y <= j < y + sy)
                            || (j == y + sy && x <= i < x + sx) {
                            buf.spec_cell(i - x, j - y)
                        } else {
                            snap.spec_cell(i, j)
                        }));
                        if !(i == x + sx && j == y + sy) {
                            lemma_row_major_index_injective(w, i, j, x + sx, y + sy);
                        }
                    }
                }
                sx = sx + 1;
            }
            sy = sy + 1;
        }

        let ghost done = *self;

        if set_cursor {
            self.cursor = match buf.cursor {
                Some((cx, cy)) => {
                    match (x.checked_add(cx), y.checked_add(cy)) {
                        (Some(tx), Some(ty)) => Some((tx, ty)),
                        _ => None,
                    }
                },
                None => None,
            };
        }

        proof {
            assert forall|i: int, j: int|
                0 <= i < self.spec_width() && 0 <= j < self.spec_height() implies
                #[trigger] self.spec_cell(i, j) == (if x <= i < x + buf.spec_width() && y <= j < y
                + buf.spec_height() {
                buf.spec_cell(i - x, j - y)
            } else {
                snap.spec_cell(i, j)
            }) by {
                assert(done.spec_cell(i, j) == (if x <= i < x + copy_w && y <= j < y + copy_h {
                    buf.spec_cell(i - x, j - y)
                } else {
                    snap.spec_cell(i, j)
                }));
                assert(self.spec_cell(i, j) == done.spec_cell(i, j));
            }
        }
    }

    /// Replaces the cursor position.
    pub fn set_cursor(&mut self, cursor: Option<(usize, usize)>)
        ensures
            final(self).spec_cursor() == cursor,
            final(self).spec_cells() == old(self).spec_cells(),
            final(self).spec_width() == old(self).spec_width(),
            final(self).spec_height() == old(self).spec_height(),
            old(self).wf() ==> final(self).wf(),
    {
        self.cursor = cursor;
    }

    pub fn cursor(&self) -> (r: Option<(usize, usize)>)
        ensures
            r == self.spec_cursor(),
    {
        self.cursor
    }
}

/// Cursor translation used by `blit`: offsets a cursor by `(x, y)` and
/// drops it when the sum leaves the integer range.
pub open spec fn spec_translate_cursor(c: Option<(usize, usize)>, x: int, y: int) -> Option<
    (usize, usize),
> {
    match c {
        Some((cx, cy)) => if x + cx <= usize::MAX && y + cy <= usize::MAX {
            Some(((x + cx) as usize, (y + cy) as usize))
        } else {
            None
        },
        None => None,
    }
}

/// In a `w` by `h` row-major array, the flat index of an in-bounds
/// coordinate pair is in range.
pub proof fn lemma_row_major_index_in_range(x: int, y: int, w: int, h: int) by (nonlinear_arith)
    requires
        0 <= x < w,
        0 <= y < h,
    ensures
        0 <= y * w + x < w * h,
{
}

/// A grid no taller than one that fits in memory also fits.
pub proof fn lemma_row_major_fits(w: int, h1: int, h2: int) by (nonlinear_arith)
    requires
        0 <= w,
        0 <= h1 <= h2,
        w * h2 <= usize::MAX,
    ensures
        w * h1 <= usize::MAX,
{
}

/// A flat row-major index inside row `y`'s band belongs to row `y`.
pub proof fn lemma_row_major_band(w: int, i: int, j: int, y: int) by (nonlinear_arith)
    requires
        0 <= i < w,
        0 <= j,
        0 <= y,
        y * w <= j * w + i < y * w + w,
    ensures
        j == y,
{
}

/// Distinct in-bounds coordinate pairs have distinct row-major flat
/// indices.
pub proof fn lemma_row_major_index_injective(
    w: int,
    i: int,
    j: int,
    i2: int,
    j2: int,
) by (nonlinear_arith)
    requires
        0 <= i < w,
        0 <= i2 < w,
        0 <= j,
        0 <= j2,
        i != i2 || j != j2,
    ensures
        j * w + i != j2 * w + i2,
{
}

} // verus!
