//! A generic 2-D array stored row-major in a flat allocation, with the
//! same shape invariant and sub-region composition as the render buffer.

use vstd::prelude::*;

use crate::buffer::lemma_row_major_index_in_range;
use crate::buffer::lemma_row_major_index_injective;

verus! {

/// A `width` by `height` grid of `T`, row-major.
pub struct Grid<T> {
    pub data: Vec<T>,
    pub width: usize,
    pub height: usize,
}

impl<T> Grid<T> {
    /// The shape invariant: the flat array holds exactly one element per
    /// grid position.
    pub open spec fn wf(self) -> bool {
        self.data@.len() == self.width * self.height && self.width * self.height <= usize::MAX
    }

    pub open spec fn spec_width(self) -> usize {
        self.width
    }

    pub open spec fn spec_height(self) -> usize {
        self.height
    }

    pub open spec fn spec_cells(self) -> Seq<T> {
        self.data@
    }

    /// The element at column `x`, row `y` (both in bounds).
    pub open spec fn spec_cell(self, x: int, y: int) -> T {
        self.data@[y * self.width + x]
    }

    /// A grid of the given dimensions with every position holding `elem`.
    pub fn filled(width: usize, height: usize, elem: T) -> (r: Grid<T>) where T: Copy
        requires
            width * height <= usize::MAX,
        ensures
            r.wf(),
            r.spec_width() == width,
            r.spec_height() == height,
            forall|k: int| 0 <= k < r.spec_cells().len() ==> r.spec_cells()[k] == elem,
    {
        let len = width * height;
        let mut data: Vec<T> = Vec::new();
        while data.len() < len
            invariant
                data@.len() <= len,
                forall|k: int| 0 <= k < data@.len() ==> data@[k] == elem,
            decreases len - data@.len(),
        {
            data.push(elem);
        }
        Grid { data, width, height }
    }

    /// A grid of the given dimensions filled row-major from the front of
    /// `items`, which must supply at least `width * height` elements;
    /// extra elements are discarded.
    pub fn from_iter(width: usize, height: usize, items: Vec<T>) -> (r: Grid<T>)
        requires
            width * height <= usize::MAX,
            items@.len() >= width * height,
        ensures
            r.wf(),
            r.spec_width() == width,
            r.spec_height() == height,
            r.spec_cells() == items@.take((width * height) as int),
    {
        let len = width * height;
        let mut data = items;
        data.truncate(len);
        Grid { data, width, height }
    }

    pub fn width(&self) -> (r: usize)
        ensures
            r == self.spec_width(),
    {
        self.width
    }

    pub fn height(&self) -> (r: usize)
        ensures
            r == self.spec_height(),
    {
        self.height
    }

    pub fn len(&self) -> (r: usize)
        ensures
            r == self.spec_cells().len(),
    {
        self.data.len()
    }

    pub fn as_slice(&self) -> (r: &[T])
        ensures
            r@ == self.spec_cells(),
    {
        self.data.as_slice()
    }

    /// The element at `(x, y)`, or `None` when either coordinate is out
    /// of bounds.
    pub fn get(&self, x: usize, y: usize) -> (r: Option<&T>)
        requires
            self.wf(),
        ensures
            match r {
                Some(c) => x < self.spec_width() && y < self.spec_height() && *c
                    == self.spec_cell(x as int, y as int),
                None => x >= self.spec_width() || y >= self.spec_height(),
            },
    {
        if x < self.width && y < self.height {
            proof {
                lemma_row_major_index_in_range(
                    x as int,
                    y as int,
                    self.width as int,
                    self.height as int,
                );
            }
            let idx = y * self.width + x;
            Some(&self.data[idx])
        } else {
            None
        }
    }

    /// A mutable borrow of the element at `(x, y)`, or `None` when either
    /// coordinate is out of bounds (the grid is then unchanged).
    pub fn get_mut(&mut self, x: usize, y: usize) -> (r: Option<&mut T>)
        requires
            old(self).wf(),
        ensures
            final(self).wf(),
            final(self).spec_width() == old(self).spec_width(),
            final(self).spec_height() == old(self).spec_height(),
            r is Some <==> x < old(self).spec_width() && y < old(self).spec_height(),
            match r {
                Some(c) => *c == old(self).spec_cell(x as int, y as int) && final(self).spec_cells()
                    == old(self).spec_cells().update(
                    y * old(self).spec_width() + x,
                    *final(c),
                ),
                None => *final(self) == *old(self),
            },
    {
        if x < self.width && y < self.height {
            proof {
                lemma_row_major_index_in_range(
                    x as int,
                    y as int,
                    self.width as int,
                    self.height as int,
                );
            }
            let idx = y * self.width + x;
            Some(&mut self.data[idx])
        } else {
            None
        }
    }

    /// Overwrites the element at `(x, y)`, which must be in bounds.
    pub fn set(&mut self, x: usize, y: usize, elem: T)
        requires
            old(self).wf(),
            x < old(self).spec_width(),
            y < old(self).spec_height(),
        ensures
            final(self).wf(),
            final(self).spec_width() == old(self).spec_width(),
            final(self).spec_height() == old(self).spec_height(),
            final(self).spec_cells() == old(self).spec_cells().update(
                y * old(self).spec_width() + x,
                elem,
            ),
    {
        proof {
            lemma_row_major_index_in_range(
                x as int,
                y as int,
                self.width as int,
                self.height as int,
            );
        }
        let idx = y * self.width + x;
        self.data.set(idx, elem);
    }

    /// Copies `grid`'s elements into `self` at offset `(x, y)`, clipping
    /// to whichever grid is smaller in each axis.
    pub fn blit(&mut self, x: usize, y: usize, grid: &Grid<T>) where T: Copy
        requires
            old(self).wf(),
            grid.wf(),
        ensures
            final(self).wf(),
            final(self).spec_width() == old(self).spec_width(),
            final(self).spec_height() == old(self).spec_height(),
            forall|i: int, j: int|
                0 <= i < old(self).spec_width() && 0 <= j < old(self).spec_height()
                    ==> #[trigger] final(self).spec_cell(i, j) == (if x <= i < x + grid.spec_width()
                    && y <= j < y + grid.spec_height() {
                    grid.spec_cell(i - x, j - y)
                } else {
                    old(self).spec_cell(i, j)
                }),
    {
        let copy_w = if x < self.width {
            let rem = self.width - x;
            if grid.width < rem {
                grid.width
            } else {
                rem
            }
        } else {
            0
        };
        let copy_h = if y < self.height {
            let rem = self.height - y;
            if grid.height < rem {
                grid.height
            } else {
                rem
            }
        } else {
            0
        };

        let ghost snap = *old(self);

        let mut sy: usize = 0;
        while sy < copy_h
            invariant
                self.wf(),
                copy_w <= grid.spec_width(),
                copy_h <= grid.spec_height(),
                copy_w > 0 ==> x + copy_w <= self.spec_width(),
                copy_h > 0 ==> y + copy_h <= self.spec_height(),
                sy <= copy_h,
                grid.wf(),
                self.spec_width() == snap.spec_width(),
                self.spec_height() == snap.spec_height(),
                forall|i: int, j: int|
                    0 <= i < self.spec_width() && 0 <= j < self.spec_height()
                        ==> #[trigger] self.spec_cell(i, j) == (if x <= i < x + copy_w && y <= j < y
                        + sy {
                        grid.spec_cell(i - x, j - y)
                    } else {
                        snap.spec_cell(i, j)
                    }),
            decreases copy_h - sy,
        {
            let mut sx: usize = 0;
            while sx < copy_w
                invariant
                    self.wf(),
                    copy_w <= grid.spec_width(),
                    copy_h <= grid.spec_height(),
                    copy_w > 0 ==> x + copy_w <= self.spec_width(),
                    copy_h > 0 ==> y + copy_h <= self.spec_height(),
                    sy < copy_h,
                    sx <= copy_w,
                    grid.wf(),
                    self.spec_width() == snap.spec_width(),
                    self.spec_height() == snap.spec_height(),
                    forall|i: int, j: int|
                        0 <= i < self.spec_width() && 0 <= j < self.spec_height()
                            ==> #[trigger] self.spec_cell(i, j) == (if (x <= i < x + copy_w && y <= j
                            < y + sy) || (j == y + sy && x <= i < x + sx) {
                            grid.spec_cell(i - x, j - y)
                        } else {
                            snap.spec_cell(i, j)
                        }),
                decreases copy_w - sx,
            {
                proof {
                    lemma_row_major_index_in_range(
                        sx as int,
                        sy as int,
                        grid.spec_width() as int,
                        grid.spec_height() as int,
                    );
                }
                let idx = sy * grid.width + sx;
                let elem = grid.data[idx];
                let ghost mid = *self;
                self.set(x + sx, y + sy, elem);
                proof {
                    let w = self.spec_width() as int;
                    let h = self.spec_height() as int;
                    lemma_row_major_index_in_range(x + sx, y + sy, w, h);
                    assert forall|i: int, j: int|
                        0 <= i < w && 0 <= j < h implies #[trigger] self.spec_cell(i, j) == (if (x
                        <= i < x + copy_w && y <= j < y + sy) || (j == y + sy && x <= i < x + sx
                        + 1) {
                        grid.spec_cell(i - x, j - y)
                    } else {
                        snap.spec_cell(i, j)
                    }) by {
                        lemma_row_major_index_in_range(i, j, w, h);
                        assert(mid.spec_cell(i, j) == (if (x <= i < x + copy_w && y <= j < y + sy)
                            || (j == y + sy && x <= i < x + sx) {
                            grid.spec_cell(i - x, j - y)
                        } else {
                            snap.spec_cell(i, j)
                        }));
                        if !(i == x + sx && j == y + sy) {
                            lemma_row_major_index_injective(w, i, j, x + sx, y + sy);
                        }
                    }
                }
                sx = sx + 1;
            }
            sy = sy + 1;
        }

        proof {
            assert forall|i: int, j: int|
                0 <= i < self.spec_width() && 0 <= j < self.spec_height() implies
                #[trigger] self.spec_cell(i, j) == (if x <= i < x + grid.spec_width() && y <= j < y
                + grid.spec_height() {
                grid.spec_cell(i - x, j - y)
            } else {
                snap.spec_cell(i, j)
            }) by {
                assert(self.spec_cell(i, j) == (if x <= i < x + copy_w && y <= j < y + copy_h {
                    grid.spec_cell(i - x, j - y)
                } else {
                    snap.spec_cell(i, j)
                }));
            }
        }
    }
}

} // verus!
