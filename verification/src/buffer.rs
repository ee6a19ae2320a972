//! The cell buffer: a dense, row-major 2-D grid of styled cells with
//! bounds-checked access, bulk reset, linear-range clear and left rotation.

use vstd::prelude::*;

use crate::cell::{is_default_cell, Cell};

verus! {

/// A dense mapping from (column, row) to [`Cell`], `width * height` in size,
/// stored row-major.  Every coordinate in `[0, width) x [0, height)` has a
/// defined cell.
pub struct CellBuffer {
    pub width: u16,
    pub height: u16,
    pub cells: Vec<Cell>,
}

/// Bounds on a linearized grid index: a coordinate inside the grid maps to an
/// index inside the backing vector.
pub proof fn lemma_grid_index_bounds(w: int, h: int, x: int, y: int)
    requires
        0 <= x < w,
        0 <= y < h,
    ensures
        0 <= y * w + x < w * h,
{
    assert(0 <= y * w + x < w * h) by (nonlinear_arith)
        requires
            0 <= x < w,
            0 <= y < h,
    ;
}

/// The area of a grid with 16-bit dimensions fits in 32 bits.
pub proof fn lemma_grid_area_bounds(w: int, h: int)
    requires
        0 <= w <= 65535,
        0 <= h <= 65535,
    ensures
        0 <= w * h <= 4294836225,
{
    assert(0 <= w * h <= 4294836225) by (nonlinear_arith)
        requires
            0 <= w <= 65535,
            0 <= h <= 65535,
    ;
}

/// Distinct coordinates map to distinct linearized indices.
pub proof fn lemma_grid_index_injective(w: int, h: int, x1: int, y1: int, x2: int, y2: int)
    requires
        0 <= x1 < w,
        0 <= y1 < h,
        0 <= x2 < w,
        0 <= y2 < h,
        y1 * w + x1 == y2 * w + x2,
    ensures
        x1 == x2 && y1 == y2,
{
    assert(x1 == x2 && y1 == y2) by (nonlinear_arith)
        requires
            0 <= x1 < w,
            0 <= y1 < h,
            0 <= x2 < w,
            0 <= y2 < h,
            y1 * w + x1 == y2 * w + x2,
    ;
}

impl CellBuffer {
    /// Well-formedness: the backing vector holds exactly one cell per
    /// coordinate of the grid.
    pub open spec fn wf(self) -> bool {
        self.cells@.len() == self.width as int * self.height as int
    }

    /// The linearized (row-major) index of a coordinate.
    pub open spec fn spec_index_of(self, x: int, y: int) -> int {
        y * (self.width as int) + x
    }

    /// Whether a coordinate lies inside the grid.
    pub open spec fn in_bounds(self, x: int, y: int) -> bool {
        0 <= x < self.width as int && 0 <= y < self.height as int
    }

    /// The cell stored at a coordinate.
    pub open spec fn cell_at(self, x: int, y: int) -> Cell {
        self.cells@[self.spec_index_of(x, y)]
    }

    /// Every cell of the grid is the default blank cell.
    pub open spec fn all_default(self) -> bool {
        forall|i: int| 0 <= i < self.cells@.len() ==> is_default_cell(#[trigger] self.cells@[i])
    }

    /// Builds a buffer of the given dimensions, every cell default.
    pub fn empty(width: u16, height: u16) -> (buf: CellBuffer)
        ensures
            buf.wf(),
            buf.width == width,
            buf.height == height,
            buf.all_default(),
    {
        proof {
            lemma_grid_area_bounds(width as int, height as int);
        }
        let len: usize = (width as usize) * (height as usize);
        let mut cells: Vec<Cell> = Vec::new();
        let mut i: usize = 0;
        while i < len
            invariant
                i <= len,
                len == width as int * height as int,
                cells@.len() == i,
                forall|j: int| 0 <= j < i ==> is_default_cell(#[trigger] cells@[j]),
            decreases len - i,
        {
            cells.push(Cell::default_cell());
            i = i + 1;
        }
        CellBuffer { width, height, cells }
    }

    /// The linearized index of a coordinate, computed in machine arithmetic.
    pub fn index_of(&self, x: u16, y: u16) -> (idx: usize)
        requires
            self.wf(),
            self.in_bounds(x as int, y as int),
        ensures
            idx == self.spec_index_of(x as int, y as int),
            idx < self.cells@.len(),
    {
        proof {
            lemma_grid_index_bounds(self.width as int, self.height as int, x as int, y as int);
            lemma_grid_area_bounds(self.width as int, self.height as int);
        }
        (y as usize) * (self.width as usize) + (x as usize)
    }

    /// Bounds-checked read: the cell at (x, y).
    pub fn get(&self, x: u16, y: u16) -> (cell: &Cell)
        requires
            self.wf(),
            self.in_bounds(x as int, y as int),
        ensures
            *cell == self.cell_at(x as int, y as int),
    {
        let idx = self.index_of(x, y);
        &self.cells[idx]
    }

    /// Bounds-checked write: replaces the cell at (x, y); every other cell
    /// and the dimensions are unchanged.
    pub fn set(&mut self, x: u16, y: u16, cell: Cell)
        requires
            old(self).wf(),
            old(self).in_bounds(x as int, y as int),
        ensures
            final(self).wf(),
            final(self).width == old(self).width,
            final(self).height == old(self).height,
            final(self).cells@ == old(self).cells@.update(
                old(self).spec_index_of(x as int, y as int),
                cell,
            ),
            final(self).cell_at(x as int, y as int) == cell,
    {
        let idx = self.index_of(x, y);
        self.cells[idx] = cell;
    }

    /// Fills the linear index range `[start, end)` with default cells and
    /// leaves everything else unchanged.
    pub fn fill_range(&mut self, start: usize, end: usize)
        requires
            old(self).wf(),
            start <= end <= old(self).cells@.len(),
        ensures
            final(self).wf(),
            final(self).width == old(self).width,
            final(self).height == old(self).height,
            final(self).cells@.len() == old(self).cells@.len(),
            forall|i: int| start <= i < end ==> is_default_cell(#[trigger] final(self).cells@[i]),
            forall|i: int|
                0 <= i < old(self).cells@.len() && !(start <= i < end) ==> final(self).cells@[i]
                    == old(self).cells@[i],
    {
        let mut i: usize = start;
        while i < end
            invariant
                start <= i <= end <= self.cells@.len(),
                self.cells@.len() == old(self).cells@.len(),
                self.width == old(self).width,
                self.height == old(self).height,
                old(self).wf(),
                forall|j: int| start <= j < i ==> is_default_cell(#[trigger] self.cells@[j]),
                forall|j: int|
                    0 <= j < old(self).cells@.len() && !(start <= j < i) ==> self.cells@[j]
                        == old(self).cells@[j],
            decreases end - i,
        {
            self.cells[i] = Cell::default_cell();
            i = i + 1;
        }
    }

    /// Fills every cell with the default blank cell.
    pub fn reset(&mut self)
        requires
            old(self).wf(),
        ensures
            final(self).wf(),
            final(self).width == old(self).width,
            final(self).height == old(self).height,
            final(self).all_default(),
    {
        let len = self.cells.len();
        self.fill_range(0, len);
    }

    /// Reallocates to the new dimensions.  All content is discarded: every
    /// cell of the new grid is the default blank cell (the consumer redraws
    /// each frame, so a resize need not preserve overlap).
    pub fn resize(&mut self, width: u16, height: u16)
        ensures
            final(self).wf(),
            final(self).width == width,
            final(self).height == height,
            final(self).all_default(),
    {
        *self = CellBuffer::empty(width, height);
    }

    /// Rotates the backing vector left by `k` cells: index `i` of the result
    /// holds what index `i + k` (wrapping) held before.
    pub fn rotate_left(&mut self, k: usize)
        requires
            old(self).wf(),
            k <= old(self).cells@.len(),
        ensures
            final(self).wf(),
            final(self).width == old(self).width,
            final(self).height == old(self).height,
            final(self).cells@ == old(self).cells@.subrange(
                k as int,
                old(self).cells@.len() as int,
            ) + old(self).cells@.subrange(0, k as int),
    {
        let len = self.cells.len();
        let mut out: Vec<Cell> = Vec::new();
        let mut j: usize = k;
        while j < len
            invariant
                k <= j <= len,
                *self == *old(self),
                len == self.cells@.len(),
                out@ =~= self.cells@.subrange(k as int, j as int),
            decreases len - j,
        {
            let c = self.cells[j].clone();
            out.push(c);
            proof {
                assert(out@ =~= self.cells@.subrange(k as int, j as int + 1));
            }
            j = j + 1;
        }
        let mut j2: usize = 0;
        while j2 < k
            invariant
                0 <= j2 <= k <= len,
                *self == *old(self),
                len == self.cells@.len(),
                out@ =~= self.cells@.subrange(k as int, len as int) + self.cells@.subrange(
                    0,
                    j2 as int,
                ),
            decreases k - j2,
        {
            let c = self.cells[j2].clone();
            out.push(c);
            proof {
                assert(out@ =~= self.cells@.subrange(k as int, len as int) + self.cells@.subrange(
                    0,
                    j2 as int + 1,
                ));
            }
            j2 = j2 + 1;
        }
        self.cells = out;
        proof {
            assert(self.cells@ =~= old(self).cells@.subrange(
                k as int,
                old(self).cells@.len() as int,
            ) + old(self).cells@.subrange(0, k as int));
        }
    }
}

} // verus!
