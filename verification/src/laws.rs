//! Cross-cutting laws of the library, each proved from the spec-level
//! models that the operations' contracts are stated over.

use vstd::prelude::*;

use crate::backend::{spec_draw_cells, spec_queued};
use crate::buffer::{lemma_grid_index_bounds, lemma_grid_index_injective};
use crate::cell::{is_default_cell, Cell};
use crate::components::{spec_proper_fg_bg, VirtualCell};

verus! {

/// Buffer round-trip: writing a cell at an in-bounds coordinate makes that
/// exact cell what a read at the coordinate returns, and touches no other
/// coordinate.
pub proof fn lemma_buffer_round_trip(cells: Seq<Cell>, w: int, h: int, x: int, y: int, c: Cell)
    requires
        cells.len() == w * h,
        0 <= x < w,
        0 <= y < h,
    ensures
        cells.update(y * w + x, c)[y * w + x] == c,
        forall|x2: int, y2: int|
            0 <= x2 < w && 0 <= y2 < h && (x2 != x || y2 != y) ==> cells.update(y * w + x, c)[
                #[trigger] (y2 * w + x2)
            ] == cells[y2 * w + x2],
{
    lemma_grid_index_bounds(w, h, x, y);
    assert forall|x2: int, y2: int|
        0 <= x2 < w && 0 <= y2 < h && (x2 != x || y2 != y) implies cells.update(y * w + x, c)[
        #[trigger] (y2 * w + x2)
    ] == cells[y2 * w + x2] by {
        lemma_grid_index_bounds(w, h, x2, y2);
        if y2 * w + x2 == y * w + x {
            lemma_grid_index_injective(w, h, x2, y2, x, y);
        }
    }
}

/// Skip-preserving draw: a batch whose every entry at (x, y) carries the
/// skip flag leaves the buffer's value at (x, y) unchanged and queues no
/// entry for (x, y).
pub proof fn lemma_skip_preserving_draw(
    cells: Seq<Cell>,
    w: int,
    h: int,
    batch: Seq<(u16, u16, Cell)>,
    x: int,
    y: int,
)
    requires
        cells.len() == w * h,
        0 <= x < w,
        0 <= y < h,
        forall|i: int|
            0 <= i < batch.len() ==> ((#[trigger] batch[i]).2.skip || (0 <= batch[i].0 < w && 0
                <= batch[i].1 < h)),
        forall|i: int|
            0 <= i < batch.len() && (#[trigger] batch[i]).0 == x && batch[i].1 == y
                ==> batch[i].2.skip,
    ensures
        spec_draw_cells(cells, w, batch).len() == cells.len(),
        spec_draw_cells(cells, w, batch)[y * w + x] == cells[y * w + x],
        forall|j: int|
            0 <= j < spec_queued(batch).len() ==> !((#[trigger] spec_queued(batch)[j]).0 == x
                && spec_queued(batch)[j].1 == y),
    decreases batch.len(),
{
    lemma_grid_index_bounds(w, h, x, y);
    if batch.len() > 0 {
        let shorter = batch.drop_last();
        assert(forall|i: int| 0 <= i < shorter.len() ==> #[trigger] shorter[i] == batch[i]);
        lemma_skip_preserving_draw(cells, w, h, shorter, x, y);
        let entry = batch.last();
        let prev = spec_draw_cells(cells, w, shorter);
        let prev_q = spec_queued(shorter);
        assert(spec_draw_cells(cells, w, batch) == (if entry.2.skip {
            prev
        } else {
            prev.update(entry.1 as int * w + entry.0 as int, entry.2)
        }));
        assert(spec_queued(batch) == (if entry.2.skip {
            prev_q
        } else {
            prev_q.push(entry)
        }));
        assert(entry == batch[batch.len() - 1]);
        if !entry.2.skip {
            lemma_grid_index_bounds(w, h, entry.0 as int, entry.1 as int);
            if entry.1 as int * w + entry.0 as int == y * w + x {
                lemma_grid_index_injective(
                    w,
                    h,
                    entry.0 as int,
                    entry.1 as int,
                    x,
                    y,
                );
            }
        }
    }
}

/// Region clear boundaries: clearing the cursor's current line resets
/// exactly the cells of the cursor's row, from the first to the last
/// column, and no cell of any other row.
pub proof fn lemma_clear_current_line(
    old_cells: Seq<Cell>,
    new_cells: Seq<Cell>,
    w: int,
    h: int,
    cy: int,
)
    requires
        w >= 1,
        old_cells.len() == w * h,
        new_cells.len() == w * h,
        0 <= cy < h,
        forall|i: int| cy * w <= i < cy * w + w ==> is_default_cell(#[trigger] new_cells[i]),
        forall|i: int|
            0 <= i < w * h && !(cy * w <= i < cy * w + w) ==> #[trigger] new_cells[i]
                == old_cells[i],
    ensures
        forall|x: int| 0 <= x < w ==> is_default_cell(#[trigger] new_cells[cy * w + x]),
        forall|x: int, y: int|
            0 <= x < w && 0 <= y < h && y != cy ==> #[trigger] new_cells[y * w + x]
                == old_cells[y * w + x],
{
    assert forall|x: int, y: int|
        0 <= x < w && 0 <= y < h && y != cy implies #[trigger] new_cells[y * w + x]
        == old_cells[y * w + x] by {
        lemma_grid_index_bounds(w, h, x, y);
        assert(!(cy * w <= y * w + x < cy * w + w)) by (nonlinear_arith)
            requires
                0 <= x < w,
                0 <= y < h,
                y != cy,
        ;
    }
}

/// Scroll correctness: with the cursor on the last row, appending one line
/// rotates the buffer left by exactly one row's worth of cells — every row
/// moves up by one — and leaves the last row blank.  (On a grid of height
/// one or two the same call degenerates to a full reset by design, so those
/// heights are excluded here.)
pub proof fn lemma_append_lines_scroll(
    old_cells: Seq<Cell>,
    new_cells: Seq<Cell>,
    w: int,
    h: int,
)
    requires
        w >= 1,
        h >= 3,
        old_cells.len() == w * h,
        new_cells.len() == w * h,
        forall|i: int| 0 <= i < w * h - w ==> #[trigger] new_cells[i] == old_cells[i + w],
        forall|i: int| w * h - w <= i < w * h ==> is_default_cell(#[trigger] new_cells[i]),
    ensures
        forall|x: int, y: int|
            0 <= x < w && 0 <= y < h - 1 ==> #[trigger] new_cells[y * w + x] == old_cells[(y + 1)
                * w + x],
        forall|x: int| 0 <= x < w ==> is_default_cell(#[trigger] new_cells[(h - 1) * w + x]),
{
    assert forall|x: int, y: int|
        0 <= x < w && 0 <= y < h - 1 implies #[trigger] new_cells[y * w + x] == old_cells[(y + 1)
        * w + x] by {
        assert(0 <= y * w + x < w * h - w && (y + 1) * w + x == y * w + x + w)
            by (nonlinear_arith)
            requires
                0 <= x < w,
                0 <= y < h - 1,
        ;
    }
    assert forall|x: int| 0 <= x < w implies is_default_cell(
        #[trigger] new_cells[(h - 1) * w + x],
    ) by {
        assert(w * h - w <= (h - 1) * w + x < w * h) by (nonlinear_arith)
            requires
                0 <= x < w,
                h >= 1,
        ;
    }
}

/// Derived-effect idempotence, first half: a cell with none of the derived
/// attributes set keeps its raw mapped colors unchanged.
pub proof fn lemma_derived_no_attrs(v: VirtualCell)
    requires
        !v.reversed,
        !v.dim,
        !v.hidden,
    ensures
        spec_proper_fg_bg(v) == (v.fg, v.bg),
{
}

/// Derived-effect idempotence, second half: toggling the reverse-video
/// attribute swaps the derived foreground and background, so toggling it
/// twice returns to the original ordering.
pub proof fn lemma_reverse_swaps(v: VirtualCell, toggled: VirtualCell)
    requires
        (toggled == VirtualCell { reversed: !v.reversed, ..v }),
        !v.dim,
        !v.hidden,
    ensures
        spec_proper_fg_bg(toggled).0 == spec_proper_fg_bg(v).1,
        spec_proper_fg_bg(toggled).1 == spec_proper_fg_bg(v).0,
{
}

} // verus!
