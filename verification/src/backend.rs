//! The backend adapter: implements the terminal-rendering draw contract over
//! the cell buffer, queueing every touched cell for the reconciler, and
//! carries the cursor, sizing and font bookkeeping.

use vstd::prelude::*;

use crate::buffer::{lemma_grid_area_bounds, CellBuffer};
use crate::cell::{is_default_cell, Cell};
use crate::components::FontStyle;
use crate::identity::IdentityMap;

verus! {

/// Which contiguous run of cells a region clear resets, relative to the
/// linearized (row-major) index of the current cursor position.
#[derive(Clone, Copy, PartialEq, Eq, Structural, Debug)]
pub enum ClearType {
    All,
    AfterCursor,
    BeforeCursor,
    CurrentLine,
    UntilNewLine,
}

/// The last cell of the cursor's row lies inside the grid: the row's end
/// index is no greater than the buffer length.
proof fn lemma_row_end_bounds(w: int, h: int, cy: int)
    requires
        1 <= w,
        0 <= cy < h,
    ensures
        cy * w + w <= w * h,
{
    assert(cy * w + w <= w * h) by (nonlinear_arith)
        requires
            1 <= w,
            0 <= cy < h,
    ;
}

/// Rotating by at most the full height minus one row stays within the
/// buffer: that many rows' worth of cells is at most the whole grid less one
/// row.
proof fn lemma_row_shift_bounds(w: int, h: int, rb: int)
    requires
        1 <= w,
        0 <= rb <= h - 1,
    ensures
        w * rb <= w * h - w,
        rb * w == w * rb,
{
    assert(w * rb <= w * h - w && rb * w == w * rb) by (nonlinear_arith)
        requires
            1 <= w,
            0 <= rb <= h - 1,
    ;
}

/// The half-open linear index range `[start, end)` that a region clear
/// resets, for a cursor at (cx, cy) on a grid of width `w` with `len` cells.
pub open spec fn spec_clear_bounds(kind: ClearType, cx: int, cy: int, w: int, len: int) -> (
    int,
    int,
) {
    match kind {
        ClearType::All => (0, len),
        ClearType::AfterCursor => (cy * w + cx + 1, len),
        ClearType::BeforeCursor => (0, cy * w + cx),
        ClearType::CurrentLine => (cy * w, cy * w + w),
        ClearType::UntilNewLine => (cy * w + cx, cy * w + w),
    }
}

/// The cell grid after a draw batch has been merged: each non-skip entry
/// overwrites its coordinate in order, so for a coordinate drawn twice the
/// later entry wins; skip entries change nothing.
pub open spec fn spec_draw_cells(cells: Seq<Cell>, w: int, batch: Seq<(u16, u16, Cell)>) -> Seq<
    Cell,
>
    decreases batch.len(),
{
    if batch.len() == 0 {
        cells
    } else {
        let prev = spec_draw_cells(cells, w, batch.drop_last());
        let entry = batch.last();
        if entry.2.skip {
            prev
        } else {
            prev.update(entry.1 as int * w + entry.0 as int, entry.2)
        }
    }
}

/// The subsequence of a draw batch that is queued for the reconciler: the
/// non-skip entries, in order.
pub open spec fn spec_queued(batch: Seq<(u16, u16, Cell)>) -> Seq<(u16, u16, Cell)>
    decreases batch.len(),
{
    if batch.len() == 0 {
        Seq::empty()
    } else {
        let prev = spec_queued(batch.drop_last());
        if batch.last().2.skip {
            prev
        } else {
            prev.push(batch.last())
        }
    }
}

/// The font loads a backend asks of the host: one entry per configured
/// path, in the fixed order normal, italic, bold, bold-italic.
pub open spec fn spec_font_requests(b: TermBackend) -> Seq<(FontStyle, String)> {
    let s0 = Seq::<(FontStyle, String)>::empty();
    let s1 = if b.normal_font_path is Some {
        s0.push((FontStyle::Normal, b.normal_font_path->0))
    } else {
        s0
    };
    let s2 = if b.italic_font_path is Some {
        s1.push((FontStyle::Italic, b.italic_font_path->0))
    } else {
        s1
    };
    let s3 = if b.bold_font_path is Some {
        s2.push((FontStyle::Bold, b.bold_font_path->0))
    } else {
        s2
    };
    if b.italicbold_font_path is Some {
        s3.push((FontStyle::ItalicBold, b.italicbold_font_path->0))
    } else {
        s3
    }
}

/// The backend adapter.  It owns the cell buffer and the pending-update
/// queue exclusively; the identity map and the handles are bookkeeping for
/// the reconciler; fonts are host assets held only as paths and opaque
/// handles (`0` is the placeholder handle before any load).
pub struct TermBackend {
    pub width: u16,
    pub height: u16,
    pub term_font_size: u16,
    pub entity_map: IdentityMap,
    pub buffer: CellBuffer,
    pub vcupdate: Vec<(u16, u16, Cell)>,
    pub cursor_ref: u64,
    pub cursor: bool,
    pub cursor_pos: (u16, u16),
    pub host_initialized: bool,
    pub normal_font_path: Option<String>,
    pub italic_font_path: Option<String>,
    pub bold_font_path: Option<String>,
    pub italicbold_font_path: Option<String>,
    pub normal_handle: u64,
    pub italic_handle: u64,
    pub bold_handle: u64,
    pub italicbold_handle: u64,
    pub manual_window_sizing: bool,
}

/// The two backends agree on every font path and handle.
pub open spec fn same_fonts(a: TermBackend, b: TermBackend) -> bool {
    &&& a.normal_font_path == b.normal_font_path
    &&& a.italic_font_path == b.italic_font_path
    &&& a.bold_font_path == b.bold_font_path
    &&& a.italicbold_font_path == b.italicbold_font_path
    &&& a.normal_handle == b.normal_handle
    &&& a.italic_handle == b.italic_handle
    &&& a.bold_handle == b.bold_handle
    &&& a.italicbold_handle == b.italicbold_handle
}

/// The two backends agree on the grid dimensions and font size.
pub open spec fn same_dims(a: TermBackend, b: TermBackend) -> bool {
    &&& a.width == b.width
    &&& a.height == b.height
    &&& a.term_font_size == b.term_font_size
}

/// The two backends agree on cursor position, visibility and handle.
pub open spec fn same_cursor(a: TermBackend, b: TermBackend) -> bool {
    &&& a.cursor == b.cursor
    &&& a.cursor_pos == b.cursor_pos
    &&& a.cursor_ref == b.cursor_ref
}

/// The two backends agree on everything but the buffer, the queue and the
/// cursor fields.
pub open spec fn same_bookkeeping(a: TermBackend, b: TermBackend) -> bool {
    &&& same_dims(a, b)
    &&& same_fonts(a, b)
    &&& a.entity_map == b.entity_map
    &&& a.host_initialized == b.host_initialized
    &&& a.manual_window_sizing == b.manual_window_sizing
}

impl TermBackend {
    /// Well-formedness: the buffer matches the recorded dimensions and the
    /// identity map is in a coherent state.
    pub open spec fn wf(self) -> bool {
        &&& self.buffer.wf()
        &&& self.buffer.width == self.width
        &&& self.buffer.height == self.height
        &&& self.entity_map.wf()
    }

    /// Builds a backend with the given grid size, font pixel size and the
    /// four font asset paths (normal, italic, bold, bold-italic).
    pub fn new(
        width: u16,
        height: u16,
        font_size: u16,
        normal_font_path: &str,
        italic_font_path: &str,
        bold_font_path: &str,
        italicbold_font_path: &str,
    ) -> (backend: TermBackend)
        ensures
            backend.wf(),
            backend.width == width,
            backend.height == height,
            backend.term_font_size == font_size,
            backend.buffer.all_default(),
            backend.vcupdate@.len() == 0,
            backend.entity_map.handles@.len() == 0,
            !backend.cursor,
            backend.cursor_pos == (0u16, 0u16),
            backend.cursor_ref == 0,
            !backend.host_initialized,
            !backend.manual_window_sizing,
            backend.normal_handle == 0,
            backend.italic_handle == 0,
            backend.bold_handle == 0,
            backend.italicbold_handle == 0,
            (backend.normal_font_path matches Some(p) && p@ == normal_font_path@),
            (backend.italic_font_path matches Some(p) && p@ == italic_font_path@),
            (backend.bold_font_path matches Some(p) && p@ == bold_font_path@),
            (backend.italicbold_font_path matches Some(p) && p@ == italicbold_font_path@),
    {
        TermBackend {
            width,
            height,
            term_font_size: font_size,
            entity_map: IdentityMap::new(),
            buffer: CellBuffer::empty(width, height),
            vcupdate: Vec::new(),
            cursor_ref: 0,
            cursor: false,
            cursor_pos: (0, 0),
            host_initialized: false,
            normal_font_path: Some(String::from_str(normal_font_path)),
            italic_font_path: Some(String::from_str(italic_font_path)),
            bold_font_path: Some(String::from_str(bold_font_path)),
            italicbold_font_path: Some(String::from_str(italicbold_font_path)),
            normal_handle: 0,
            italic_handle: 0,
            bold_handle: 0,
            italicbold_handle: 0,
            manual_window_sizing: false,
        }
    }

    /// Resizes the grid: the buffer is reallocated with every cell default
    /// and the new dimensions are recorded.  Visual objects are not touched
    /// here; the lifecycle state machine schedules their rebuild.
    pub fn resize(&mut self, width: u16, height: u16)
        requires
            old(self).wf(),
        ensures
            final(self).wf(),
            final(self).width == width,
            final(self).height == height,
            final(self).buffer.all_default(),
            final(self).term_font_size == old(self).term_font_size,
            same_fonts(*old(self), *final(self)),
            same_cursor(*old(self), *final(self)),
            final(self).entity_map == old(self).entity_map,
            final(self).vcupdate@ == old(self).vcupdate@,
            final(self).host_initialized == old(self).host_initialized,
            final(self).manual_window_sizing == old(self).manual_window_sizing,
    {
        self.buffer.resize(width, height);
        self.width = width;
        self.height = height;
    }

    /// Toggles manual window sizing (disables recomputing the grid from
    /// window resize events).
    pub fn manual_window_sizing(&mut self, value: bool)
        ensures
            (*final(self) == TermBackend { manual_window_sizing: value, ..*old(self) }),
    {
        self.manual_window_sizing = value;
    }

    /// Merges a draw batch into the cell buffer and appends every non-skip
    /// entry to the pending-update queue, in order.  Skip cells are neither
    /// buffered nor queued, so whatever the buffer held at their coordinate
    /// stays.  The queue is not deduplicated: the reconciler drains it in
    /// order, so the last write for a coordinate wins.
    pub fn draw(&mut self, content: &Vec<(u16, u16, Cell)>)
        requires
            old(self).wf(),
            forall|i: int|
                0 <= i < content@.len() ==> ((#[trigger] content@[i]).2.skip
                    || old(self).buffer.in_bounds(content@[i].0 as int, content@[i].1 as int)),
        ensures
            final(self).wf(),
            final(self).buffer.cells@ == spec_draw_cells(
                old(self).buffer.cells@,
                old(self).width as int,
                content@,
            ),
            final(self).vcupdate@ == old(self).vcupdate@ + spec_queued(content@),
            same_bookkeeping(*old(self), *final(self)),
            same_cursor(*old(self), *final(self)),
            final(self).buffer.width == old(self).buffer.width,
            final(self).buffer.height == old(self).buffer.height,
    {
        let n = content.len();
        let mut i: usize = 0;
        while i < n
            invariant
                i <= n,
                n == content@.len(),
                old(self).wf(),
                self.wf(),
                forall|j: int|
                    0 <= j < content@.len() ==> ((#[trigger] content@[j]).2.skip
                        || old(self).buffer.in_bounds(content@[j].0 as int, content@[j].1 as int)),
                self.buffer.width == old(self).buffer.width,
                self.buffer.height == old(self).buffer.height,
                self.buffer.cells@ == spec_draw_cells(
                    old(self).buffer.cells@,
                    old(self).width as int,
                    content@.take(i as int),
                ),
                self.vcupdate@ == old(self).vcupdate@ + spec_queued(content@.take(i as int)),
                same_bookkeeping(*old(self), *self),
                same_cursor(*old(self), *self),
            decreases n - i,
        {
            proof {
                assert(content@.take(i as int + 1).drop_last() =~= content@.take(i as int));
                assert(content@.take(i as int + 1).last() == content@[i as int]);
            }
            let entry = &content[i];
            if !entry.2.skip {
                let queued_cell = entry.2.clone();
                let buffer_cell = entry.2.clone();
                self.vcupdate.push((entry.0, entry.1, queued_cell));
                self.buffer.set(entry.0, entry.1, buffer_cell);
            }
            i = i + 1;
        }
        proof {
            assert(content@.take(n as int) =~= content@);
        }
    }

    /// Hides the cursor overlay; the visual effect is applied by the
    /// reconciler's cursor step.
    pub fn hide_cursor(&mut self)
        ensures
            (*final(self) == TermBackend { cursor: false, ..*old(self) }),
    {
        self.cursor = false;
    }

    /// Shows the cursor overlay; the visual effect is applied by the
    /// reconciler's cursor step.
    pub fn show_cursor(&mut self)
        ensures
            (*final(self) == TermBackend { cursor: true, ..*old(self) }),
    {
        self.cursor = true;
    }

    /// The current cursor position.
    pub fn get_cursor(&self) -> (pos: (u16, u16))
        ensures
            pos == self.cursor_pos,
    {
        self.cursor_pos
    }

    /// Moves the cursor.  No bounds validation: callers must supply valid
    /// coordinates, mirroring the buffer's fail-fast policy.
    pub fn set_cursor(&mut self, x: u16, y: u16)
        ensures
            (*final(self) == TermBackend { cursor_pos: (x, y), ..*old(self) }),
    {
        self.cursor_pos = (x, y);
    }

    /// Resets every cell of the buffer to the default blank cell.
    pub fn clear(&mut self)
        requires
            old(self).wf(),
        ensures
            final(self).wf(),
            final(self).buffer.all_default(),
            final(self).buffer.width == old(self).buffer.width,
            final(self).buffer.height == old(self).buffer.height,
            final(self).vcupdate@ == old(self).vcupdate@,
            same_bookkeeping(*old(self), *final(self)),
            same_cursor(*old(self), *final(self)),
    {
        self.buffer.reset();
    }

    /// Resets the contiguous run of cells that the region kind selects,
    /// computed from the linearized index of the current cursor position,
    /// and leaves every other cell unchanged.  A line-relative kind resets
    /// within the cursor's row only.
    pub fn clear_region(&mut self, kind: ClearType)
        requires
            old(self).wf(),
            old(self).buffer.in_bounds(
                old(self).cursor_pos.0 as int,
                old(self).cursor_pos.1 as int,
            ),
        ensures
            final(self).wf(),
            final(self).buffer.width == old(self).buffer.width,
            final(self).buffer.height == old(self).buffer.height,
            final(self).buffer.cells@.len() == old(self).buffer.cells@.len(),
            ({
                let (start, end) = spec_clear_bounds(
                    kind,
                    old(self).cursor_pos.0 as int,
                    old(self).cursor_pos.1 as int,
                    old(self).width as int,
                    old(self).buffer.cells@.len() as int,
                );
                &&& forall|i: int|
                    start <= i < end ==> is_default_cell(#[trigger] final(self).buffer.cells@[i])
                &&& forall|i: int|
                    0 <= i < old(self).buffer.cells@.len() && !(start <= i < end)
                        ==> final(self).buffer.cells@[i] == old(self).buffer.cells@[i]
            }),
            final(self).vcupdate@ == old(self).vcupdate@,
            same_bookkeeping(*old(self), *final(self)),
            same_cursor(*old(self), *final(self)),
    {
        let (cx, cy) = self.cursor_pos;
        match kind {
            ClearType::All => {
                self.buffer.reset();
            },
            ClearType::AfterCursor => {
                let idx = self.buffer.index_of(cx, cy);
                let len = self.buffer.cells.len();
                self.buffer.fill_range(idx + 1, len);
            },
            ClearType::BeforeCursor => {
                let idx = self.buffer.index_of(cx, cy);
                self.buffer.fill_range(0, idx);
            },
            ClearType::CurrentLine => {
                // binds the buffer length so the row-end arithmetic below is
                // known to fit in a machine word
                let _buffer_len: usize = self.buffer.cells.len();
                let line_start = self.buffer.index_of(0, cy);
                let line_end = self.buffer.index_of(self.width - 1, cy);
                proof {
                    lemma_row_end_bounds(self.width as int, self.height as int, cy as int);
                }
                self.buffer.fill_range(line_start, line_end + 1);
            },
            ClearType::UntilNewLine => {
                let _buffer_len: usize = self.buffer.cells.len();
                let idx = self.buffer.index_of(cx, cy);
                let line_end = self.buffer.index_of(self.width - 1, cy);
                proof {
                    lemma_row_end_bounds(self.width as int, self.height as int, cy as int);
                }
                self.buffer.fill_range(idx, line_end + 1);
            },
        }
    }

    /// Terminal-style scroll: inserts `n` line breaks at the cursor.  The
    /// cursor column advances by one (clamped to the last column) and the
    /// cursor row advances by `n` (clamped to the last row).  If `n` exceeds
    /// the rows remaining below the cursor, the buffer content is rotated
    /// left by whole rows — deleting that many leading rows and appending
    /// blank rows at the bottom — and a rotation by the full height minus
    /// one is treated as a plain reset, which is semantically equal.
    pub fn append_lines(&mut self, n: u16)
        requires
            old(self).wf(),
            old(self).width >= 1,
            old(self).height >= 1,
        ensures
            final(self).wf(),
            final(self).buffer.width == old(self).buffer.width,
            final(self).buffer.height == old(self).buffer.height,
            final(self).cursor_pos.0 as int == vstd::math::min(
                old(self).cursor_pos.0 as int + 1,
                old(self).width as int - 1,
            ),
            final(self).cursor_pos.1 as int == vstd::math::min(
                old(self).cursor_pos.1 as int + n as int,
                old(self).height as int - 1,
            ),
            ({
                let w = old(self).width as int;
                let max_y = old(self).height as int - 1;
                let cur_y = old(self).cursor_pos.1 as int;
                let lines_after = if cur_y <= max_y {
                    max_y - cur_y
                } else {
                    0
                };
                let rb = vstd::math::min(n as int - lines_after, max_y);
                let len = old(self).buffer.cells@.len() as int;
                if n as int <= lines_after {
                    final(self).buffer.cells@ == old(self).buffer.cells@
                } else if rb == max_y {
                    final(self).buffer.all_default()
                } else {
                    &&& forall|i: int|
                        0 <= i < len - rb * w ==> final(self).buffer.cells@[i] == old(
                            self,
                        ).buffer.cells@[i + rb * w]
                    &&& forall|i: int|
                        len - rb * w <= i < len ==> is_default_cell(
                            #[trigger] final(self).buffer.cells@[i],
                        )
                }
            }),
            final(self).vcupdate@ == old(self).vcupdate@,
            same_bookkeeping(*old(self), *final(self)),
            final(self).cursor == old(self).cursor,
            final(self).cursor_ref == old(self).cursor_ref,
    {
        let (cur_x, cur_y) = self.get_cursor();

        // the next column, never past the last column
        let new_cursor_x = if cur_x >= self.width - 1 {
            self.width - 1
        } else {
            cur_x + 1
        };

        let max_y = self.height - 1;
        let lines_after = if cur_y <= max_y {
            max_y - cur_y
        } else {
            0
        };
        if n > lines_after {
            let diff = n - lines_after;
            let rotate_by = if diff <= max_y {
                diff
            } else {
                max_y
            };

            if rotate_by == self.height - 1 {
                self.clear();
            }

            self.set_cursor(0, rotate_by);
            self.clear_region(ClearType::BeforeCursor);
            proof {
                lemma_grid_area_bounds(self.width as int, rotate_by as int);
                lemma_row_shift_bounds(
                    self.width as int,
                    self.height as int,
                    rotate_by as int,
                );
            }
            let k: usize = (self.width as usize) * (rotate_by as usize);
            self.buffer.rotate_left(k);
        }

        let sum: u32 = cur_y as u32 + n as u32;
        let new_cursor_y = if sum >= max_y as u32 {
            max_y
        } else {
            cur_y + n
        };
        self.set_cursor(new_cursor_x, new_cursor_y);
    }

    /// The font loads the host must perform: one request per configured
    /// font path, in the fixed order normal, italic, bold, bold-italic.
    /// Paths left unset fall back to the host's built-in font and request
    /// nothing.
    pub fn font_requests(&self) -> (reqs: Vec<(FontStyle, String)>)
        ensures
            reqs@ == spec_font_requests(*self),
    {
        let mut reqs: Vec<(FontStyle, String)> = Vec::new();
        if let Some(p) = &self.normal_font_path {
            reqs.push((FontStyle::Normal, p.clone()));
        }
        if let Some(p) = &self.italic_font_path {
            reqs.push((FontStyle::Italic, p.clone()));
        }
        if let Some(p) = &self.bold_font_path {
            reqs.push((FontStyle::Bold, p.clone()));
        }
        if let Some(p) = &self.italicbold_font_path {
            reqs.push((FontStyle::ItalicBold, p.clone()));
        }
        proof {
            assert(reqs@ =~= spec_font_requests(*self));
        }
        reqs
    }

    /// Records the handle the host's asset loader returned for one font
    /// style.  The core never validates the load: a missing font degrades
    /// to the host's default glyph rendering.
    pub fn set_font_handle(&mut self, style: FontStyle, handle: u64)
        ensures
            (*final(self) == (match style {
                FontStyle::Normal => TermBackend { normal_handle: handle, ..*old(self) },
                FontStyle::Italic => TermBackend { italic_handle: handle, ..*old(self) },
                FontStyle::Bold => TermBackend { bold_handle: handle, ..*old(self) },
                FontStyle::ItalicBold => TermBackend { italicbold_handle: handle, ..*old(self) },
            })),
    {
        match style {
            FontStyle::Normal => {
                self.normal_handle = handle;
            },
            FontStyle::Italic => {
                self.italic_handle = handle;
            },
            FontStyle::Bold => {
                self.bold_handle = handle;
            },
            FontStyle::ItalicBold => {
                self.italicbold_handle = handle;
            },
        }
    }

    /// The current cell buffer, for hosts that repaint from it wholesale.
    pub fn buffer(&self) -> (buf: &CellBuffer)
        ensures
            *buf == self.buffer,
    {
        &self.buffer
    }

    /// The visual object registered at a coordinate, for the host to apply
    /// engine-specific visibility or effects; `None` for a coordinate
    /// outside the grid or before any rebuild.
    pub fn entity_at(&self, x: u16, y: u16) -> (res: Option<u64>)
        requires
            self.wf(),
        ensures
            res == self.entity_map.spec_lookup(x as int, y as int),
    {
        self.entity_map.lookup(x, y)
    }

    /// The current grid size as (width, height).
    pub fn size(&self) -> (s: (u16, u16))
        ensures
            s == (self.width, self.height),
    {
        (self.width, self.height)
    }

    /// The window size in character cells and in pixels.  The pixel size is
    /// a fixed nominal value: presentation is owned by the host's own frame
    /// loop, which sizes the real window itself.
    pub fn window_size(&self) -> (s: WindowSizeInfo)
        ensures
            s.columns_rows == (self.width, self.height),
            s.pixels == (600u16, 480u16),
    {
        WindowSizeInfo { columns_rows: (self.width, self.height), pixels: (600, 480) }
    }

    /// No-op: presentation is driven by the host's frame loop, not by this
    /// adapter.
    pub fn flush(&self) {
    }
}

impl Default for TermBackend {
    /// The zero-config backend: a 40 x 25 grid, font size 30, no font paths
    /// (the host's built-in font is used).
    fn default() -> (backend: Self)
        ensures
            backend.wf(),
            backend.width == 40,
            backend.height == 25,
            backend.term_font_size == 30,
            backend.buffer.all_default(),
            backend.vcupdate@.len() == 0,
            backend.entity_map.handles@.len() == 0,
            !backend.cursor,
            backend.cursor_pos == (0u16, 0u16),
            backend.cursor_ref == 0,
            !backend.host_initialized,
            !backend.manual_window_sizing,
            backend.normal_handle == 0,
            backend.italic_handle == 0,
            backend.bold_handle == 0,
            backend.italicbold_handle == 0,
            backend.normal_font_path is None,
            backend.italic_font_path is None,
            backend.bold_font_path is None,
            backend.italicbold_font_path is None,
    {
        TermBackend {
            width: 40,
            height: 25,
            term_font_size: 30,
            entity_map: IdentityMap::new(),
            buffer: CellBuffer::empty(40, 25),
            vcupdate: Vec::new(),
            cursor_ref: 0,
            cursor: false,
            cursor_pos: (0, 0),
            host_initialized: false,
            normal_font_path: None,
            italic_font_path: None,
            bold_font_path: None,
            italicbold_font_path: None,
            normal_handle: 0,
            italic_handle: 0,
            bold_handle: 0,
            italicbold_handle: 0,
            manual_window_sizing: false,
        }
    }
}

/// The window size that the adapter reports: character columns and rows,
/// plus a nominal pixel size.
#[derive(Clone, Copy, PartialEq, Eq, Debug)]
pub struct WindowSizeInfo {
    pub columns_rows: (u16, u16),
    pub pixels: (u16, u16),
}

} // verus!
