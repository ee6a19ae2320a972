//! The visual-object reconciler: drains the pending-update queue against
//! the identity map, rebuilds the map wholesale on structural change,
//! places the cursor overlay, and computes the full-repaint command list
//! for the tile-engine style of host.

use vstd::prelude::*;

use crate::backend::{same_cursor, same_dims, same_fonts, TermBackend};
use crate::buffer::{lemma_grid_index_bounds, CellBuffer};
use crate::cell::Cell;
use crate::color::{map_color_tile, spec_map_color_tile, NativeColor};
use crate::components::{
    font_style_for, spec_font_style, spec_proper_fg_bg, spec_proper_symbol, styled_symbol,
    Cursor, FontStyle, VirtualCell,
};
use crate::identity::IdentityMap;

verus! {

/// One drained update: the handle of the visual object at the entry's
/// coordinate, together with the coordinate and the cell to push onto it.
pub struct CellUpdate {
    pub handle: u64,
    pub column: u16,
    pub row: u16,
    pub cell: Cell,
}

/// What draining a queue against an identity map yields: for each entry in
/// order, the update for its registered handle; entries whose coordinate is
/// stale (not in the map) are silently dropped, since a full rebuild will
/// supersede them.
pub open spec fn spec_drained(map: IdentityMap, queue: Seq<(u16, u16, Cell)>) -> Seq<
    (u64, u16, u16, Cell),
>
    decreases queue.len(),
{
    if queue.len() == 0 {
        Seq::empty()
    } else {
        let prev = spec_drained(map, queue.drop_last());
        let entry = queue.last();
        match map.spec_lookup(entry.0 as int, entry.1 as int) {
            Some(handle) => prev.push((handle, entry.0, entry.1, entry.2)),
            None => prev,
        }
    }
}

/// Whether a drained update matches a spec-level drained tuple.
pub open spec fn update_matches(u: CellUpdate, t: (u64, u16, u16, Cell)) -> bool {
    u.handle == t.0 && u.column == t.1 && u.row == t.2 && u.cell == t.3
}

impl TermBackend {
    /// Incremental update: drains the pending-update queue in order and
    /// yields one update per entry whose coordinate is registered in the
    /// identity map; stale entries are dropped without error.  The queue is
    /// empty afterwards, so its growth stays bounded by one frame's draws.
    pub fn drain_updates(&mut self) -> (updates: Vec<CellUpdate>)
        requires
            old(self).wf(),
        ensures
            final(self).wf(),
            updates@.len() == spec_drained(old(self).entity_map, old(self).vcupdate@).len(),
            forall|i: int|
                0 <= i < updates@.len() ==> update_matches(
                    #[trigger] updates@[i],
                    spec_drained(old(self).entity_map, old(self).vcupdate@)[i],
                ),
            final(self).vcupdate@.len() == 0,
            final(self).buffer == old(self).buffer,
            final(self).entity_map == old(self).entity_map,
            same_dims(*old(self), *final(self)),
            same_fonts(*old(self), *final(self)),
            same_cursor(*old(self), *final(self)),
            final(self).host_initialized == old(self).host_initialized,
            final(self).manual_window_sizing == old(self).manual_window_sizing,
    {
        let mut updates: Vec<CellUpdate> = Vec::new();
        let n = self.vcupdate.len();
        let mut i: usize = 0;
        while i < n
            invariant
                i <= n,
                *self == *old(self),
                n == self.vcupdate@.len(),
                self.wf(),
                updates@.len() == spec_drained(self.entity_map, self.vcupdate@.take(i as int)).len(),
                forall|j: int|
                    0 <= j < updates@.len() ==> update_matches(
                        #[trigger] updates@[j],
                        spec_drained(self.entity_map, self.vcupdate@.take(i as int))[j],
                    ),
            decreases n - i,
        {
            proof {
                assert(self.vcupdate@.take(i as int + 1).drop_last() =~= self.vcupdate@.take(
                    i as int,
                ));
                assert(self.vcupdate@.take(i as int + 1).last() == self.vcupdate@[i as int]);
            }
            let entry = &self.vcupdate[i];
            let looked = self.entity_map.lookup(entry.0, entry.1);
            match looked {
                Some(handle) => {
                    let cell = entry.2.clone();
                    updates.push(
                        CellUpdate { handle, column: entry.0, row: entry.1, cell },
                    );
                },
                None => {},
            }
            i = i + 1;
        }
        proof {
            assert(self.vcupdate@.take(n as int) =~= self.vcupdate@);
        }
        self.vcupdate.clear();
        updates
    }

    /// Clearing phase of a full rebuild: empties the identity map and hands
    /// back every old handle so that the host destroys those visual objects
    /// before any new one is registered — no orphaned visuals.
    pub fn clear_cells(&mut self) -> (gone: Vec<u64>)
        requires
            old(self).wf(),
        ensures
            final(self).wf(),
            gone@ == old(self).entity_map.handles@,
            final(self).entity_map.handles@.len() == 0,
            final(self).buffer == old(self).buffer,
            final(self).vcupdate@ == old(self).vcupdate@,
            same_dims(*old(self), *final(self)),
            same_fonts(*old(self), *final(self)),
            same_cursor(*old(self), *final(self)),
            final(self).host_initialized == old(self).host_initialized,
            final(self).manual_window_sizing == old(self).manual_window_sizing,
    {
        self.entity_map.take_all()
    }

    /// Initing phase of a full rebuild: registers one fresh handle per grid
    /// coordinate, row-major.  Afterwards the identity map is complete:
    /// exactly one handle per coordinate of the current grid.
    pub fn register_cells(&mut self, fresh: Vec<u64>)
        requires
            old(self).wf(),
            fresh@.len() == old(self).width as int * old(self).height as int,
        ensures
            final(self).wf(),
            final(self).entity_map.is_complete(),
            final(self).entity_map.width == old(self).width,
            final(self).entity_map.height == old(self).height,
            final(self).entity_map.handles@ == fresh@,
            forall|x: int, y: int|
                0 <= x < old(self).width as int && 0 <= y < old(self).height as int
                    ==> final(self).entity_map.spec_lookup(x, y) == Some(
                    fresh@[y * old(self).width as int + x],
                ) || old(self).width as int * old(self).height as int == 0,
            final(self).buffer == old(self).buffer,
            final(self).vcupdate@ == old(self).vcupdate@,
            same_dims(*old(self), *final(self)),
            same_fonts(*old(self), *final(self)),
            same_cursor(*old(self), *final(self)),
            final(self).host_initialized == old(self).host_initialized,
            final(self).manual_window_sizing == old(self).manual_window_sizing,
    {
        let width = self.width;
        let height = self.height;
        self.entity_map.rebuild(width, height, fresh);
    }

    /// Marks the host side as started.  Returns whether this call was the
    /// one that started it, so the caller can kick the lifecycle off exactly
    /// once.
    pub fn take_host_init(&mut self) -> (started: bool)
        ensures
            started == !old(self).host_initialized,
            (*final(self) == TermBackend { host_initialized: true, ..*old(self) }),
    {
        let started = !self.host_initialized;
        self.host_initialized = true;
        started
    }

    /// Cursor step: where the dedicated cursor overlay object goes this
    /// frame and whether it is visible.
    pub fn cursor_step(&self) -> (placement: CursorPlacement)
        ensures
            placement.handle == self.cursor_ref,
            placement.cursor.pos == self.cursor_pos,
            placement.visible == self.cursor,
    {
        CursorPlacement {
            handle: self.cursor_ref,
            cursor: Cursor { pos: self.cursor_pos },
            visible: self.cursor,
        }
    }
}

/// What to do with a blink tracker on a visual object this frame.
#[derive(Clone, Copy, PartialEq, Eq, Structural, Debug)]
pub enum BlinkAction {
    /// The object keeps the tracker it has.
    Keep,
    /// The object gets a fresh tracker, not yet in blink, restoring to the
    /// given true color.
    Insert(NativeColor),
    /// The object loses its tracker, if any.
    Remove,
}

/// The tracker transition: an object that has a tracker keeps it while the
/// cell still blinks and loses it otherwise; one without a tracker gains
/// one exactly when the cell blinks.
pub open spec fn spec_blink_action(present: bool, wants_blink: bool, true_color: NativeColor) -> BlinkAction {
    if present {
        if wants_blink {
            BlinkAction::Keep
        } else {
            BlinkAction::Remove
        }
    } else if wants_blink {
        BlinkAction::Insert(true_color)
    } else {
        BlinkAction::Remove
    }
}

/// Everything the host must push onto one visual object for a changed
/// cell: nothing at all for a skip cell, else the derived colors and glyph,
/// the font choice, and the blink tracker transitions.
pub struct RenderPlan {
    pub draw: bool,
    pub fg: NativeColor,
    pub bg: NativeColor,
    pub symbol: String,
    pub font: FontStyle,
    pub slow: BlinkAction,
    pub rapid: BlinkAction,
}

/// Derived-effect computation for one changed cell, given whether its
/// visual object currently carries a slow or rapid blink tracker.  A skip
/// cell must never overwrite a visual object, so its plan draws nothing.
pub fn render_plan(v: &VirtualCell, slow_present: bool, rapid_present: bool) -> (plan: RenderPlan)
    ensures
        plan.draw == !v.skip,
        (plan.fg, plan.bg) == spec_proper_fg_bg(*v),
        plan.symbol@ == spec_proper_symbol(v.symbol@, v.underlined, v.crossed_out),
        plan.font == spec_font_style(v.bold, v.italic),
        plan.slow == spec_blink_action(slow_present, v.slow_blink, spec_proper_fg_bg(*v).0),
        plan.rapid == spec_blink_action(rapid_present, v.rapid_blink, spec_proper_fg_bg(*v).0),
{
    let (fg, bg) = v.proper_fg_bg();
    let symbol = v.proper_symbol();
    let font = font_style_for(v.bold, v.italic);
    let slow = blink_action(slow_present, v.slow_blink, fg);
    let rapid = blink_action(rapid_present, v.rapid_blink, fg);
    RenderPlan { draw: !v.skip, fg, bg, symbol, font, slow, rapid }
}

/// The tracker transition, as executable code.
pub fn blink_action(present: bool, wants_blink: bool, true_color: NativeColor) -> (action: BlinkAction)
    ensures
        action == spec_blink_action(present, wants_blink, true_color),
{
    if present {
        if wants_blink {
            BlinkAction::Keep
        } else {
            BlinkAction::Remove
        }
    } else if wants_blink {
        BlinkAction::Insert(true_color)
    } else {
        BlinkAction::Remove
    }
}

/// Where the cursor overlay object goes and whether it is shown.
#[derive(Clone, Copy, PartialEq, Eq, Debug)]
pub struct CursorPlacement {
    pub handle: u64,
    pub cursor: Cursor,
    pub visible: bool,
}

/// One repaint command for a tile-engine host: print this text at (x, y) in
/// these colors.
pub struct PaintCmd {
    pub x: u16,
    pub y: u16,
    pub fg: NativeColor,
    pub bg: NativeColor,
    pub text: String,
}

/// Whether a paint command renders the given buffer cell at (x, y): colors
/// mapped through the tile palette, glyph with its combining marks.
pub open spec fn spec_paint_matches(buf: CellBuffer, x: int, y: int, cmd: PaintCmd) -> bool {
    let cell = buf.cell_at(x, y);
    &&& cmd.x == x
    &&& cmd.y == y
    &&& cmd.fg == spec_map_color_tile(cell.fg, true)
    &&& cmd.bg == spec_map_color_tile(cell.bg, false)
    &&& cmd.text@ == spec_proper_symbol(cell.symbol@, cell.underlined, cell.crossed_out)
}

/// The repaint command for one cell.
pub fn paint_from_cell(x: u16, y: u16, cell: &Cell) -> (cmd: PaintCmd)
    ensures
        cmd.x == x,
        cmd.y == y,
        cmd.fg == spec_map_color_tile(cell.fg, true),
        cmd.bg == spec_map_color_tile(cell.bg, false),
        cmd.text@ == spec_proper_symbol(cell.symbol@, cell.underlined, cell.crossed_out),
{
    PaintCmd {
        x,
        y,
        fg: map_color_tile(cell.fg, true),
        bg: map_color_tile(cell.bg, false),
        text: styled_symbol(&cell.symbol, cell.underlined, cell.crossed_out),
    }
}

/// Full repaint for a tile-engine host: one paint command per coordinate,
/// column by column, each rendering the buffer's current cell there.
pub fn paint_commands(buf: &CellBuffer) -> (cmds: Vec<PaintCmd>)
    requires
        buf.wf(),
    ensures
        cmds@.len() == buf.width as int * buf.height as int,
        forall|x: int, y: int|
            buf.in_bounds(x, y) ==> spec_paint_matches(
                *buf,
                x,
                y,
                #[trigger] cmds@[x * buf.height as int + y],
            ),
{
    let w = buf.width;
    let h = buf.height;
    let mut cmds: Vec<PaintCmd> = Vec::new();
    let mut x: u16 = 0;
    while x < w
        invariant
            x <= w,
            w == buf.width,
            h == buf.height,
            buf.wf(),
            cmds@.len() == x as int * h as int,
            forall|px: int, py: int|
                0 <= px < x as int && 0 <= py < h as int ==> spec_paint_matches(
                    *buf,
                    px,
                    py,
                    #[trigger] cmds@[px * h as int + py],
                ),
        decreases w - x,
    {
        let mut y: u16 = 0;
        while y < h
            invariant
                x < w,
                y <= h,
                w == buf.width,
                h == buf.height,
                buf.wf(),
                cmds@.len() == x as int * h as int + y as int,
                forall|px: int, py: int|
                    0 <= px < x as int && 0 <= py < h as int ==> spec_paint_matches(
                        *buf,
                        px,
                        py,
                        #[trigger] cmds@[px * h as int + py],
                    ),
                forall|py: int|
                    0 <= py < y as int ==> spec_paint_matches(
                        *buf,
                        x as int,
                        py,
                        #[trigger] cmds@[x as int * h as int + py],
                    ),
            decreases h - y,
        {
            proof {
                lemma_grid_index_bounds(h as int, w as int, y as int, x as int);
            }
            let cell = buf.get(x, y);
            let cmd = paint_from_cell(x, y, cell);
            cmds.push(cmd);
            proof {
                assert forall|px: int, py: int|
                    0 <= px < x as int && 0 <= py < h as int implies #[trigger] (px * h as int
                    + py) < x as int * h as int by {
                    lemma_grid_index_bounds(h as int, x as int, py, px);
                    assert(h as int * x as int == x as int * h as int) by (nonlinear_arith);
                }
            }
            y = y + 1;
        }
        proof {
            assert((x as int + 1) * h as int == x as int * h as int + h as int)
                by (nonlinear_arith);
        }
        x = x + 1;
    }
    cmds
}

/// Recomputes the grid dimensions from the window pixel size and the
/// per-cell pixel size: each axis is the quotient, clamped to what a 16-bit
/// dimension can hold.
pub fn compute_grid_size(win_w: u32, win_h: u32, cell_w: u32, cell_h: u32) -> (dims: (u16, u16))
    requires
        cell_w > 0,
        cell_h > 0,
    ensures
        dims.0 as int == vstd::math::min(win_w as int / cell_w as int, 65535),
        dims.1 as int == vstd::math::min(win_h as int / cell_h as int, 65535),
{
    let cols: u32 = win_w / cell_w;
    let rows: u32 = win_h / cell_h;
    let c: u16 = if cols > 65535 {
        65535
    } else {
        cols as u16
    };
    let r: u16 = if rows > 65535 {
        65535
    } else {
        rows as u16
    };
    (c, r)
}

/// The product of a 32-bit pixel size and a 16-bit cell count stays well
/// inside 64 bits.
proof fn lemma_pixel_product_bounds(px: int, cells: int)
    requires
        0 <= px <= 0xFFFFFFFF,
        0 <= cells <= 0xFFFF,
    ensures
        0 <= px * cells < 0x1000000000000,
{
    assert(0 <= px * cells < 0x1000000000000) by (nonlinear_arith)
        requires
            0 <= px <= 0xFFFFFFFF,
            0 <= cells <= 0xFFFF,
    ;
}

/// The window pixel resolution that exactly fits the grid: per-cell pixel
/// size times the number of columns and rows on each axis.
pub fn desired_resolution(cell_w: u32, cell_h: u32, columns: u16, rows: u16) -> (res: (u64, u64))
    ensures
        res.0 == cell_w as int * columns as int,
        res.1 == cell_h as int * rows as int,
{
    proof {
        lemma_pixel_product_bounds(cell_w as int, columns as int);
        lemma_pixel_product_bounds(cell_h as int, rows as int);
    }
    ((cell_w as u64) * (columns as u64), (cell_h as u64) * (rows as u64))
}

} // verus!
