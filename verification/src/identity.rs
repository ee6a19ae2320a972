//! The visual-object identity map: a coordinate-to-handle table over the
//! host's opaque visual objects, rebuilt wholesale on every structural
//! change and never patched in place.

use vstd::prelude::*;

use crate::buffer::{lemma_grid_index_bounds, lemma_grid_index_injective};

verus! {

/// Maps each grid coordinate to the opaque handle of a host-owned visual
/// object.  The table is all-or-nothing: it is either empty (cleared, before
/// a rebuild) or holds exactly one handle per coordinate, densely in
/// row-major order.  Handles are weak references into a host-owned object
/// graph; the core never owns them.
pub struct IdentityMap {
    pub width: u16,
    pub height: u16,
    pub handles: Vec<u64>,
}

impl IdentityMap {
    /// Well-formedness: cleared, or exactly one handle per coordinate.
    pub open spec fn wf(self) -> bool {
        self.handles@.len() == 0 || self.handles@.len() == self.width as int * self.height as int
    }

    /// Whether the map holds a handle for every coordinate of its grid.
    pub open spec fn is_complete(self) -> bool {
        self.handles@.len() == self.width as int * self.height as int
    }

    /// Whether a coordinate lies inside the map's grid.
    pub open spec fn in_bounds(self, x: int, y: int) -> bool {
        0 <= x < self.width as int && 0 <= y < self.height as int
    }

    /// What a lookup returns: the registered handle for an in-bounds
    /// coordinate of a populated map, nothing otherwise.
    pub open spec fn spec_lookup(self, x: int, y: int) -> Option<u64> {
        if self.in_bounds(x, y) && self.handles@.len() > 0 {
            Some(self.handles@[y * self.width as int + x])
        } else {
            None
        }
    }

    /// An empty map: no handles registered.
    pub fn new() -> (m: IdentityMap)
        ensures
            m.wf(),
            m.handles@.len() == 0,
            m.width == 0,
            m.height == 0,
    {
        IdentityMap { width: 0, height: 0, handles: Vec::new() }
    }

    /// The number of registered handles.
    pub fn len(&self) -> (n: usize)
        ensures
            n == self.handles@.len(),
    {
        self.handles.len()
    }

    /// Looks the handle up at a coordinate.  A stale coordinate (out of the
    /// grid, or a cleared map) yields `None`, never an error.
    pub fn lookup(&self, x: u16, y: u16) -> (res: Option<u64>)
        requires
            self.wf(),
        ensures
            res == self.spec_lookup(x as int, y as int),
    {
        if x < self.width && y < self.height && self.handles.len() > 0 {
            proof {
                lemma_grid_index_bounds(
                    self.width as int,
                    self.height as int,
                    x as int,
                    y as int,
                );
            }
            let idx: usize = (y as usize) * (self.width as usize) + (x as usize);
            Some(self.handles[idx])
        } else {
            None
        }
    }

    /// Empties the map and hands every registered handle back, in row-major
    /// order, so that the host can destroy the visual objects before any
    /// replacement is registered.
    pub fn take_all(&mut self) -> (gone: Vec<u64>)
        ensures
            final(self).wf(),
            final(self).handles@.len() == 0,
            final(self).width == old(self).width,
            final(self).height == old(self).height,
            gone@ == old(self).handles@,
    {
        let mut out: Vec<u64> = Vec::new();
        core::mem::swap(&mut out, &mut self.handles);
        out
    }

    /// Registers a full grid of fresh handles, replacing whatever was there.
    /// Afterwards the map is complete: one handle per coordinate.
    pub fn rebuild(&mut self, width: u16, height: u16, fresh: Vec<u64>)
        requires
            fresh@.len() == width as int * height as int,
        ensures
            final(self).wf(),
            final(self).is_complete(),
            final(self).width == width,
            final(self).height == height,
            final(self).handles@ == fresh@,
            forall|x: int, y: int|
                final(self).in_bounds(x, y) ==> final(self).spec_lookup(x, y) == Some(
                    fresh@[y * width as int + x],
                ) || width as int * height as int == 0,
    {
        self.width = width;
        self.height = height;
        self.handles = fresh;
        proof {
            assert forall|x: int, y: int| self.in_bounds(x, y) implies self.spec_lookup(x, y)
                == Some(self.handles@[y * width as int + x]) || width as int * height as int
                == 0 by {
                if self.in_bounds(x, y) {
                    lemma_grid_index_bounds(width as int, height as int, x, y);
                }
            }
        }
    }
}

/// A complete identity map holds exactly one handle per coordinate: the
/// table has exactly `width * height` entries, a lookup succeeds on every
/// in-grid coordinate, fails on every other, and distinct coordinates read
/// distinct table slots.
pub proof fn lemma_identity_map_complete(m: IdentityMap)
    requires
        m.wf(),
        m.is_complete(),
        m.width as int * m.height as int > 0,
    ensures
        m.handles@.len() == m.width as int * m.height as int,
        forall|x: int, y: int|
            m.in_bounds(x, y) ==> #[trigger] m.spec_lookup(x, y) == Some(
                m.handles@[y * m.width as int + x],
            ),
        forall|x: int, y: int|
            !m.in_bounds(x, y) ==> #[trigger] m.spec_lookup(x, y) is None,
        forall|x1: int, y1: int, x2: int, y2: int|
            m.in_bounds(x1, y1) && m.in_bounds(x2, y2) && (x1 != x2 || y1 != y2)
                ==> #[trigger] (y1 * m.width as int + x1) != #[trigger] (y2 * m.width as int
                + x2),
{
    assert forall|x1: int, y1: int, x2: int, y2: int|
        m.in_bounds(x1, y1) && m.in_bounds(x2, y2) && (x1 != x2 || y1 != y2)
            implies #[trigger] (y1 * m.width as int + x1) != #[trigger] (y2 * m.width as int
            + x2) by {
        if y1 * m.width as int + x1 == y2 * m.width as int + x2 {
            lemma_grid_index_injective(
                m.width as int,
                m.height as int,
                x1,
                y1,
                x2,
                y2,
            );
        }
    }
}

} // verus!
