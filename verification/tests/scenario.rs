use termgrid::backend::TermBackend;
use termgrid::cell::Cell;
use termgrid::color::Color;
use termgrid::lifecycle::{FramePhase, Lifecycle, LifecycleEvent};

#[test]
fn draw_skip_and_rebuild_scenario() {
    // a 4 x 2 grid
    let mut backend = TermBackend::new(4, 2, 30, "", "", "", "");

    // draw 'A' at (0,0) with a red foreground, and a skip cell at (1,0)
    let mut a = Cell::default_cell();
    a.symbol = "A".to_string();
    a.fg = Color::Red;
    let mut skipped = Cell::default_cell();
    skipped.symbol = "#".to_string();
    skipped.skip = true;
    backend.draw(&vec![(0u16, 0u16, a), (1u16, 0u16, skipped)]);

    // the pending-update queue holds exactly the one non-skip entry
    assert_eq!(backend.vcupdate.len(), 1);
    let (x, y, ref queued) = backend.vcupdate[0];
    assert_eq!((x, y), (0, 0));
    assert_eq!(queued.symbol, "A");
    assert_eq!(queued.fg, Color::Red);

    // the buffer at (1,0) is unchanged from the default
    let untouched = backend.buffer.get(1, 0);
    assert_eq!(untouched.symbol, " ");
    assert_eq!(untouched.fg, Color::Reset);
    assert!(!untouched.skip);

    // after a full rebuild the identity map has 8 entries, one per coordinate
    let fresh: Vec<u64> = (0..8).collect();
    backend.register_cells(fresh);
    assert_eq!(backend.entity_map.len(), 8);
    for yy in 0..2u16 {
        for xx in 0..4u16 {
            assert!(backend.entity_map.lookup(xx, yy).is_some());
        }
    }
}

/// A miniature host frame loop: the lifecycle machine tells the host what to
/// do each frame, the host performs it against the backend and reports back.
#[test]
fn frame_loop_reaches_steady_state_and_patches_incrementally() {
    let mut backend = TermBackend::new(3, 2, 30, "n.ttf", "", "", "");
    let mut lc = Lifecycle::new();
    let mut next_handle: u64 = 1;
    let mut destroyed: Vec<u64> = Vec::new();

    if backend.take_host_init() {
        lc.advance(LifecycleEvent::Started);
    }

    for _frame in 0..8 {
        match lc.frame_phase() {
            FramePhase::Idle => {}
            FramePhase::LoadFonts => {
                // new() configures all four font slots, empty paths included
                let reqs = backend.font_requests();
                assert_eq!(reqs.len(), 4);
                lc.advance(LifecycleEvent::FontsLoaded);
            }
            FramePhase::ClearCells => {
                let gone = backend.clear_cells();
                destroyed.extend(gone);
                lc.advance(LifecycleEvent::Cleared);
            }
            FramePhase::InitCells => {
                let count = backend.buffer.cells.len() as u64;
                let fresh: Vec<u64> = (next_handle..next_handle + count).collect();
                next_handle += count;
                backend.register_cells(fresh);
                lc.advance(LifecycleEvent::Inited);
            }
            FramePhase::Steady => {
                if !lc.is_steady() {
                    lc.advance(LifecycleEvent::FirstResizeDone);
                }
                let _ = backend.drain_updates();
                let _ = backend.cursor_step();
            }
        }
    }
    assert!(lc.is_steady());
    assert_eq!(backend.entity_map.len(), 6);
    assert!(destroyed.is_empty(), "the first rebuild had nothing to destroy");

    // steady state: one draw, one drain, exactly that update comes out
    let mut c = Cell::default_cell();
    c.symbol = "x".to_string();
    backend.draw(&vec![(2u16, 1u16, c)]);
    let updates = backend.drain_updates();
    assert_eq!(updates.len(), 1);
    assert_eq!(updates[0].handle, 6);
    assert_eq!(updates[0].cell.symbol, "x");

    // a resize invalidates everything: the machine re-enters clearing, the
    // old handles come back for destruction, and a rebuild follows
    backend.resize(2, 2);
    lc.advance(LifecycleEvent::Resized);
    assert_eq!(lc.frame_phase(), FramePhase::ClearCells);
    let gone = backend.clear_cells();
    assert_eq!(gone.len(), 6);
    lc.advance(LifecycleEvent::Cleared);
    backend.register_cells(vec![7, 8, 9, 10]);
    lc.advance(LifecycleEvent::Inited);
    assert!(lc.is_steady());
    assert_eq!(backend.entity_map.len(), 4);
}
