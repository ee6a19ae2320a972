use termgrid::backend::{ClearType, TermBackend};
use termgrid::cell::Cell;
use termgrid::color::Color;
use termgrid::components::FontStyle;

fn letter(ch: &str) -> Cell {
    let mut c = Cell::default_cell();
    c.symbol = ch.to_string();
    c
}

fn is_blank(c: &Cell) -> bool {
    c.symbol == " " && c.fg == Color::Reset && c.bg == Color::Reset && !c.bold && !c.skip
}

#[test]
fn new_backend_fields() {
    let b = TermBackend::new(7, 5, 24, "fonts/n.ttf", "fonts/i.ttf", "fonts/b.ttf", "fonts/ib.ttf");
    assert_eq!(b.width, 7);
    assert_eq!(b.height, 5);
    assert_eq!(b.term_font_size, 24);
    assert_eq!(b.buffer.cells.len(), 35);
    assert_eq!(b.vcupdate.len(), 0);
    assert_eq!(b.entity_map.handles.len(), 0);
    assert!(!b.cursor);
    assert_eq!(b.cursor_pos, (0, 0));
    assert!(!b.host_initialized);
    assert!(!b.manual_window_sizing);
    assert_eq!(b.normal_font_path.as_deref(), Some("fonts/n.ttf"));
    assert_eq!(b.italicbold_font_path.as_deref(), Some("fonts/ib.ttf"));
}

#[test]
fn default_backend_is_forty_by_twentyfive() {
    let b = TermBackend::default();
    assert_eq!(b.width, 40);
    assert_eq!(b.height, 25);
    assert_eq!(b.term_font_size, 30);
    assert!(b.normal_font_path.is_none());
    assert_eq!(b.buffer.cells.len(), 1000);
}

#[test]
fn draw_merges_and_queues_in_order() {
    let mut b = TermBackend::new(4, 2, 30, "", "", "", "");
    let mut a = letter("A");
    a.fg = Color::Red;
    let batch = vec![(0u16, 0u16, a), (1u16, 0u16, letter("B")), (0u16, 0u16, letter("C"))];
    b.draw(&batch);
    // queue keeps every non-skip entry in order, not deduplicated
    assert_eq!(b.vcupdate.len(), 3);
    assert_eq!(b.vcupdate[0].2.symbol, "A");
    assert_eq!(b.vcupdate[1].2.symbol, "B");
    assert_eq!(b.vcupdate[2].2.symbol, "C");
    // in the buffer the later write for (0,0) wins
    assert_eq!(b.buffer.get(0, 0).symbol, "C");
    assert_eq!(b.buffer.get(1, 0).symbol, "B");
}

#[test]
fn draw_skip_cell_changes_nothing() {
    let mut b = TermBackend::new(4, 2, 30, "", "", "", "");
    b.buffer.set(1, 0, letter("K"));
    let mut skip_cell = letter("S");
    skip_cell.skip = true;
    let batch = vec![(1u16, 0u16, skip_cell)];
    b.draw(&batch);
    assert_eq!(b.vcupdate.len(), 0);
    assert_eq!(b.buffer.get(1, 0).symbol, "K");
}

#[test]
fn cursor_show_hide_and_position() {
    let mut b = TermBackend::default();
    assert!(!b.cursor);
    b.show_cursor();
    assert!(b.cursor);
    b.hide_cursor();
    assert!(!b.cursor);
    b.set_cursor(9, 7);
    assert_eq!(b.get_cursor(), (9, 7));
}

#[test]
fn clear_blanks_the_buffer() {
    let mut b = TermBackend::new(3, 2, 30, "", "", "", "");
    b.buffer.set(2, 1, letter("X"));
    b.clear();
    for x in 0..3u16 {
        for y in 0..2u16 {
            assert!(is_blank(b.buffer.get(x, y)));
        }
    }
}

fn backend_full_of(ch: &str, w: u16, h: u16) -> TermBackend {
    let mut b = TermBackend::new(w, h, 30, "", "", "", "");
    for x in 0..w {
        for y in 0..h {
            b.buffer.set(x, y, letter(ch));
        }
    }
    b
}

#[test]
fn clear_region_all() {
    let mut b = backend_full_of("F", 3, 3);
    b.set_cursor(1, 1);
    b.clear_region(ClearType::All);
    for x in 0..3u16 {
        for y in 0..3u16 {
            assert!(is_blank(b.buffer.get(x, y)));
        }
    }
}

#[test]
fn clear_region_after_cursor() {
    let mut b = backend_full_of("F", 3, 3);
    b.set_cursor(1, 1);
    // linear index of the cursor is 4; cells 5.. are reset, 0..=4 stay
    b.clear_region(ClearType::AfterCursor);
    for i in 0..9usize {
        let x = (i % 3) as u16;
        let y = (i / 3) as u16;
        if i <= 4 {
            assert_eq!(b.buffer.get(x, y).symbol, "F");
        } else {
            assert!(is_blank(b.buffer.get(x, y)));
        }
    }
}

#[test]
fn clear_region_before_cursor() {
    let mut b = backend_full_of("F", 3, 3);
    b.set_cursor(1, 1);
    // cells 0..4 are reset, 4.. stay (the cursor cell itself stays)
    b.clear_region(ClearType::BeforeCursor);
    for i in 0..9usize {
        let x = (i % 3) as u16;
        let y = (i / 3) as u16;
        if i < 4 {
            assert!(is_blank(b.buffer.get(x, y)));
        } else {
            assert_eq!(b.buffer.get(x, y).symbol, "F");
        }
    }
}

#[test]
fn clear_region_current_line_resets_exactly_the_cursor_row() {
    let mut b = backend_full_of("F", 3, 3);
    b.set_cursor(1, 1);
    b.clear_region(ClearType::CurrentLine);
    for x in 0..3u16 {
        assert_eq!(b.buffer.get(x, 0).symbol, "F", "row above must be untouched");
        assert!(is_blank(b.buffer.get(x, 1)), "cursor row must be reset");
        assert_eq!(b.buffer.get(x, 2).symbol, "F", "row below must be untouched");
    }
}

#[test]
fn clear_region_until_newline() {
    let mut b = backend_full_of("F", 3, 3);
    b.set_cursor(1, 1);
    b.clear_region(ClearType::UntilNewLine);
    assert_eq!(b.buffer.get(0, 1).symbol, "F");
    assert!(is_blank(b.buffer.get(1, 1)));
    assert!(is_blank(b.buffer.get(2, 1)));
    for x in 0..3u16 {
        assert_eq!(b.buffer.get(x, 0).symbol, "F");
        assert_eq!(b.buffer.get(x, 2).symbol, "F");
    }
}

#[test]
fn append_lines_within_remaining_rows_only_moves_cursor() {
    let mut b = backend_full_of("F", 3, 4);
    b.set_cursor(1, 0);
    b.append_lines(2);
    assert_eq!(b.get_cursor(), (2, 2));
    for x in 0..3u16 {
        for y in 0..4u16 {
            assert_eq!(b.buffer.get(x, y).symbol, "F");
        }
    }
}

#[test]
fn append_lines_scrolls_rows_up_and_blanks_last_row() {
    let mut b = TermBackend::new(2, 3, 30, "", "", "", "");
    b.buffer.set(0, 0, letter("a"));
    b.buffer.set(1, 0, letter("b"));
    b.buffer.set(0, 1, letter("c"));
    b.buffer.set(1, 1, letter("d"));
    b.buffer.set(0, 2, letter("e"));
    b.buffer.set(1, 2, letter("f"));
    b.set_cursor(0, 2);
    b.append_lines(1);
    // every row moved up by one, the freed last row is blank
    assert_eq!(b.buffer.get(0, 0).symbol, "c");
    assert_eq!(b.buffer.get(1, 0).symbol, "d");
    assert_eq!(b.buffer.get(0, 1).symbol, "e");
    assert_eq!(b.buffer.get(1, 1).symbol, "f");
    assert!(is_blank(b.buffer.get(0, 2)));
    assert!(is_blank(b.buffer.get(1, 2)));
    // cursor column advanced, row stays clamped to the last row
    assert_eq!(b.get_cursor(), (1, 2));
}

#[test]
fn append_lines_full_height_rotation_resets() {
    // rotating by height - 1 is treated as a plain reset
    let mut b = backend_full_of("F", 2, 2);
    b.set_cursor(0, 1);
    b.append_lines(1);
    for x in 0..2u16 {
        for y in 0..2u16 {
            assert!(is_blank(b.buffer.get(x, y)));
        }
    }
    assert_eq!(b.get_cursor(), (1, 1));
}

#[test]
fn append_lines_clamps_cursor_at_edges() {
    let mut b = TermBackend::new(3, 3, 30, "", "", "", "");
    b.set_cursor(2, 0);
    b.append_lines(1);
    assert_eq!(b.get_cursor(), (2, 1));
    b.set_cursor(2, 2);
    b.append_lines(5);
    assert_eq!(b.get_cursor(), (2, 2));
}

#[test]
fn size_and_window_size() {
    let mut b = TermBackend::new(12, 9, 30, "", "", "", "");
    assert_eq!(b.size(), (12, 9));
    let ws = b.window_size();
    assert_eq!(ws.columns_rows, (12, 9));
    assert_eq!(ws.pixels, (600, 480));
    b.flush();
    assert_eq!(b.size(), (12, 9));
}

#[test]
fn resize_records_new_dims_and_blanks() {
    let mut b = backend_full_of("F", 3, 3);
    b.resize(5, 2);
    assert_eq!(b.size(), (5, 2));
    assert_eq!(b.buffer.cells.len(), 10);
    for x in 0..5u16 {
        for y in 0..2u16 {
            assert!(is_blank(b.buffer.get(x, y)));
        }
    }
}

#[test]
fn manual_window_sizing_toggle() {
    let mut b = TermBackend::default();
    assert!(!b.manual_window_sizing);
    b.manual_window_sizing(true);
    assert!(b.manual_window_sizing);
    b.manual_window_sizing(false);
    assert!(!b.manual_window_sizing);
}

#[test]
fn font_requests_lists_configured_paths_in_order() {
    let b = TermBackend::new(2, 2, 30, "n.ttf", "i.ttf", "b.ttf", "ib.ttf");
    let reqs = b.font_requests();
    assert_eq!(reqs.len(), 4);
    assert_eq!(reqs[0].0, FontStyle::Normal);
    assert_eq!(reqs[0].1, "n.ttf");
    assert_eq!(reqs[1].0, FontStyle::Italic);
    assert_eq!(reqs[2].0, FontStyle::Bold);
    assert_eq!(reqs[3].0, FontStyle::ItalicBold);
    assert_eq!(reqs[3].1, "ib.ttf");

    let d = TermBackend::default();
    assert_eq!(d.font_requests().len(), 0);
}

#[test]
fn set_font_handle_stores_per_style() {
    let mut b = TermBackend::default();
    b.set_font_handle(FontStyle::Normal, 11);
    b.set_font_handle(FontStyle::Italic, 22);
    b.set_font_handle(FontStyle::Bold, 33);
    b.set_font_handle(FontStyle::ItalicBold, 44);
    assert_eq!(b.normal_handle, 11);
    assert_eq!(b.italic_handle, 22);
    assert_eq!(b.bold_handle, 33);
    assert_eq!(b.italicbold_handle, 44);
}
