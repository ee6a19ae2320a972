use termgrid::cell::Cell;
use termgrid::color::{dim_color, map_color, map_color_tile, Color, NativeColor};
use termgrid::components::{font_style_for, styled_symbol, FontStyle, FromRatCell, VirtualCell};

fn rgb(r: u8, g: u8, b: u8) -> NativeColor {
    NativeColor { r, g, b }
}

#[test]
fn scene_palette_named_colors() {
    assert_eq!(map_color(Color::Reset, true), rgb(255, 255, 255));
    assert_eq!(map_color(Color::Reset, false), rgb(64, 64, 64));
    assert_eq!(map_color(Color::Black, true), rgb(0, 0, 0));
    assert_eq!(map_color(Color::Red, true), rgb(128, 0, 0));
    assert_eq!(map_color(Color::LightRed, true), rgb(255, 0, 0));
    assert_eq!(map_color(Color::White, false), rgb(255, 255, 255));
}

#[test]
fn scene_palette_indexed_is_gray_and_rgb_passes_through() {
    assert_eq!(map_color(Color::Indexed(0), true), rgb(0, 0, 0));
    assert_eq!(map_color(Color::Indexed(77), false), rgb(77, 77, 77));
    assert_eq!(map_color(Color::Indexed(255), true), rgb(255, 255, 255));
    assert_eq!(map_color(Color::Rgb(12, 34, 56), true), rgb(12, 34, 56));
    assert_eq!(map_color(Color::Rgb(12, 34, 56), false), rgb(12, 34, 56));
}

#[test]
fn tile_palette_named_colors() {
    assert_eq!(map_color_tile(Color::Reset, true), rgb(255, 255, 255));
    assert_eq!(map_color_tile(Color::Reset, false), rgb(169, 169, 169));
    assert_eq!(map_color_tile(Color::Red, true), rgb(139, 0, 0));
    assert_eq!(map_color_tile(Color::Indexed(9), true), rgb(9, 9, 9));
    assert_eq!(map_color_tile(Color::Rgb(1, 2, 3), false), rgb(1, 2, 3));
}

#[test]
fn dim_scales_each_channel_by_nine_tenths() {
    assert_eq!(dim_color(rgb(255, 215, 0)), rgb(229, 193, 0));
    assert_eq!(dim_color(rgb(10, 9, 1)), rgb(9, 8, 0));
    assert_eq!(dim_color(rgb(0, 0, 0)), rgb(0, 0, 0));
}

fn plain_virtual() -> VirtualCell {
    let mut v = VirtualCell::new(3, 1);
    v.symbol = "A".to_string();
    v.fg = rgb(200, 100, 50);
    v.bg = rgb(10, 20, 30);
    v
}

#[test]
fn derived_colors_unchanged_without_attributes() {
    let v = plain_virtual();
    let (fg, bg) = v.proper_fg_bg();
    assert_eq!(fg, rgb(200, 100, 50));
    assert_eq!(bg, rgb(10, 20, 30));
}

#[test]
fn derived_colors_reversed_swaps_and_twice_restores() {
    let mut v = plain_virtual();
    v.reversed = true;
    let (fg, bg) = v.proper_fg_bg();
    assert_eq!(fg, rgb(10, 20, 30));
    assert_eq!(bg, rgb(200, 100, 50));
    // conceptually applying reverse again: swap back
    v.reversed = false;
    let (fg2, bg2) = v.proper_fg_bg();
    assert_eq!((fg2, bg2), (rgb(200, 100, 50), rgb(10, 20, 30)));
}

#[test]
fn derived_colors_dim_darkens_both() {
    let mut v = plain_virtual();
    v.dim = true;
    let (fg, bg) = v.proper_fg_bg();
    assert_eq!(fg, rgb(180, 90, 45));
    assert_eq!(bg, rgb(9, 18, 27));
}

#[test]
fn derived_colors_hidden_uses_background_for_both() {
    let mut v = plain_virtual();
    v.hidden = true;
    let (fg, bg) = v.proper_fg_bg();
    assert_eq!(fg, rgb(10, 20, 30));
    assert_eq!(bg, rgb(10, 20, 30));
}

#[test]
fn derived_colors_reversed_then_hidden() {
    let mut v = plain_virtual();
    v.reversed = true;
    v.hidden = true;
    // reversed first: bg becomes the old fg; hidden then uses that for both
    let (fg, bg) = v.proper_fg_bg();
    assert_eq!(fg, rgb(200, 100, 50));
    assert_eq!(bg, rgb(200, 100, 50));
}

#[test]
fn styled_symbol_appends_combining_marks() {
    let base = "A".to_string();
    assert_eq!(styled_symbol(&base, false, false), "A");
    assert_eq!(styled_symbol(&base, true, false), "A\u{332}");
    assert_eq!(styled_symbol(&base, false, true), "A\u{336}");
    assert_eq!(styled_symbol(&base, true, true), "A\u{332}\u{336}");
}

#[test]
fn proper_symbol_uses_the_cell_attributes() {
    let mut v = plain_virtual();
    v.underlined = true;
    v.crossed_out = true;
    assert_eq!(v.proper_symbol(), "A\u{332}\u{336}");
}

#[test]
fn font_style_selection() {
    assert_eq!(font_style_for(false, false), FontStyle::Normal);
    assert_eq!(font_style_for(false, true), FontStyle::Italic);
    assert_eq!(font_style_for(true, false), FontStyle::Bold);
    assert_eq!(font_style_for(true, true), FontStyle::ItalicBold);
}

#[test]
fn virtual_cell_new_placeholder() {
    let v = VirtualCell::new(5, 9);
    assert_eq!(v.symbol, "\u{256c}");
    assert_eq!(v.fg, rgb(255, 255, 255));
    assert_eq!(v.bg, rgb(0, 0, 0));
    assert_eq!((v.column, v.row), (5, 9));
    assert!(!v.skip && !v.bold && !v.slow_blink);
}

#[test]
fn to_virtual_maps_cell_fields() {
    let mut c = Cell::default_cell();
    c.symbol = "W".to_string();
    c.fg = Color::Red;
    c.bg = Color::Rgb(1, 2, 3);
    c.bold = true;
    c.slow_blink = true;
    c.skip = false;
    let v = VirtualCell::to_virtual(2, 7, &c);
    assert_eq!(v.symbol, "W");
    assert_eq!(v.fg, rgb(128, 0, 0));
    assert_eq!(v.bg, rgb(1, 2, 3));
    assert_eq!(v.underline_color, rgb(128, 0, 0));
    assert!(v.bold && v.slow_blink);
    assert!(!v.italic && !v.rapid_blink && !v.skip);
    assert_eq!((v.column, v.row), (2, 7));
}
