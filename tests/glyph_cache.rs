use std::collections::HashSet;

use desktop_bios::{build_glyph_cache, glyph_slot, Font, Palette, CACHE_SLOTS, GLYPH_COUNT, NUM_FG};

fn test_font(height: usize) -> Font {
    let mut rows = Vec::new();
    for g in 0..GLYPH_COUNT {
        for y in 0..height {
            rows.push(if y == 0 { 0x81 } else { (g as u8) ^ (y as u8) });
        }
    }
    Font::new(height, rows).unwrap()
}

#[test]
fn glyph_slots_are_distinct_and_cover_the_cache() {
    let mut seen = HashSet::new();
    for g in 0..=255u8 {
        for fg in 0..16u8 {
            let s = glyph_slot(g, fg);
            assert_eq!(s, g as usize * 16 + fg as usize);
            assert!(s < CACHE_SLOTS);
            assert!(seen.insert(s));
        }
    }
    assert_eq!(seen.len(), 4096);
    assert_eq!(glyph_slot(0, 0), 0);
    assert_eq!(glyph_slot(255, 15), 4095);
    assert_eq!(glyph_slot(1, 2), 18);
}

#[test]
fn font_needs_a_supported_height_and_full_rows() {
    assert!(Font::new(16, vec![0; 4096]).is_some());
    assert!(Font::new(8, vec![0; 2048]).is_some());
    assert!(Font::new(8, vec![0; 2047]).is_none());
    assert!(Font::new(12, vec![0; 3072]).is_none());
}

#[test]
fn rendered_glyph_paints_set_bits_in_the_colour() {
    let font = test_font(8);
    assert_eq!(font.height(), 8);
    let tex = font.render_glyph(0, 0x123456);
    assert_eq!(tex.len(), 8 * 8 * 4);
    // Row 0 is 0x81: leftmost and rightmost pixels set.
    assert_eq!(&tex[0..4], &[0x12, 0x34, 0x56, 255]);
    assert_eq!(&tex[4..8], &[0, 0, 0, 0]);
    assert_eq!(&tex[28..32], &[0x12, 0x34, 0x56, 255]);
    // Row 1 of glyph 0 is 0 ^ 1 = 0x01: only the rightmost pixel.
    assert_eq!(&tex[32..36], &[0, 0, 0, 0]);
    assert_eq!(&tex[60..64], &[0x12, 0x34, 0x56, 255]);
}

#[test]
fn rendered_glyph_reads_its_own_rows() {
    let font = test_font(16);
    let tex = font.render_glyph(0xf0, 0xffffff);
    assert_eq!(tex.len(), 8 * 16 * 4);
    // Row 1 of glyph 0xf0 is 0xf1: pixels 0..=3 and 7 set.
    let row1 = &tex[32..64];
    for x in 0..8 {
        let alpha = row1[x * 4 + 3];
        let expect = if x < 4 || x == 7 { 255 } else { 0 };
        assert_eq!(alpha, expect);
    }
}

#[test]
fn cache_holds_each_glyph_in_each_text_colour() {
    let font = test_font(8);
    let palette = Palette::new();
    let cache = build_glyph_cache(&font, &palette);
    assert_eq!(cache.len(), CACHE_SLOTS);
    for (g, fg) in [(0u8, 0u8), (65, 9), (255, 15), (7, 1)] {
        let colour = palette.get(fg).unwrap();
        assert_eq!(cache[glyph_slot(g, fg)], font.render_glyph(g, colour));
    }
    assert_eq!(NUM_FG, 16);
}
