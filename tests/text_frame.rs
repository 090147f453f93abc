use desktop_bios::{
    background_of, compose_text_frame, foreground_of, make_attr, startup_framebuffer, CellDraw,
    Format, Palette, Timing, VideoMode, FRAMEBUFFER_LEN, WHITE_ON_BLACK,
};

#[test]
fn attribute_packing() {
    assert_eq!(make_attr(15, 0, false), WHITE_ON_BLACK);
    assert_eq!(make_attr(15, 0, true), 0x8f);
    assert_eq!(make_attr(9, 4, false), 0x49);
    assert_eq!(foreground_of(0xc9), 9);
    assert_eq!(background_of(0xc9), 4);
}

#[test]
fn startup_screen_is_blank_white_on_black() {
    let fb = startup_framebuffer();
    assert_eq!(fb.len(), FRAMEBUFFER_LEN);
    assert_eq!(fb[0], b' ');
    assert_eq!(fb[1], 0x0f);
    assert_eq!(fb[9598], b' ');
    assert_eq!(fb[9599], 0x0f);
    assert_eq!(fb[9600], 0);
    assert_eq!(fb[FRAMEBUFFER_LEN - 1], 0);
}

#[test]
fn frame_of_the_startup_mode() {
    let fb = startup_framebuffer();
    let palette = Palette::new();
    let cells = compose_text_frame(VideoMode(0), &fb, &palette).unwrap();
    assert_eq!(cells.len(), 80 * 30);
    assert_eq!(
        cells[0],
        CellDraw { x: 0, y: 0, height: 16, background: 0, slot: 32 * 16 + 15 }
    );
    assert_eq!(cells[81].x, 8);
    assert_eq!(cells[81].y, 16);
    assert_eq!(cells[80 * 30 - 1].x, 79 * 8);
    assert_eq!(cells[80 * 30 - 1].y, 29 * 16);
}

#[test]
fn frame_reads_glyph_and_colours_of_each_cell() {
    let mut fb = startup_framebuffer();
    fb[10] = b'A';
    fb[11] = make_attr(9, 4, false);
    let mut palette = Palette::new();
    palette.set(4, 0x0a0b0c);
    let mode = VideoMode::new(Timing::T640x480, Format::Text8x8);
    let cells = compose_text_frame(mode, &fb, &palette).unwrap();
    assert_eq!(cells.len(), 80 * 60);
    assert_eq!(
        cells[5],
        CellDraw { x: 40, y: 0, height: 8, background: 0x0a0b0c, slot: 65 * 16 + 9 }
    );
}

#[test]
fn non_text_mode_skips_the_frame() {
    let fb = startup_framebuffer();
    let palette = Palette::new();
    let mode = VideoMode::new(Timing::T640x480, Format::Chunky8);
    assert_eq!(compose_text_frame(mode, &fb, &palette), None);
    assert_eq!(compose_text_frame(VideoMode(0x70), &fb, &palette), None);
}
