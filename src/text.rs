use vstd::prelude::*;
use vstd::arithmetic::div_mod::lemma_fundamental_div_mod_converse;

use crate::glyph::slot_of;
use crate::palette::Palette;
use crate::video::{glyph_height_of, Format, VideoMode};

verus! {

/// Size of the video RAM: enough for 640x480 at one byte per pixel.
pub const FRAMEBUFFER_LEN: usize = 307200;

/// Text cells that the start-up screen blanks: 80 columns by 60 rows.
pub const STARTUP_CELLS: usize = 4800;

/// Attribute of the start-up screen: white (15) on black (0), no blink.
pub const WHITE_ON_BLACK: u8 = 0x0f;

/// The foreground palette index of an attribute byte (its low four bits).
pub open spec fn attr_fg(attr: u8) -> u8 {
    (attr % 16) as u8
}

/// The background palette index of an attribute byte (bits four to six).
pub open spec fn attr_bg(attr: u8) -> u8 {
    ((attr / 16) % 8) as u8
}

/// The blink flag of an attribute byte (its top bit).
pub open spec fn attr_blink(attr: u8) -> bool {
    attr >= 128
}

/// Packs a text attribute: `blink | bg (3 bits) | fg (4 bits)`, high bit first.
pub fn make_attr(fg: u8, bg: u8, blink: bool) -> (r: u8)
    requires
        fg < 16,
        bg < 8,
    ensures
        attr_fg(r) == fg,
        attr_bg(r) == bg,
        attr_blink(r) == blink,
{
    let top: u8 = if blink {
        128
    } else {
        0
    };
    top + bg * 16 + fg
}

pub fn foreground_of(attr: u8) -> (r: u8)
    ensures
        r == attr_fg(attr),
        r < 16,
{
    attr % 16
}

pub fn background_of(attr: u8) -> (r: u8)
    ensures
        r == attr_bg(attr),
        r < 8,
{
    (attr / 16) % 8
}

/// The video RAM at start-up: the first 80x60 cells hold a blank in white on
/// black, and every other byte is zero.
pub open spec fn startup_byte(i: int) -> u8 {
    if i < 2 * STARTUP_CELLS {
        if i % 2 == 0 {
            0x20u8
        } else {
            WHITE_ON_BLACK
        }
    } else {
        0u8
    }
}

pub fn startup_framebuffer() -> (r: Vec<u8>)
    ensures
        r@.len() == FRAMEBUFFER_LEN,
        forall|i: int| 0 <= i < FRAMEBUFFER_LEN ==> r@[i] == startup_byte(i),
{
    let mut out: Vec<u8> = Vec::new();
    let mut i: usize = 0;
    while i < FRAMEBUFFER_LEN
        invariant
            i <= FRAMEBUFFER_LEN,
            out@.len() == i,
            forall|k: int| 0 <= k < i ==> out@[k] == startup_byte(k),
        decreases FRAMEBUFFER_LEN - i,
    {
        let b: u8 = if i < 2 * STARTUP_CELLS {
            if i % 2 == 0 {
                0x20
            } else {
                WHITE_ON_BLACK
            }
        } else {
            0
        };
        out.push(b);
        i = i + 1;
    }
    out
}

/// What the presentation loop paints for one text cell: a background
/// rectangle of `8 x height` at (`x`, `y`), then the cached glyph `slot`
/// over it.
#[derive(Clone, Copy, Debug, PartialEq, Eq, Structural)]
pub struct CellDraw {
    pub x: u16,
    pub y: u16,
    pub height: u16,
    pub background: u32,
    pub slot: usize,
}

/// The drawing of cell `i` (row-major) of a screen `cols` cells wide, with
/// glyphs `height` rows tall, from the video RAM `fb` and the palette.
pub open spec fn cell_spec(cols: int, height: int, fb: Seq<u8>, palette: Seq<u32>, i: int) -> CellDraw {
    let glyph = fb[2 * i];
    let attr = fb[2 * i + 1];
    CellDraw {
        x: ((i % cols) * 8) as u16,
        y: ((i / cols) * height) as u16,
        height: height as u16,
        background: palette[attr_bg(attr) as int],
        slot: slot_of(glyph as int, attr_fg(attr) as int) as usize,
    }
}

/// The frame of `mode`: `None` unless it is a text mode, else one drawing
/// per cell, row by row.
pub open spec fn frame_spec(mode: VideoMode, fb: Seq<u8>, palette: Seq<u32>) -> Option<Seq<CellDraw>> {
    match (mode.text_width_spec(), mode.text_height_spec()) {
        (Some(cols), Some(rows)) => Some(
            Seq::new(
                (cols * rows) as nat,
                |i: int|
                    cell_spec(
                        cols as int,
                        glyph_height_of(mode.format_spec()) as int,
                        fb,
                        palette,
                        i,
                    ),
            ),
        ),
        _ => None,
    }
}

/// Lays out one frame of text: for each cell, row by row, where its
/// background goes and in which colour, and which cached glyph goes over it.
/// A mode that is not a text mode gives `None`: the frame is skipped.
pub fn compose_text_frame(mode: VideoMode, fb: &[u8], palette: &Palette) -> (r: Option<
    Vec<CellDraw>,
>)
    requires
        fb@.len() == FRAMEBUFFER_LEN,
        palette.wf(),
    ensures
        r matches Some(v) ==> frame_spec(mode, fb@, palette@) == Some(v@),
        r is None ==> frame_spec(mode, fb@, palette@) is None,
{
    let height: u16 = match mode.format() {
        Format::Text8x16 => 16,
        Format::Text8x8 => 8,
        _ => {
            return None;
        },
    };
    let (cols, rows) = match (mode.text_width(), mode.text_height()) {
        (Some(c), Some(r)) => (c, r),
        _ => {
            return None;
        },
    };
    assert(cols <= 100 && rows <= 75);
    assert(height == glyph_height_of(mode.format_spec()));
    let ghost fbs = fb@;
    let ghost pal = palette@;
    let mut out: Vec<CellDraw> = Vec::new();
    let mut row: u16 = 0;
    while row < rows
        invariant
            cols <= 100,
            rows <= 75,
            height == 8 || height == 16,
            rows * height <= 600,
            fbs == fb@,
            pal == palette@,
            fb@.len() == FRAMEBUFFER_LEN,
            palette.wf(),
            row <= rows,
            out@.len() == row * cols,
            forall|j: int|
                0 <= j < out@.len() ==> out@[j] == cell_spec(cols as int, height as int, fbs, pal, j),
        decreases rows - row,
    {
        let mut col: u16 = 0;
        while col < cols
            invariant
                cols <= 100,
                rows <= 75,
                height == 8 || height == 16,
                rows * height <= 600,
                fbs == fb@,
                pal == palette@,
                fb@.len() == FRAMEBUFFER_LEN,
                palette.wf(),
                row < rows,
                col <= cols,
                out@.len() == row * cols + col,
                forall|j: int|
                    0 <= j < out@.len() ==> out@[j] == cell_spec(
                        cols as int,
                        height as int,
                        fbs,
                        pal,
                        j,
                    ),
            decreases cols - col,
        {
            assert(row * cols + col < 7500 && row * height < 600) by (nonlinear_arith)
                requires
                    row < rows,
                    col < cols,
                    cols <= 100,
                    rows <= 75,
                    rows * height <= 600,
            ;
            let cell: usize = row as usize * cols as usize + col as usize;
            let glyph = fb[2 * cell];
            let attr = fb[2 * cell + 1];
            let fg = foreground_of(attr);
            let bg = background_of(attr);
            let background = match palette.get(bg) {
                Some(c) => c,
                None => 0,
            };
            let draw = CellDraw {
                x: col * 8,
                y: row * height,
                height,
                background,
                slot: glyph as usize * 16 + fg as usize,
            };
            proof {
                lemma_fundamental_div_mod_converse(cell as int, cols as int, row as int, col as int);
            }
            out.push(draw);
            col = col + 1;
        }
        assert((row + 1) * cols == row * cols + cols) by (nonlinear_arith);
        row = row + 1;
    }
    proof {
        assert(out@ =~= Seq::new(
            (cols * rows) as nat,
            |i: int| cell_spec(cols as int, height as int, fbs, pal, i),
        )) by {
            assert(rows * cols == cols * rows) by (nonlinear_arith);
        }
    }
    Some(out)
}

} // verus!
