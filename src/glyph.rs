use vstd::prelude::*;
use vstd::arithmetic::div_mod::lemma_fundamental_div_mod_converse;

use crate::palette::{blue, blue_of, green, green_of, red, red_of, Palette};

verus! {

/// Number of glyph codes in a font.
pub const GLYPH_COUNT: usize = 256;

/// Text foreground colours: the first sixteen palette slots.
pub const NUM_FG: usize = 16;

/// Slots in a glyph cache: one per glyph code and foreground colour.
pub const CACHE_SLOTS: usize = 4096;

/// Glyphs are eight pixels wide.
pub const GLYPH_WIDTH: usize = 8;

/// Bytes per pixel of a rendered glyph (red, green, blue, alpha).
pub const TEXEL_BYTES: usize = 4;

/// The cache slot of glyph `glyph` drawn in foreground colour `fg`.
pub open spec fn slot_of(glyph: int, fg: int) -> int {
    glyph * 16 + fg
}

/// Whether pixel `x` (0 at the left) of a glyph row is set: the leftmost
/// pixel is the row's most significant bit.
pub open spec fn pixel_on(row: u8, x: int) -> bool {
    (row >> ((7 - x) as u8)) & 1u8 == 1u8
}

/// Byte `k` of a rendered pixel: the colour, opaque, where the glyph is set,
/// and fully transparent elsewhere.
pub open spec fn texel_byte(on: bool, colour: u32, k: int) -> u8 {
    if !on {
        0
    } else if k == 0 {
        red_of(colour)
    } else if k == 1 {
        green_of(colour)
    } else if k == 2 {
        blue_of(colour)
    } else {
        255
    }
}

/// Byte `i` of glyph `glyph` rendered in `colour` from a font of the given
/// rows and height; pixels run left to right, then top to bottom.
pub open spec fn texture_byte(rows: Seq<u8>, height: int, glyph: int, colour: u32, i: int) -> u8 {
    let p = i / 4;
    texel_byte(pixel_on(rows[glyph * height + p / 8], p % 8), colour, i % 4)
}

/// A bitmap font of 256 glyphs, eight pixels wide, one byte per pixel row.
pub struct Font {
    height: usize,
    rows: Vec<u8>,
}

impl Font {
    pub closed spec fn height_spec(&self) -> int {
        self.height as int
    }

    pub closed spec fn rows_spec(&self) -> Seq<u8> {
        self.rows@
    }

    /// The two supported glyph heights, and one row byte per glyph row.
    pub open spec fn wf(&self) -> bool {
        &&& (self.height_spec() == 8 || self.height_spec() == 16)
        &&& self.rows_spec().len() == GLYPH_COUNT * self.height_spec()
    }

    /// The glyph `glyph` rendered in `colour`, as RGBA bytes.
    pub open spec fn texture_spec(&self, glyph: int, colour: u32) -> Seq<u8> {
        Seq::new(
            (32 * self.height_spec()) as nat,
            |i: int| texture_byte(self.rows_spec(), self.height_spec(), glyph, colour, i),
        )
    }

    /// A font from its glyph height and its rows, glyph after glyph; `None`
    /// unless the height is 8 or 16 and there are 256 glyphs of rows.
    pub fn new(height: usize, rows: Vec<u8>) -> (r: Option<Font>)
        ensures
            (height == 8 || height == 16) && rows@.len() == GLYPH_COUNT * height <==> r.is_some(),
            r matches Some(f) ==> f.wf() && f.height_spec() == height && f.rows_spec() == rows@,
    {
        if (height == 8 || height == 16) && rows.len() == GLYPH_COUNT * height {
            Some(Font { height, rows })
        } else {
            None
        }
    }

    pub fn height(&self) -> (r: usize)
        ensures
            r == self.height_spec(),
    {
        self.height
    }

    /// Renders glyph `glyph` in `colour` on a transparent background.
    pub fn render_glyph(&self, glyph: u8, colour: u32) -> (r: Vec<u8>)
        requires
            self.wf(),
        ensures
            r@ == self.texture_spec(glyph as int, colour),
    {
        let h = self.height;
        assert(glyph * h + h <= GLYPH_COUNT * h && glyph * h <= 255 * 16) by (nonlinear_arith)
            requires
                glyph < 256,
                h <= 16,
        ;
        let base = glyph as usize * h;
        let (cr, cg, cb) = (red(colour), green(colour), blue(colour));
        let mut out: Vec<u8> = Vec::new();
        let mut y: usize = 0;
        while y < h
            invariant
                self.wf(),
                h == self.height_spec(),
                base == glyph * h,
                glyph * h + h <= self.rows_spec().len(),
                cr == red_of(colour) && cg == green_of(colour) && cb == blue_of(colour),
                y <= h,
                out@.len() == y * 32,
                forall|i: int|
                    0 <= i < out@.len() ==> out@[i] == texture_byte(
                        self.rows_spec(),
                        h as int,
                        glyph as int,
                        colour,
                        i,
                    ),
            decreases h - y,
        {
            let row = self.rows[base + y];
            let mut x: u8 = 0;
            while x < 8
                invariant
                    self.wf(),
                    h == self.height_spec(),
                    base == glyph * h,
                    y < h,
                    glyph * h + h <= self.rows_spec().len(),
                    row == self.rows_spec()[glyph * h + y],
                    cr == red_of(colour) && cg == green_of(colour) && cb == blue_of(colour),
                    x <= 8,
                    out@.len() == (y * 8 + x) * 4,
                    forall|i: int|
                        0 <= i < out@.len() ==> out@[i] == texture_byte(
                            self.rows_spec(),
                            h as int,
                            glyph as int,
                            colour,
                            i,
                        ),
                decreases 8 - x,
            {
                let on = (row >> (7 - x)) & 1u8 == 1u8;
                let start = out.len();
                if on {
                    out.push(cr);
                    out.push(cg);
                    out.push(cb);
                    out.push(255);
                } else {
                    out.push(0);
                    out.push(0);
                    out.push(0);
                    out.push(0);
                }
                proof {
                    let p = y * 8 + x;
                    lemma_fundamental_div_mod_converse(p, 8, y as int, x as int);
                    lemma_fundamental_div_mod_converse(start + 0, 4, p, 0);
                    lemma_fundamental_div_mod_converse(start + 1, 4, p, 1);
                    lemma_fundamental_div_mod_converse(start + 2, 4, p, 2);
                    lemma_fundamental_div_mod_converse(start + 3, 4, p, 3);
                    assert forall|i: int| 0 <= i < out@.len() implies out@[i] == texture_byte(
                        self.rows_spec(),
                        h as int,
                        glyph as int,
                        colour,
                        i,
                    ) by {
                        if i >= start {
                            assert(out@[start + (i - start)] == out@[i]);
                        }
                    }
                }
                x = x + 1;
            }
            y = y + 1;
        }
        assert(out@ =~= self.texture_spec(glyph as int, colour));
        out
    }
}

/// The cache slot of glyph `glyph` in foreground colour `fg`.
pub fn glyph_slot(glyph: u8, fg: u8) -> (r: usize)
    requires
        fg < NUM_FG,
    ensures
        r == slot_of(glyph as int, fg as int),
        r < CACHE_SLOTS,
{
    glyph as usize * NUM_FG + fg as usize
}

/// Slot addressing is a bijection between (glyph, foreground) pairs and the
/// 4096 cache slots: distinct pairs never share a slot, and every slot
/// belongs to one pair.
pub proof fn lemma_glyph_slot_bijective(g1: int, f1: int, g2: int, f2: int)
    requires
        0 <= g1 < GLYPH_COUNT,
        0 <= f1 < NUM_FG,
        0 <= g2 < GLYPH_COUNT,
        0 <= f2 < NUM_FG,
    ensures
        0 <= slot_of(g1, f1) < CACHE_SLOTS,
        slot_of(g1, f1) == slot_of(g2, f2) ==> g1 == g2 && f1 == f2,
        forall|s: int|
            0 <= s < CACHE_SLOTS ==> 0 <= #[trigger] (s / 16) < GLYPH_COUNT && s == slot_of(
                s / 16,
                s % 16,
            ),
{
    lemma_fundamental_div_mod_converse(slot_of(g1, f1), 16, g1, f1);
    lemma_fundamental_div_mod_converse(slot_of(g2, f2), 16, g2, f2);
    assert forall|s: int| 0 <= s < CACHE_SLOTS implies 0 <= #[trigger] (s / 16) < GLYPH_COUNT
        && s == slot_of(s / 16, s % 16) by {
        assert(0 <= s / 16 < 256 && s == (s / 16) * 16 + s % 16) by (nonlinear_arith)
            requires
                0 <= s < 4096,
        ;
    }
}

/// Renders every glyph of `font` in each of the sixteen text foreground
/// colours of `palette`; the result is indexed by [`glyph_slot`].
pub fn build_glyph_cache(font: &Font, palette: &Palette) -> (r: Vec<Vec<u8>>)
    requires
        font.wf(),
        palette.wf(),
    ensures
        r@.len() == CACHE_SLOTS,
        forall|g: int, f: int|
            0 <= g < GLYPH_COUNT && 0 <= f < NUM_FG ==> #[trigger] r@[slot_of(g, f)]@
                == font.texture_spec(g, palette@[f]),
{
    let mut cache: Vec<Vec<u8>> = Vec::new();
    let mut glyph: usize = 0;
    while glyph < GLYPH_COUNT
        invariant
            font.wf(),
            palette.wf(),
            glyph <= GLYPH_COUNT,
            cache@.len() == glyph * 16,
            forall|g: int, f: int|
                0 <= g < glyph && 0 <= f < NUM_FG ==> #[trigger] cache@[slot_of(g, f)]@
                    == font.texture_spec(g, palette@[f]),
        decreases GLYPH_COUNT - glyph,
    {
        let mut fg: usize = 0;
        while fg < NUM_FG
            invariant
                font.wf(),
                palette.wf(),
                glyph < GLYPH_COUNT,
                fg <= NUM_FG,
                cache@.len() == glyph * 16 + fg,
                forall|g: int, f: int|
                    0 <= g < glyph && 0 <= f < NUM_FG ==> #[trigger] cache@[slot_of(g, f)]@
                        == font.texture_spec(g, palette@[f]),
                forall|f: int|
                    0 <= f < fg ==> #[trigger] cache@[slot_of(glyph as int, f)]@
                        == font.texture_spec(glyph as int, palette@[f]),
            decreases NUM_FG - fg,
        {
            let colour = match palette.get(fg as u8) {
                Some(c) => c,
                None => 0,
            };
            let texture = font.render_glyph(glyph as u8, colour);
            proof {
                assert forall|g: int, f: int| 0 <= g < glyph && 0 <= f < NUM_FG implies slot_of(g, f)
                    < glyph * 16 by {
                    assert(g * 16 + f < glyph * 16) by (nonlinear_arith)
                        requires
                            g < glyph,
                            f < 16,
                    ;
                }
            }
            cache.push(texture);
            fg = fg + 1;
        }
        glyph = glyph + 1;
    }
    cache
}

} // verus!
