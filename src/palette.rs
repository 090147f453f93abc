use vstd::prelude::*;

verus! {

/// Number of palette slots.
pub const PALETTE_LEN: usize = 256;

/// A colour packed as `0x00RRGGBB`.
pub open spec fn packed(r: int, g: int, b: int) -> int {
    r * 65536 + g * 256 + b
}

pub open spec fn red_of(c: u32) -> u8 {
    ((c / 65536) % 256) as u8
}

pub open spec fn green_of(c: u32) -> u8 {
    ((c / 256) % 256) as u8
}

pub open spec fn blue_of(c: u32) -> u8 {
    (c % 256) as u8
}

/// Packs three channels into `0x00RRGGBB`.
pub fn from_rgb(red: u8, green: u8, blue: u8) -> (r: u32)
    ensures
        r == packed(red as int, green as int, blue as int),
        red_of(r) == red,
        green_of(r) == green,
        blue_of(r) == blue,
{
    let r = (red as u32) * 65536 + (green as u32) * 256 + (blue as u32);
    assert(red_of(r) == red && green_of(r) == green && blue_of(r) == blue) by (nonlinear_arith)
        requires
            r == red as int * 65536 + green as int * 256 + blue as int,
    ;
    r
}

pub fn red(c: u32) -> (r: u8)
    ensures
        r == red_of(c),
{
    ((c / 65536) % 256) as u8
}

pub fn green(c: u32) -> (r: u8)
    ensures
        r == green_of(c),
{
    ((c / 256) % 256) as u8
}

pub fn blue(c: u32) -> (r: u8)
    ensures
        r == blue_of(c),
{
    (c % 256) as u8
}

/// The sixteen system colours that open the standard terminal palette.
pub open spec fn system_colour(i: int) -> int {
    if i == 0 {
        packed(0, 0, 0)
    } else if i == 1 {
        packed(128, 0, 0)
    } else if i == 2 {
        packed(0, 128, 0)
    } else if i == 3 {
        packed(128, 128, 0)
    } else if i == 4 {
        packed(0, 0, 128)
    } else if i == 5 {
        packed(128, 0, 128)
    } else if i == 6 {
        packed(0, 128, 128)
    } else if i == 7 {
        packed(192, 192, 192)
    } else if i == 8 {
        packed(128, 128, 128)
    } else if i == 9 {
        packed(255, 0, 0)
    } else if i == 10 {
        packed(0, 255, 0)
    } else if i == 11 {
        packed(255, 255, 0)
    } else if i == 12 {
        packed(0, 0, 255)
    } else if i == 13 {
        packed(255, 0, 255)
    } else if i == 14 {
        packed(0, 255, 255)
    } else {
        packed(255, 255, 255)
    }
}

/// Channel intensity of level `n` (0 to 5) of the 6x6x6 colour cube.
pub open spec fn cube_level(n: int) -> int {
    if n == 0 {
        0
    } else {
        55 + 40 * n
    }
}

/// The standard 256-colour terminal palette: sixteen system colours, a
/// 6x6x6 colour cube, then a 24-step grey ramp from 8 to 238.
pub open spec fn default_colour(i: int) -> int {
    if i < 16 {
        system_colour(i)
    } else if i < 232 {
        let j = i - 16;
        packed(cube_level(j / 36), cube_level((j / 6) % 6), cube_level(j % 6))
    } else {
        let g = 8 + 10 * (i - 232);
        packed(g, g, g)
    }
}

fn cube_level_exec(n: u8) -> (r: u8)
    requires
        n < 6,
    ensures
        r == cube_level(n as int),
{
    if n == 0 {
        0
    } else {
        55 + 40 * n
    }
}

/// The start-up colour of palette slot `index`.
pub fn default_colour_at(index: u8) -> (r: u32)
    ensures
        r == default_colour(index as int),
{
    if index < 16 {
        let (red, green, blue): (u8, u8, u8) = if index == 0 {
            (0, 0, 0)
        } else if index == 1 {
            (128, 0, 0)
        } else if index == 2 {
            (0, 128, 0)
        } else if index == 3 {
            (128, 128, 0)
        } else if index == 4 {
            (0, 0, 128)
        } else if index == 5 {
            (128, 0, 128)
        } else if index == 6 {
            (0, 128, 128)
        } else if index == 7 {
            (192, 192, 192)
        } else if index == 8 {
            (128, 128, 128)
        } else if index == 9 {
            (255, 0, 0)
        } else if index == 10 {
            (0, 255, 0)
        } else if index == 11 {
            (255, 255, 0)
        } else if index == 12 {
            (0, 0, 255)
        } else if index == 13 {
            (255, 0, 255)
        } else if index == 14 {
            (0, 255, 255)
        } else {
            (255, 255, 255)
        };
        from_rgb(red, green, blue)
    } else if index < 232 {
        let j: u8 = index - 16;
        from_rgb(cube_level_exec(j / 36), cube_level_exec((j / 6) % 6), cube_level_exec(j % 6))
    } else {
        let g: u8 = 8 + 10 * (index - 232);
        from_rgb(g, g, g)
    }
}

/// The 256 colour slots that text and graphics modes index into.
pub struct Palette {
    entries: Vec<u32>,
}

impl View for Palette {
    type V = Seq<u32>;

    closed spec fn view(&self) -> Seq<u32> {
        self.entries@
    }
}

impl Palette {
    /// Exactly 256 slots.
    pub open spec fn wf(&self) -> bool {
        self@.len() == PALETTE_LEN
    }

    /// A palette holding the standard terminal colours.
    pub fn new() -> (r: Palette)
        ensures
            r.wf(),
            forall|i: int| 0 <= i < PALETTE_LEN ==> r@[i] as int == default_colour(i),
    {
        let mut entries: Vec<u32> = Vec::new();
        let mut i: usize = 0;
        while i < PALETTE_LEN
            invariant
                i <= PALETTE_LEN,
                entries@.len() == i,
                forall|k: int| 0 <= k < i ==> entries@[k] as int == default_colour(k),
            decreases PALETTE_LEN - i,
        {
            entries.push(default_colour_at(i as u8));
            i = i + 1;
        }
        Palette { entries }
    }

    /// The colour in slot `index`; every `u8` names a slot.
    pub fn get(&self, index: u8) -> (r: Option<u32>)
        requires
            self.wf(),
        ensures
            r == Some(self@[index as int]),
    {
        Some(self.entries[index as usize])
    }

    /// Replaces the colour in slot `index`.
    pub fn set(&mut self, index: u8, colour: u32)
        requires
            old(self).wf(),
        ensures
            final(self).wf(),
            final(self)@ == old(self)@.update(index as int, colour),
    {
        self.entries.set(index as usize, colour);
    }

    /// Replaces as many leading slots as `colours` covers, at most all 256,
    /// and keeps the rest.
    pub fn set_whole(&mut self, colours: &[u32])
        requires
            old(self).wf(),
        ensures
            final(self).wf(),
            forall|i: int|
                0 <= i < PALETTE_LEN ==> #[trigger] final(self)@[i] == if i < colours@.len() {
                    colours@[i]
                } else {
                    old(self)@[i]
                },
    {
        let n: usize = if colours.len() < PALETTE_LEN {
            colours.len()
        } else {
            PALETTE_LEN
        };
        let mut i: usize = 0;
        while i < n
            invariant
                n <= PALETTE_LEN,
                n <= colours@.len(),
                n == colours@.len() || n == PALETTE_LEN,
                i <= n,
                self@.len() == PALETTE_LEN,
                forall|k: int|
                    0 <= k < PALETTE_LEN ==> #[trigger] self@[k] == if k < i {
                        colours@[k]
                    } else {
                        old(self)@[k]
                    },
            decreases n - i,
        {
            self.entries.set(i, colours[i]);
            i = i + 1;
        }
    }
}

} // verus!
