use vstd::prelude::*;

use crate::error::BiosError;

verus! {

/// The video signal timings of the Neotron BIOS video mode encoding.
#[derive(Clone, Copy, Debug, PartialEq, Eq, Structural)]
pub enum Timing {
    T640x480,
    T640x400,
    T800x600,
}

/// The memory formats of the Neotron BIOS video mode encoding.
#[derive(Clone, Copy, Debug, PartialEq, Eq, Structural)]
pub enum Format {
    Text8x16,
    Text8x8,
    Chunky32,
    Chunky16,
    Chunky8,
    Chunky4,
    Chunky2,
    Chunky1,
}

/// A video mode as the guest passes it: one byte, laid out as
/// `vert2x | timing (3 bits) | horiz2x | format (3 bits)`, high bit first.
#[derive(Clone, Copy, Debug, PartialEq, Eq, Structural)]
pub struct VideoMode(pub u8);

pub open spec fn timing_code(t: Timing) -> u8 {
    match t {
        Timing::T640x480 => 0,
        Timing::T640x400 => 1,
        Timing::T800x600 => 2,
    }
}

pub open spec fn format_code(f: Format) -> u8 {
    match f {
        Format::Text8x16 => 0,
        Format::Text8x8 => 1,
        Format::Chunky32 => 2,
        Format::Chunky16 => 3,
        Format::Chunky8 => 4,
        Format::Chunky4 => 5,
        Format::Chunky2 => 6,
        Format::Chunky1 => 7,
    }
}

/// True for the text formats, whose cells are (glyph, attribute) byte pairs.
pub open spec fn is_text_format(f: Format) -> bool {
    f == Format::Text8x16 || f == Format::Text8x8
}

/// The glyph height in pixel rows of a text format.
pub open spec fn glyph_height_of(f: Format) -> u16 {
    if f == Format::Text8x8 {
        8
    } else {
        16
    }
}

impl VideoMode {
    pub open spec fn timing_bits(self) -> u8 {
        ((self.0 / 16) % 8) as u8
    }

    pub open spec fn format_bits(self) -> u8 {
        (self.0 % 8) as u8
    }

    pub open spec fn horiz_2x(self) -> bool {
        (self.0 / 8) % 2 == 1
    }

    pub open spec fn vert_2x(self) -> bool {
        self.0 >= 128
    }

    /// The timing that the mode names, if its timing bits name one.
    pub open spec fn timing_spec(self) -> Option<Timing> {
        let t = self.timing_bits();
        if t == 0 {
            Some(Timing::T640x480)
        } else if t == 1 {
            Some(Timing::T640x400)
        } else if t == 2 {
            Some(Timing::T800x600)
        } else {
            None
        }
    }

    pub open spec fn format_spec(self) -> Format {
        let f = self.format_bits();
        if f == 0 {
            Format::Text8x16
        } else if f == 1 {
            Format::Text8x8
        } else if f == 2 {
            Format::Chunky32
        } else if f == 3 {
            Format::Chunky16
        } else if f == 4 {
            Format::Chunky8
        } else if f == 5 {
            Format::Chunky4
        } else if f == 6 {
            Format::Chunky2
        } else {
            Format::Chunky1
        }
    }

    /// The four supported (timing, format) combinations: 640x480 or 640x400,
    /// with the 8x16 or the 8x8 text format. Scaling bits are not looked at.
    pub open spec fn is_supported(self) -> bool {
        (self.timing_spec() == Some(Timing::T640x480) || self.timing_spec() == Some(
            Timing::T640x400,
        )) && is_text_format(self.format_spec())
    }

    pub open spec fn horizontal_pixels_spec(self) -> Option<u16> {
        match self.timing_spec() {
            Some(Timing::T800x600) => Some(if self.horiz_2x() { 400u16 } else { 800u16 }),
            Some(_) => Some(if self.horiz_2x() { 320u16 } else { 640u16 }),
            None => None,
        }
    }

    pub open spec fn vertical_lines_spec(self) -> Option<u16> {
        match self.timing_spec() {
            Some(Timing::T640x480) => Some(if self.vert_2x() { 240u16 } else { 480u16 }),
            Some(Timing::T640x400) => Some(if self.vert_2x() { 200u16 } else { 400u16 }),
            Some(Timing::T800x600) => Some(if self.vert_2x() { 300u16 } else { 600u16 }),
            None => None,
        }
    }

    /// Text columns: one per eight horizontal pixels, in a text format only.
    pub open spec fn text_width_spec(self) -> Option<u16> {
        match self.horizontal_pixels_spec() {
            Some(h) if is_text_format(self.format_spec()) => Some((h / 8) as u16),
            _ => None,
        }
    }

    /// Text rows: one per glyph height of vertical lines, in a text format only.
    pub open spec fn text_height_spec(self) -> Option<u16> {
        match self.vertical_lines_spec() {
            Some(v) if is_text_format(self.format_spec()) => Some(
                (v / glyph_height_of(self.format_spec())) as u16,
            ),
            _ => None,
        }
    }

    /// The mode with the given timing and format and no scaling.
    pub fn new(timing: Timing, format: Format) -> (r: VideoMode)
        ensures
            r.0 == timing_code(timing) * 16 + format_code(format),
            r.timing_spec() == Some(timing),
            r.format_spec() == format,
            !r.horiz_2x(),
            !r.vert_2x(),
    {
        let t: u8 = match timing {
            Timing::T640x480 => 0,
            Timing::T640x400 => 1,
            Timing::T800x600 => 2,
        };
        let f: u8 = match format {
            Format::Text8x16 => 0,
            Format::Text8x8 => 1,
            Format::Chunky32 => 2,
            Format::Chunky16 => 3,
            Format::Chunky8 => 4,
            Format::Chunky4 => 5,
            Format::Chunky2 => 6,
            Format::Chunky1 => 7,
        };
        VideoMode(t * 16 + f)
    }

    pub fn as_u8(self) -> (r: u8)
        ensures
            r == self.0,
    {
        self.0
    }

    pub fn timing(self) -> (r: Option<Timing>)
        ensures
            r == self.timing_spec(),
    {
        let t: u8 = (self.0 / 16) % 8;
        if t == 0 {
            Some(Timing::T640x480)
        } else if t == 1 {
            Some(Timing::T640x400)
        } else if t == 2 {
            Some(Timing::T800x600)
        } else {
            None
        }
    }

    pub fn format(self) -> (r: Format)
        ensures
            r == self.format_spec(),
    {
        let f: u8 = self.0 % 8;
        if f == 0 {
            Format::Text8x16
        } else if f == 1 {
            Format::Text8x8
        } else if f == 2 {
            Format::Chunky32
        } else if f == 3 {
            Format::Chunky16
        } else if f == 4 {
            Format::Chunky8
        } else if f == 5 {
            Format::Chunky4
        } else if f == 6 {
            Format::Chunky2
        } else {
            Format::Chunky1
        }
    }

    /// Whether the BIOS can show this mode.
    pub fn is_valid(self) -> (r: bool)
        ensures
            r == self.is_supported(),
    {
        let timing_ok = match self.timing() {
            Some(Timing::T640x480) => true,
            Some(Timing::T640x400) => true,
            _ => false,
        };
        let format_ok = match self.format() {
            Format::Text8x16 => true,
            Format::Text8x8 => true,
            _ => false,
        };
        timing_ok && format_ok
    }

    pub fn horizontal_pixels(self) -> (r: Option<u16>)
        ensures
            r == self.horizontal_pixels_spec(),
    {
        let half = (self.0 / 8) % 2 == 1;
        match self.timing() {
            Some(Timing::T800x600) => Some(if half { 400 } else { 800 }),
            Some(_) => Some(if half { 320 } else { 640 }),
            None => None,
        }
    }

    pub fn vertical_lines(self) -> (r: Option<u16>)
        ensures
            r == self.vertical_lines_spec(),
    {
        let half = self.0 >= 128;
        match self.timing() {
            Some(Timing::T640x480) => Some(if half { 240 } else { 480 }),
            Some(Timing::T640x400) => Some(if half { 200 } else { 400 }),
            Some(Timing::T800x600) => Some(if half { 300 } else { 600 }),
            None => None,
        }
    }

    pub fn text_width(self) -> (r: Option<u16>)
        ensures
            r == self.text_width_spec(),
    {
        match self.format() {
            Format::Text8x16 | Format::Text8x8 => match self.horizontal_pixels() {
                Some(h) => Some(h / 8),
                None => None,
            },
            _ => None,
        }
    }

    pub fn text_height(self) -> (r: Option<u16>)
        ensures
            r == self.text_height_spec(),
    {
        let height: u16 = match self.format() {
            Format::Text8x16 => 16,
            Format::Text8x8 => 8,
            _ => {
                return None;
            },
        };
        match self.vertical_lines() {
            Some(v) => Some(v / height),
            None => None,
        }
    }
}

/// Of the (timing, format) pairs, exactly four make a supported mode:
/// 640x480 or 640x400 with the 8x16 or 8x8 text format, whatever the
/// scaling bits say. [`VideoState::set_mode`] accepts and stores these and
/// refuses every other, keeping the mode it had.
pub proof fn lemma_supported_combinations(timing: Timing, format: Format, scaling: u8)
    requires
        scaling == 0 || scaling == 8 || scaling == 128 || scaling == 136,
    ensures
        VideoMode((timing_code(timing) * 16 + format_code(format) + scaling) as u8).is_supported()
            <==> (timing == Timing::T640x480 || timing == Timing::T640x400) && (format
            == Format::Text8x16 || format == Format::Text8x8),
{
}

/// The current video mode, shared by the guest (which sets it) and the
/// presentation loop (which reads it every frame).
pub struct VideoState {
    mode: VideoMode,
}

impl VideoState {
    pub closed spec fn mode_spec(&self) -> VideoMode {
        self.mode
    }

    /// The mode is always one of the supported combinations.
    pub open spec fn wf(&self) -> bool {
        self.mode_spec().is_supported()
    }

    /// Starts in 640x480 with the 8x16 text format, the mode that is always
    /// backed by reserved memory.
    pub fn new() -> (r: VideoState)
        ensures
            r.wf(),
            r.mode_spec() == VideoMode(0),
            r.mode_spec().timing_spec() == Some(Timing::T640x480),
            r.mode_spec().format_spec() == Format::Text8x16,
    {
        VideoState { mode: VideoMode(0) }
    }

    /// The last accepted mode.
    pub fn get_mode(&self) -> (r: VideoMode)
        ensures
            r == self.mode_spec(),
    {
        self.mode
    }

    /// Switches to `mode` if it is supported; otherwise reports the raw mode
    /// value back and keeps the current mode.
    pub fn set_mode(&mut self, mode: VideoMode) -> (r: Result<(), BiosError>)
        requires
            old(self).wf(),
        ensures
            final(self).wf(),
            mode.is_supported() ==> r == Ok::<(), BiosError>(()) && final(self).mode_spec() == mode,
            !mode.is_supported() ==> r == Err::<(), BiosError>(
                BiosError::UnsupportedConfiguration(mode.0 as u16),
            ) && final(self).mode_spec() == old(self).mode_spec(),
    {
        if mode.is_valid() {
            self.mode = mode;
            Ok(())
        } else {
            Err(BiosError::UnsupportedConfiguration(mode.as_u8() as u16))
        }
    }
}

} // verus!
