//! Hardware layer of a desktop-hosted Neotron BIOS: the video mode rules,
//! palette, glyph cache, text compositor, block device, input bridge and
//! start-up sequencing, each with its contract.

mod block;
mod clock;
mod error;
mod glyph;
mod input;
mod palette;
mod session;
mod text;
mod video;

pub use block::{
    finish_transfer, finish_verify, BlockDevice, DeviceInfo, IoOutcome, Transfer, BLOCK_SIZE,
    IO_FAILURE, VERIFY_MISMATCH,
};
pub use clock::{ticks_from_millis, wall_time, WallTime, EPOCH_OFFSET_SECS, TICKS_PER_SECOND};
pub use error::BiosError;
pub use glyph::{
    build_glyph_cache, glyph_slot, Font, CACHE_SLOTS, GLYPH_COUNT, GLYPH_WIDTH, NUM_FG, TEXEL_BYTES,
};
pub use input::{
    convert_keycode, translate_event, GuestKey, HidEvent, HostKey, InputBridge, InputEvent,
};
pub use palette::{blue, default_colour_at, from_rgb, green, red, Palette, PALETTE_LEN};
pub use session::{memory_region_len, step, Phase, SessionAction, SessionEvent, OS_REGION_LEN};
pub use text::{
    background_of, compose_text_frame, foreground_of, make_attr, startup_framebuffer, CellDraw,
    FRAMEBUFFER_LEN, STARTUP_CELLS, WHITE_ON_BLACK,
};
pub use video::{Format, Timing, VideoMode, VideoState};
