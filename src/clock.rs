use vstd::prelude::*;

verus! {

/// Seconds from the Unix epoch to the BIOS epoch, 2000-01-01T00:00:00Z.
pub const EPOCH_OFFSET_SECS: u64 = 946684800;

/// The monotonic tick counter runs at 1 kHz.
pub const TICKS_PER_SECOND: u64 = 1000;

/// Wall-clock time since the BIOS epoch.
#[derive(Clone, Copy, Debug, PartialEq, Eq, Structural)]
pub struct WallTime {
    pub secs: u32,
    pub nsecs: u32,
}

/// Whether a host time of `unix_secs` seconds since the Unix epoch can be
/// told to the guest: any time before the BIOS epoch (told as the epoch
/// itself), or one at most `u32::MAX` seconds after it.
pub open spec fn clock_representable(unix_secs: u64) -> bool {
    unix_secs < EPOCH_OFFSET_SECS || unix_secs - EPOCH_OFFSET_SECS <= u32::MAX
}

/// The wall time for a host time of `unix_secs` seconds and `subsec_nanos`
/// nanoseconds since the Unix epoch; a host clock set before the BIOS epoch
/// reads as the epoch.
pub fn wall_time(unix_secs: u64, subsec_nanos: u32) -> (r: WallTime)
    requires
        clock_representable(unix_secs),
    ensures
        unix_secs < EPOCH_OFFSET_SECS ==> r == (WallTime { secs: 0, nsecs: 0 }),
        unix_secs >= EPOCH_OFFSET_SECS ==> r == (WallTime {
            secs: (unix_secs - EPOCH_OFFSET_SECS) as u32,
            nsecs: subsec_nanos,
        }),
{
    if unix_secs < EPOCH_OFFSET_SECS {
        WallTime { secs: 0, nsecs: 0 }
    } else {
        WallTime { secs: (unix_secs - EPOCH_OFFSET_SECS) as u32, nsecs: subsec_nanos }
    }
}

/// The tick count for `millis` milliseconds since boot, wrapping at 2^64.
pub fn ticks_from_millis(millis: u128) -> (r: u64)
    ensures
        r == millis % 0x1_0000_0000_0000_0000,
{
    (millis % 0x1_0000_0000_0000_0000) as u64
}

} // verus!
