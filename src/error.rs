use vstd::prelude::*;

verus! {

/// The errors that a capability-table operation hands back to the guest.
#[derive(Clone, Copy, Debug, PartialEq, Eq, Structural)]
pub enum BiosError {
    /// The peripheral class is not emulated.
    Unimplemented,
    /// No device has the given id.
    InvalidDevice,
    /// The transfer reaches past the end of the backing image.
    BlockOutOfBounds,
    /// The device failed; the code tells an I/O failure from a verify mismatch.
    DeviceError(u16),
    /// The requested video mode, by its raw value, is not supported.
    UnsupportedConfiguration(u16),
}

} // verus!
