use vstd::prelude::*;

use crate::error::BiosError;

verus! {

/// Bytes per block of the emulated disk.
pub const BLOCK_SIZE: u64 = 512;

/// Device error code of a failed read, write or seek on the backing image.
pub const IO_FAILURE: u16 = 0;

/// Device error code of a verify that read back other bytes than expected.
pub const VERIFY_MISMATCH: u16 = 1;

/// What get-info reports of the one emulated disk.
#[derive(Clone, Copy, Debug, PartialEq, Eq, Structural)]
pub struct DeviceInfo {
    pub block_size: u32,
    pub num_blocks: u64,
    pub ejectable: bool,
    pub removable: bool,
    pub media_present: bool,
    pub read_only: bool,
}

/// A byte range of the backing image that a transfer covers.
#[derive(Clone, Copy, Debug, PartialEq, Eq, Structural)]
pub struct Transfer {
    pub offset: u64,
    pub len: usize,
}

/// How the host's seek and transfer on the backing image went.
#[derive(Clone, Copy, Debug, PartialEq, Eq, Structural)]
pub enum IoOutcome {
    Done,
    SeekFailed,
    TransferFailed,
}

/// Device 0, backed by a disk image of the given length in bytes, if any.
pub struct BlockDevice {
    image_len: Option<u64>,
}

/// The answer of a transfer request for `num_blocks` blocks from block
/// `block_idx` of device `dev_id`.
pub open spec fn transfer_spec(image_len: Option<u64>, dev_id: u8, block_idx: u64, num_blocks: u8) -> Result<
    Transfer,
    BiosError,
> {
    if dev_id != 0 {
        Err(BiosError::InvalidDevice)
    } else {
        match image_len {
            None => Err(BiosError::DeviceError(IO_FAILURE)),
            Some(len) => if block_idx + num_blocks > len as int / BLOCK_SIZE as int {
                Err(BiosError::BlockOutOfBounds)
            } else {
                Ok(
                    Transfer {
                        offset: (block_idx * BLOCK_SIZE) as u64,
                        len: (num_blocks * BLOCK_SIZE) as usize,
                    },
                )
            },
        }
    }
}

/// The result of a read or write, once the host has done its part.
pub open spec fn outcome_spec(outcome: IoOutcome) -> Result<(), BiosError> {
    match outcome {
        IoOutcome::Done => Ok(()),
        IoOutcome::SeekFailed => Err(BiosError::BlockOutOfBounds),
        IoOutcome::TransferFailed => Err(BiosError::DeviceError(IO_FAILURE)),
    }
}

/// The result of a verify, from the host's outcome and the bytes it read back.
pub open spec fn verify_spec(outcome: IoOutcome, read_back: Seq<u8>, expected: Seq<u8>) -> Result<
    (),
    BiosError,
> {
    match outcome {
        IoOutcome::Done => if read_back == expected {
            Ok(())
        } else {
            Err(BiosError::DeviceError(VERIFY_MISMATCH))
        },
        _ => outcome_spec(outcome),
    }
}

/// The image `disk` after `data` was written over the range of `t`.
pub open spec fn written(disk: Seq<u8>, t: Transfer, data: Seq<u8>) -> Seq<u8> {
    disk.subrange(0, t.offset as int) + data + disk.subrange(t.offset + t.len, disk.len() as int)
}

/// The bytes of `disk` in the range of `t`.
pub open spec fn read_range(disk: Seq<u8>, t: Transfer) -> Seq<u8> {
    disk.subrange(t.offset as int, t.offset + t.len)
}

impl BlockDevice {
    pub closed spec fn image_len_spec(&self) -> Option<u64> {
        self.image_len
    }

    /// The device, with the length in bytes of its backing image, or `None`
    /// when no image was given.
    pub fn new(image_len: Option<u64>) -> (r: BlockDevice)
        ensures
            r.image_len_spec() == image_len,
    {
        BlockDevice { image_len }
    }

    /// Device 0 with an image is a fixed, writable hard disk of the image's
    /// whole blocks; any other device, or device 0 without an image, is absent.
    pub fn get_info(&self, dev_id: u8) -> (r: Option<DeviceInfo>)
        ensures
            dev_id != 0 || self.image_len_spec() is None ==> r is None,
            dev_id == 0 && self.image_len_spec() is Some ==> r == Some(
                DeviceInfo {
                    block_size: BLOCK_SIZE as u32,
                    num_blocks: self.image_len_spec().unwrap() / BLOCK_SIZE,
                    ejectable: false,
                    removable: false,
                    media_present: true,
                    read_only: false,
                },
            ),
    {
        if dev_id != 0 {
            return None;
        }
        match self.image_len {
            Some(len) => Some(
                DeviceInfo {
                    block_size: BLOCK_SIZE as u32,
                    num_blocks: len / BLOCK_SIZE,
                    ejectable: false,
                    removable: false,
                    media_present: true,
                    read_only: false,
                },
            ),
            None => None,
        }
    }

    /// Checks a read, write or verify of `num_blocks` blocks from block
    /// `block_idx`, and gives the byte range of the image that it covers.
    pub fn plan_transfer(&self, dev_id: u8, block_idx: u64, num_blocks: u8) -> (r: Result<
        Transfer,
        BiosError,
    >)
        ensures
            r == transfer_spec(self.image_len_spec(), dev_id, block_idx, num_blocks),
    {
        if dev_id != 0 {
            return Err(BiosError::InvalidDevice);
        }
        match self.image_len {
            None => Err(BiosError::DeviceError(IO_FAILURE)),
            Some(len) => {
                let capacity = len / BLOCK_SIZE;
                if block_idx > capacity || num_blocks as u64 > capacity - block_idx {
                    Err(BiosError::BlockOutOfBounds)
                } else {
                    assert(block_idx * 512 <= len && num_blocks * 512 <= len) by (nonlinear_arith)
                        requires
                            block_idx + num_blocks <= capacity,
                            capacity == len / 512,
                    ;
                    Ok(
                        Transfer {
                            offset: block_idx * BLOCK_SIZE,
                            len: num_blocks as usize * BLOCK_SIZE as usize,
                        },
                    )
                }
            },
        }
    }
}

/// The result of a read or write whose seek and transfer the host has done.
pub fn finish_transfer(outcome: IoOutcome) -> (r: Result<(), BiosError>)
    ensures
        r == outcome_spec(outcome),
{
    match outcome {
        IoOutcome::Done => Ok(()),
        IoOutcome::SeekFailed => Err(BiosError::BlockOutOfBounds),
        IoOutcome::TransferFailed => Err(BiosError::DeviceError(IO_FAILURE)),
    }
}

/// The result of a verify: success only when the bytes read back from the
/// image are exactly the caller's.
pub fn finish_verify(outcome: IoOutcome, read_back: &[u8], expected: &[u8]) -> (r: Result<
    (),
    BiosError,
>)
    ensures
        r == verify_spec(outcome, read_back@, expected@),
{
    match outcome {
        IoOutcome::Done => {},
        _ => {
            return finish_transfer(outcome);
        },
    }
    if read_back.len() != expected.len() {
        return Err(BiosError::DeviceError(VERIFY_MISMATCH));
    }
    let mut i: usize = 0;
    while i < read_back.len()
        invariant
            outcome == IoOutcome::Done,
            read_back@.len() == expected@.len(),
            i <= read_back@.len(),
            forall|k: int| 0 <= k < i ==> read_back@[k] == expected@[k],
        decreases read_back@.len() - i,
    {
        if read_back[i] != expected[i] {
            assert(read_back@[i as int] != expected@[i as int]);
            return Err(BiosError::DeviceError(VERIFY_MISMATCH));
        }
        i = i + 1;
    }
    assert(read_back@ =~= expected@);
    Ok(())
}

/// On an image of `S` whole blocks, a transfer of `k` blocks from block `i`
/// is accepted exactly when `i + k <= S`, and otherwise is out of bounds;
/// when it is accepted, reading back the range just written gives the
/// written bytes, and leaves the image's length unchanged.
pub proof fn lemma_write_then_read(disk: Seq<u8>, block_idx: u64, num_blocks: u8, data: Seq<u8>)
    requires
        disk.len() <= u64::MAX,
        data.len() == num_blocks * BLOCK_SIZE,
    ensures
        ({
            let s = disk.len() as int / BLOCK_SIZE as int;
            let plan = transfer_spec(Some(disk.len() as u64), 0, block_idx, num_blocks);
            &&& block_idx + num_blocks <= s ==> plan is Ok
            &&& block_idx + num_blocks > s ==> plan == Err::<Transfer, BiosError>(
                BiosError::BlockOutOfBounds,
            )
            &&& plan matches Ok(t) ==> read_range(written(disk, t, data), t) == data
                && written(disk, t, data).len() == disk.len()
        }),
{
    let s = disk.len() as int / BLOCK_SIZE as int;
    let plan = transfer_spec(Some(disk.len() as u64), 0, block_idx, num_blocks);
    if block_idx + num_blocks <= s {
        let t = plan->Ok_0;
        assert(block_idx * 512 + num_blocks * 512 <= disk.len()) by (nonlinear_arith)
            requires
                block_idx + num_blocks <= s,
                s == disk.len() / 512,
        ;
        assert(read_range(written(disk, t, data), t) =~= data);
    }
}

/// After a write of `data`, a verify of the same range with `data` succeeds,
/// and with any other bytes of the same length fails with a device error
/// whose code is not that of an I/O failure.
pub proof fn lemma_verify_after_write(
    disk: Seq<u8>,
    block_idx: u64,
    num_blocks: u8,
    data: Seq<u8>,
    other: Seq<u8>,
)
    requires
        disk.len() <= u64::MAX,
        block_idx + num_blocks <= disk.len() as int / BLOCK_SIZE as int,
        data.len() == num_blocks * BLOCK_SIZE,
        other.len() == data.len(),
        other != data,
    ensures
        ({
            let t = transfer_spec(Some(disk.len() as u64), 0, block_idx, num_blocks)->Ok_0;
            let after = written(disk, t, data);
            &&& verify_spec(IoOutcome::Done, read_range(after, t), data) == Ok::<(), BiosError>(())
            &&& verify_spec(IoOutcome::Done, read_range(after, t), other) == Err::<(), BiosError>(
                BiosError::DeviceError(VERIFY_MISMATCH),
            )
            &&& VERIFY_MISMATCH != IO_FAILURE
        }),
{
    lemma_write_then_read(disk, block_idx, num_blocks, data);
}

} // verus!
