use desktop_bios::{
    finish_transfer, finish_verify, BiosError, BlockDevice, DeviceInfo, IoOutcome, Transfer,
    BLOCK_SIZE, IO_FAILURE, VERIFY_MISMATCH,
};

/// A disk image held in memory, standing in for the host file.
fn image(blocks: usize) -> Vec<u8> {
    (0..blocks * 512).map(|i| (i % 251) as u8).collect()
}

fn device_for(disk: &[u8]) -> BlockDevice {
    BlockDevice::new(Some(disk.len() as u64))
}

fn write(dev: &BlockDevice, disk: &mut [u8], idx: u64, k: u8, buf: &[u8]) -> Result<(), BiosError> {
    let t = dev.plan_transfer(0, idx, k)?;
    let start = t.offset as usize;
    disk[start..start + t.len].copy_from_slice(&buf[..t.len]);
    finish_transfer(IoOutcome::Done)
}

fn read(dev: &BlockDevice, disk: &[u8], idx: u64, k: u8) -> Result<Vec<u8>, BiosError> {
    let t = dev.plan_transfer(0, idx, k)?;
    let start = t.offset as usize;
    let out = disk[start..start + t.len].to_vec();
    finish_transfer(IoOutcome::Done).map(|_| out)
}

fn verify(dev: &BlockDevice, disk: &[u8], idx: u64, k: u8, buf: &[u8]) -> Result<(), BiosError> {
    let t = dev.plan_transfer(0, idx, k)?;
    let start = t.offset as usize;
    finish_verify(IoOutcome::Done, &disk[start..start + t.len], &buf[..t.len])
}

#[test]
fn no_image_means_absent_device() {
    let dev = BlockDevice::new(None);
    assert_eq!(dev.get_info(0), None);
    assert_eq!(dev.plan_transfer(0, 0, 1), Err(BiosError::DeviceError(IO_FAILURE)));
}

#[test]
fn capacity_is_image_length_over_512() {
    let dev = BlockDevice::new(Some(1300));
    assert_eq!(
        dev.get_info(0),
        Some(DeviceInfo {
            block_size: 512,
            num_blocks: 2,
            ejectable: false,
            removable: false,
            media_present: true,
            read_only: false,
        })
    );
    assert_eq!(BlockDevice::new(Some(511)).get_info(0).unwrap().num_blocks, 0);
    assert_eq!(BlockDevice::new(Some(0)).get_info(0).unwrap().num_blocks, 0);
    assert_eq!(dev.get_info(1), None);
}

#[test]
fn other_device_ids_are_invalid() {
    let dev = BlockDevice::new(Some(4096));
    assert_eq!(dev.plan_transfer(1, 0, 1), Err(BiosError::InvalidDevice));
    assert_eq!(dev.plan_transfer(255, 0, 1), Err(BiosError::InvalidDevice));
}

#[test]
fn transfer_covers_whole_blocks() {
    let dev = BlockDevice::new(Some(8 * 512));
    assert_eq!(dev.plan_transfer(0, 3, 2), Ok(Transfer { offset: 1536, len: 1024 }));
    assert_eq!(dev.plan_transfer(0, 8, 0), Ok(Transfer { offset: 4096, len: 0 }));
    assert_eq!(BLOCK_SIZE, 512);
}

#[test]
fn write_then_read_returns_the_buffer() {
    let mut disk = image(8);
    let dev = device_for(&disk);
    for (idx, k) in [(0u64, 1u8), (3, 2), (5, 3), (0, 8)] {
        let buf: Vec<u8> = (0..k as usize * 512).map(|i| (i * 7 + idx as usize) as u8).collect();
        assert_eq!(write(&dev, &mut disk, idx, k, &buf), Ok(()));
        assert_eq!(read(&dev, &disk, idx, k), Ok(buf));
    }
}

#[test]
fn transfers_past_the_end_are_out_of_bounds() {
    let mut disk = image(8);
    let dev = device_for(&disk);
    let buf = vec![0xaa; 1024];
    assert_eq!(write(&dev, &mut disk, 7, 2, &buf), Err(BiosError::BlockOutOfBounds));
    assert_eq!(read(&dev, &disk, 7, 2), Err(BiosError::BlockOutOfBounds));
    assert_eq!(read(&dev, &disk, 9, 0), Err(BiosError::BlockOutOfBounds));
    assert_eq!(
        dev.plan_transfer(0, u64::MAX, 255),
        Err(BiosError::BlockOutOfBounds)
    );
    assert_eq!(disk, image(8));
}

#[test]
fn verify_after_write() {
    let mut disk = image(4);
    let dev = device_for(&disk);
    let buf = vec![0x5a; 1024];
    assert_eq!(write(&dev, &mut disk, 1, 2, &buf), Ok(()));
    assert_eq!(verify(&dev, &disk, 1, 2, &buf), Ok(()));
    let mut other = buf.clone();
    other[1023] = 0;
    assert_eq!(
        verify(&dev, &disk, 1, 2, &other),
        Err(BiosError::DeviceError(VERIFY_MISMATCH))
    );
    assert_ne!(VERIFY_MISMATCH, IO_FAILURE);
}

#[test]
fn host_failures_map_to_errors() {
    assert_eq!(finish_transfer(IoOutcome::Done), Ok(()));
    assert_eq!(finish_transfer(IoOutcome::SeekFailed), Err(BiosError::BlockOutOfBounds));
    assert_eq!(
        finish_transfer(IoOutcome::TransferFailed),
        Err(BiosError::DeviceError(IO_FAILURE))
    );
    assert_eq!(
        finish_verify(IoOutcome::TransferFailed, &[1], &[1]),
        Err(BiosError::DeviceError(IO_FAILURE))
    );
    assert_eq!(
        finish_verify(IoOutcome::SeekFailed, &[1], &[1]),
        Err(BiosError::BlockOutOfBounds)
    );
    assert_eq!(
        finish_verify(IoOutcome::Done, &[1, 2], &[1]),
        Err(BiosError::DeviceError(VERIFY_MISMATCH))
    );
}
