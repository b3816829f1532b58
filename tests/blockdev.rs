use lwext4_rust::blockdev::{
    block_io_status, open_geometry, status_result, EFAULT, EINVAL, EIO, ENAMETOOLONG, ENOTSUP, EOK, SEEK_CUR, SEEK_END, SEEK_SET,
};
use lwext4_rust::{Ext4BlockWrapper, KernelDevOp, MemoryDisk, MountOp, MountState};

fn adapter(size: usize) -> Ext4BlockWrapper<MemoryDisk> {
    let mut w = Ext4BlockWrapper::<MemoryDisk>::new(MemoryDisk::new(size)).unwrap();
    assert_eq!(w.dev_open(), EOK);
    w
}

#[test]
fn ten_mib_backend_has_20480_blocks() {
    let w = adapter(10 * 1024 * 1024);
    assert_eq!(w.get_block_count(), 20480);
    assert_eq!(w.get_partition_size(), 10 * 1024 * 1024);
    assert_eq!(w.get_partition_offset(), 0);
    assert_eq!(w.block_size(), 512);
}

#[test]
fn block_count_rounds_down() {
    let w = adapter(512 * 3 + 100);
    assert_eq!(w.get_block_count(), 3);
}

#[test]
fn block_write_then_read_round_trip() {
    let mut w = adapter(8 * 512);
    let data: Vec<u8> = (0..1024).map(|i| (i % 251) as u8).collect();
    assert_eq!(w.dev_bwrite(&data, 3, 2), EOK);
    let mut back = vec![0u8; 1024];
    assert_eq!(w.dev_bread(&mut back, 3, 2), EOK);
    assert_eq!(back, data);
    let bytes = w.block_dev().contents();
    assert_eq!(&bytes[3 * 512..5 * 512], &data[..]);
    assert!(bytes[..3 * 512].iter().all(|b| *b == 0));
    assert!(bytes[5 * 512..].iter().all(|b| *b == 0));
}

#[test]
fn round_trip_on_first_and_last_block() {
    let mut w = adapter(4 * 512);
    for blk in [0u64, 3u64] {
        let data = vec![(blk as u8) + 7; 512];
        assert_eq!(w.dev_bwrite(&data, blk, 1), EOK);
        let mut back = vec![0u8; 512];
        assert_eq!(w.dev_bread(&mut back, blk, 1), EOK);
        assert_eq!(back, data);
    }
}

#[test]
fn zero_block_transfer_does_nothing() {
    let mut w = adapter(4 * 512);
    let empty: Vec<u8> = Vec::new();
    assert_eq!(w.dev_bwrite(&empty, 1, 0), EOK);
    let mut back: Vec<u8> = Vec::new();
    assert_eq!(w.dev_bread(&mut back, 1, 0), EOK);
    assert!(w.block_dev().contents().iter().all(|b| *b == 0));
}

#[test]
fn read_past_end_is_io_error() {
    let mut w = adapter(4 * 512);
    let mut back = vec![0u8; 512];
    assert_eq!(w.dev_bread(&mut back, 9, 1), EIO);
}

#[test]
fn short_read_at_end_is_accepted() {
    let mut w = adapter(4 * 512);
    assert_eq!(w.dev_bwrite(&vec![5u8; 512], 3, 1), EOK);
    let mut two = vec![9u8; 1024];
    assert_eq!(w.dev_bread(&mut two, 3, 2), EOK);
    assert!(two[..512].iter().all(|b| *b == 5));
    assert!(two[512..].iter().all(|b| *b == 9));
}

#[test]
fn write_past_end_is_io_error() {
    let mut w = adapter(4 * 512);
    let data = vec![1u8; 1024];
    assert_eq!(w.dev_bwrite(&data, 20, 2), EIO);
}

#[test]
fn short_write_at_end_is_accepted() {
    let mut w = adapter(4 * 512);
    let data = vec![1u8; 1024];
    assert_eq!(w.dev_bwrite(&data, 3, 2), EOK);
    let bytes = w.block_dev().contents();
    assert_eq!(bytes.len(), 4 * 512);
    assert!(bytes[3 * 512..].iter().all(|b| *b == 1));
    assert!(bytes[..3 * 512].iter().all(|b| *b == 0));
}

#[test]
fn huge_block_id_is_io_error() {
    let mut w = adapter(4 * 512);
    let mut back = vec![0u8; 512];
    assert_eq!(w.dev_bread(&mut back, u64::MAX, 1), EIO);
    assert_eq!(w.dev_bwrite(&back, u64::MAX / 2, 1), EIO);
}

#[test]
fn close_is_a_no_op() {
    let mut w = adapter(512);
    assert_eq!(w.dev_close(), EOK);
    assert_eq!(w.get_block_count(), 1);
}

#[test]
fn default_names_are_null_terminated() {
    let w = Ext4BlockWrapper::<MemoryDisk>::new(MemoryDisk::new(0)).unwrap();
    let mut name = b"ext4_fs".to_vec();
    name.resize(16, 0);
    assert_eq!(w.name_bytes(), &name);
    let mut mp = b"/mp/".to_vec();
    mp.resize(32, 0);
    assert_eq!(w.mount_point_bytes(), &mp);
    assert_eq!(w.mount_state(), MountState::Unregistered);
}

#[test]
fn names_that_fit_are_accepted() {
    let w = Ext4BlockWrapper::<MemoryDisk>::with_names(
        MemoryDisk::new(0),
        "abcdefghijklmno",
        &"m".repeat(31),
    )
    .unwrap();
    assert_eq!(w.name_bytes()[14], b'o');
    assert_eq!(w.name_bytes()[15], 0);
    assert_eq!(w.mount_point_bytes()[31], 0);
}

#[test]
fn overlong_names_are_refused() {
    let r = Ext4BlockWrapper::<MemoryDisk>::with_names(MemoryDisk::new(0), "abcdefghijklmnop", "/mp/");
    assert_eq!(r.err(), Some(ENAMETOOLONG));
    let long_mp = "/".repeat(32);
    let r = Ext4BlockWrapper::<MemoryDisk>::with_names(MemoryDisk::new(0), "dev", &long_mp);
    assert_eq!(r.err(), Some(ENAMETOOLONG));
}

#[test]
fn names_with_zero_byte_are_refused() {
    let r = Ext4BlockWrapper::<MemoryDisk>::with_names(MemoryDisk::new(0), "ab\0c", "/mp/");
    assert_eq!(r.err(), Some(EINVAL));
}

#[test]
fn status_result_maps_codes() {
    assert_eq!(status_result(EOK), Ok(()));
    assert_eq!(status_result(EIO), Err(EIO));
    assert_eq!(status_result(EFAULT), Err(EFAULT));
}

fn run_mount(w: &mut Ext4BlockWrapper<MemoryDisk>, codes: &[i32]) -> Result<(), i32> {
    let mut i = 0;
    while let Some(op) = w.next_mount_op() {
        let rc = match op {
            MountOp::CacheWriteBack(_) => EOK,
            _ => {
                let rc = codes[i];
                i += 1;
                rc
            }
        };
        w.mount_step(rc)?;
    }
    Ok(())
}

#[test]
fn mount_sequence_runs_in_order() {
    let mut w = adapter(512);
    assert_eq!(w.next_mount_op(), Some(MountOp::Register));
    assert_eq!(w.mount_step(EOK), Ok(()));
    assert_eq!(w.next_mount_op(), Some(MountOp::Mount));
    assert_eq!(w.mount_step(EOK), Ok(()));
    assert_eq!(w.next_mount_op(), Some(MountOp::Recover));
    assert_eq!(w.mount_step(EOK), Ok(()));
    assert_eq!(w.next_mount_op(), Some(MountOp::JournalStart));
    assert!(!w.handles_allowed());
    assert_eq!(w.mount_step(EOK), Ok(()));
    assert!(w.handles_allowed());
    assert_eq!(w.next_mount_op(), Some(MountOp::CacheWriteBack(true)));
    assert_eq!(w.mount_step(EOK), Ok(()));
    assert!(w.write_back_enabled());
    assert_eq!(w.next_mount_op(), None);
    assert_eq!(w.mount_state(), MountState::JournalActive);
}

#[test]
fn mount_accepts_recovery_not_supported() {
    let mut w = adapter(512);
    assert_eq!(run_mount(&mut w, &[EOK, EOK, ENOTSUP, EOK]), Ok(()));
    assert_eq!(w.mount_state(), MountState::JournalActive);
}

#[test]
fn mount_failure_stops_at_failed_step() {
    let cases: [(&[i32], MountState, i32); 4] = [
        (&[EIO], MountState::Unregistered, EIO),
        (&[EOK, 19], MountState::Registered, 19),
        (&[EOK, EOK, EIO], MountState::Mounted, EIO),
        (&[EOK, EOK, EOK, ENOTSUP], MountState::Recovered, ENOTSUP),
    ];
    for (codes, state, err) in cases {
        let mut w = adapter(512);
        assert_eq!(run_mount(&mut w, codes), Err(err));
        assert_eq!(w.mount_state(), state);
        assert!(!w.write_back_enabled());
        assert!(!w.handles_allowed());
    }
}

#[test]
fn unmount_runs_in_reverse_order() {
    let mut w = adapter(512);
    assert_eq!(run_mount(&mut w, &[EOK, EOK, EOK, EOK]), Ok(()));
    assert_eq!(w.next_umount_op(), Some(MountOp::CacheWriteBack(false)));
    assert_eq!(w.umount_step(EOK), Ok(()));
    assert!(!w.write_back_enabled());
    assert_eq!(w.next_umount_op(), Some(MountOp::JournalStop));
    assert_eq!(w.umount_step(EOK), Ok(()));
    assert_eq!(w.next_umount_op(), Some(MountOp::Umount));
    assert_eq!(w.umount_step(EOK), Ok(()));
    assert_eq!(w.next_umount_op(), Some(MountOp::Unregister));
    assert_eq!(w.umount_step(EOK), Ok(()));
    assert_eq!(w.next_umount_op(), None);
    assert_eq!(w.mount_state(), MountState::Unregistered);
}

#[test]
fn unmount_stops_at_first_failure() {
    let mut w = adapter(512);
    assert_eq!(run_mount(&mut w, &[EOK, EOK, EOK, EOK]), Ok(()));
    assert_eq!(w.umount_step(EOK), Ok(()));
    assert_eq!(w.umount_step(EOK), Ok(()));
    assert_eq!(w.umount_step(16), Err(16));
    assert_eq!(w.mount_state(), MountState::Mounted);
    assert_eq!(w.next_umount_op(), Some(MountOp::Umount));
}

#[test]
fn memory_disk_reads_writes_and_seeks() {
    let mut d = MemoryDisk::from_bytes(vec![1, 2, 3, 4, 5]);
    assert_eq!(MemoryDisk::seek(&mut d, 0, SEEK_END), Ok(5));
    assert_eq!(MemoryDisk::seek(&mut d, -2, SEEK_CUR), Ok(3));
    let mut buf = [0u8; 4];
    assert_eq!(MemoryDisk::read(&mut d, &mut buf), Ok(2));
    assert_eq!(buf, [4, 5, 0, 0]);
    assert_eq!(MemoryDisk::seek(&mut d, 1, SEEK_SET), Ok(1));
    assert_eq!(MemoryDisk::write(&mut d, &[9, 9]), Ok(2));
    assert_eq!(d.contents(), &vec![1, 9, 9, 4, 5]);
    assert_eq!(MemoryDisk::write(&mut d, &[]), Ok(0));
    assert_eq!(MemoryDisk::seek(&mut d, 0, SEEK_CUR), Ok(3));
    assert_eq!(MemoryDisk::seek(&mut d, 6, SEEK_SET), Err(EINVAL));
    assert_eq!(MemoryDisk::seek(&mut d, -1, SEEK_SET), Err(EINVAL));
    assert_eq!(MemoryDisk::seek(&mut d, 0, 7), Err(EINVAL));
    assert_eq!(MemoryDisk::flush(&mut d), Ok(0));
}

struct Unseekable;

impl KernelDevOp for Unseekable {
    type DevType = Vec<u8>;

    fn read(_dev: &mut Vec<u8>, _buf: &mut [u8]) -> Result<usize, i32> {
        Err(EIO)
    }

    fn write(_dev: &mut Vec<u8>, _buf: &[u8]) -> Result<usize, i32> {
        Err(EIO)
    }

    fn seek(_dev: &mut Vec<u8>, _off: i64, _whence: i32) -> Result<i64, i32> {
        Err(EIO)
    }

    fn flush(_dev: &mut Vec<u8>) -> Result<usize, i32> {
        Ok(0)
    }
}

#[test]
fn open_fails_with_fault_when_backend_cannot_seek() {
    let mut w = Ext4BlockWrapper::<Unseekable>::new(vec![0u8; 1024]).unwrap();
    assert_eq!(w.dev_open(), EFAULT);
    assert_eq!(w.get_block_count(), 0);
    let mut buf = vec![0u8; 512];
    assert_eq!(w.dev_bread(&mut buf, 0, 1), EIO);
    assert_eq!(w.dev_bwrite(&buf, 0, 1), EIO);
}

#[test]
fn io_status_follows_backend_outcomes() {
    assert_eq!(block_io_status(&Ok(0), &None), EOK);
    assert_eq!(block_io_status(&Err(EINVAL), &None), EIO);
    assert_eq!(block_io_status(&Ok(512), &Some(Ok(512))), EOK);
    assert_eq!(block_io_status(&Ok(512), &Some(Ok(100))), EOK);
    assert_eq!(block_io_status(&Ok(512), &Some(Err(EINVAL))), EIO);
    assert_eq!(block_io_status(&Err(EINVAL), &Some(Ok(512))), EIO);
}

#[test]
fn open_geometry_from_seek() {
    assert_eq!(open_geometry(&Ok(10 * 1024 * 1024)), Ok((10 * 1024 * 1024, 20480)));
    assert_eq!(open_geometry(&Ok(1000)), Ok((1000, 1)));
    assert_eq!(open_geometry(&Ok(-1)), Err(EFAULT));
    assert_eq!(open_geometry(&Err(EINVAL)), Err(EFAULT));
}
