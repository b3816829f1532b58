use vstd::prelude::*;
use vstd::string::StringSliceAdditionalSpecFns;
use crate::mount::{
    MountOp, MountState, mount_advance, mount_op, step_accepts, umount_op, umount_retreat,
};

verus! {

/// Device block size, in bytes.
pub const EXT4_DEV_BSIZE: u32 = 512;

/// Success.
pub const EOK: i32 = 0;
/// Generic I/O failure.
pub const EIO: i32 = 5;
/// Bad address: the backend could not be reached.
pub const EFAULT: i32 = 14;
/// Invalid argument.
pub const EINVAL: i32 = 22;
/// A name does not fit its fixed-size buffer.
pub const ENAMETOOLONG: i32 = 36;
/// Operation not supported.
pub const ENOTSUP: i32 = 95;

/// Seek relative to the start of the medium.
pub const SEEK_SET: i32 = 0;
/// Seek relative to the current position.
pub const SEEK_CUR: i32 = 1;
/// Seek relative to the end of the medium.
pub const SEEK_END: i32 = 2;

/// The position that a seek of `off` from `whence` aims at, on a medium of
/// `len` bytes whose cursor stands at `pos`.
pub open spec fn seek_target(len: int, pos: int, off: i64, whence: i32) -> int {
    if whence == SEEK_SET {
        off as int
    } else if whence == SEEK_CUR {
        pos + off
    } else {
        len + off
    }
}

/// `new` is `old` with `data` written at byte `at`: those bytes hold `data`,
/// every other byte of `old` is kept, and nothing was lost from the end.
pub open spec fn written(old: Seq<u8>, new: Seq<u8>, at: int, data: Seq<u8>) -> bool {
    &&& 0 <= at
    &&& new.len() >= old.len()
    &&& new.len() >= at + data.len()
    &&& new.subrange(at, at + data.len()) == data
    &&& forall|i: int| 0 <= i < old.len() && !(at <= i < at + data.len()) ==> new[i] == old[i]
}

/// How many bytes a faithful medium of `len` bytes moves for a request of
/// `want` bytes at position `pos`: all of them, or as many as remain.
pub open spec fn transfer_len(len: int, pos: int, want: int) -> int {
    if want <= len - pos {
        want
    } else {
        len - pos
    }
}

/// The operations that any storage backend offers: a byte medium with a
/// cursor, read and written from the cursor.
pub trait KernelDevOp {
    /// The backend value that the adapter owns.
    type DevType;

    /// The bytes the medium holds. A backend verified against these
    /// contracts gives its own; the default models no medium.
    open spec fn medium(dev: &Self::DevType) -> Seq<u8> {
        Seq::empty()
    }

    /// The cursor's byte position. A backend verified against these
    /// contracts gives its own; the default models no cursor.
    open spec fn position(dev: &Self::DevType) -> int {
        0
    }

    /// Whether the backend behaves as fixed-size memory: it never fails a
    /// seek inside the medium nor a transfer, and moves every byte that
    /// fits before the end. A backend verified against these contracts
    /// may claim it; the default claims nothing.
    open spec fn faithful(dev: &Self::DevType) -> bool {
        false
    }

    /// Reads from the cursor into `buf`; `Ok(n)` says that the first `n`
    /// bytes of `buf` now hold the medium's bytes at the cursor.
    fn read(dev: &mut Self::DevType, buf: &mut [u8]) -> (r: Result<usize, i32>)
        ensures
            final(buf)@.len() == old(buf)@.len(),
            Self::medium(final(dev)) == Self::medium(old(dev)),
            r matches Ok(n) ==> {
                &&& n <= old(buf)@.len()
                &&& 0 <= Self::position(old(dev))
                &&& Self::position(old(dev)) + n <= Self::medium(old(dev)).len()
                &&& final(buf)@.subrange(0, n as int) == Self::medium(old(dev)).subrange(
                    Self::position(old(dev)),
                    Self::position(old(dev)) + n,
                )
                &&& Self::position(final(dev)) == Self::position(old(dev)) + n
            },
            Self::faithful(old(dev)) ==> {
                &&& Self::faithful(final(dev))
                &&& 0 <= Self::position(old(dev)) <= Self::medium(old(dev)).len()
                &&& r matches Ok(n) && n == transfer_len(
                    Self::medium(old(dev)).len() as int,
                    Self::position(old(dev)),
                    old(buf)@.len() as int,
                )
            },
    ;

    /// Writes `buf` at the cursor; `Ok(n)` says that its first `n` bytes
    /// were stored there.
    fn write(dev: &mut Self::DevType, buf: &[u8]) -> (r: Result<usize, i32>)
        ensures
            r matches Ok(n) ==> {
                &&& n <= buf@.len()
                &&& written(
                    Self::medium(old(dev)),
                    Self::medium(final(dev)),
                    Self::position(old(dev)),
                    buf@.subrange(0, n as int),
                )
                &&& Self::position(final(dev)) == Self::position(old(dev)) + n
            },
            Self::faithful(old(dev)) ==> {
                &&& Self::faithful(final(dev))
                &&& Self::medium(final(dev)).len() == Self::medium(old(dev)).len()
                &&& 0 <= Self::position(old(dev)) <= Self::medium(old(dev)).len()
                &&& r matches Ok(n) && n == transfer_len(
                    Self::medium(old(dev)).len() as int,
                    Self::position(old(dev)),
                    buf@.len() as int,
                )
            },
    ;

    /// Moves the cursor by `off` from `whence` (`SEEK_SET`, `SEEK_CUR` or
    /// `SEEK_END`); `Ok(p)` is the new position.
    fn seek(dev: &mut Self::DevType, off: i64, whence: i32) -> (r: Result<i64, i32>)
        ensures
            Self::medium(final(dev)) == Self::medium(old(dev)),
            r matches Ok(p) ==> {
                &&& whence == SEEK_SET || whence == SEEK_CUR || whence == SEEK_END
                &&& p >= 0
                &&& p == seek_target(
                    Self::medium(old(dev)).len() as int,
                    Self::position(old(dev)),
                    off,
                    whence,
                )
                &&& Self::position(final(dev)) == p
            },
            Self::faithful(old(dev)) ==> {
                let t = seek_target(
                    Self::medium(old(dev)).len() as int,
                    Self::position(old(dev)),
                    off,
                    whence,
                );
                &&& Self::faithful(final(dev))
                &&& (whence == SEEK_SET || whence == SEEK_CUR || whence == SEEK_END) && 0 <= t
                    <= Self::medium(old(dev)).len() && t <= i64::MAX ==> r == Ok::<i64, i32>(
                    t as i64,
                )
            },
    ;

    /// Pushes buffered writes down to the medium.
    fn flush(dev: &mut Self::DevType) -> (r: Result<usize, i32>)
        ensures
            Self::medium(final(dev)) == Self::medium(old(dev)),
            Self::position(final(dev)) == Self::position(old(dev)),
            Self::faithful(old(dev)) ==> Self::faithful(final(dev)),
    ;
}

/// Byte offset of block `blk_id`.
pub open spec fn block_offset(blk_id: u64) -> int {
    blk_id * EXT4_DEV_BSIZE
}

/// The `blk_cnt` blocks of `m` that start at block `blk_id`.
pub open spec fn block_range(m: Seq<u8>, blk_id: u64, blk_cnt: u32) -> Seq<u8> {
    Seq::new((blk_cnt * EXT4_DEV_BSIZE) as nat, |i: int| m[block_offset(blk_id) + i])
}

/// `bytes` followed by zeros up to `cap` bytes: a null-terminated name in a
/// fixed-size buffer.
pub open spec fn c_buffer(bytes: Seq<u8>, cap: nat) -> Seq<u8> {
    bytes + Seq::new((cap - bytes.len()) as nat, |i: int| 0u8)
}

/// The error that storing `bytes` as a null-terminated name in `cap` bytes
/// meets: an inner zero byte, or too little room for the terminator.
pub open spec fn c_buffer_error(bytes: Seq<u8>, cap: nat) -> Option<i32> {
    if bytes.contains(0u8) {
        Some(EINVAL)
    } else if bytes.len() + 1 > cap {
        Some(ENAMETOOLONG)
    } else {
        None
    }
}

/// `Ok` for the engine's success status, else the status as the error.
pub fn status_result(rc: i32) -> (r: Result<(), i32>)
    ensures
        rc == EOK ==> r is Ok,
        rc != EOK ==> r == Err::<(), i32>(rc),
{
    if rc == EOK {
        Ok(())
    } else {
        Err(rc)
    }
}

/// The status of a block transfer: `EOK` when the seek succeeded and the
/// transfer, if one was made, succeeded; `EIO` otherwise.
pub open spec fn io_status(seek_ok: bool, transfer: Option<Result<usize, i32>>) -> i32 {
    if !seek_ok {
        EIO
    } else {
        match transfer {
            None => EOK,
            Some(Ok(_)) => EOK,
            Some(Err(_)) => EIO,
        }
    }
}

/// The status of a block transfer from what the backend answered: the
/// seek's result, and the transfer's result where one was made.
pub fn block_io_status(seek: &Result<i64, i32>, transfer: &Option<Result<usize, i32>>) -> (r: i32)
    ensures
        r == io_status(seek is Ok, *transfer),
{
    if seek.is_err() {
        return EIO;
    }
    match transfer {
        None => EOK,
        Some(Ok(_)) => EOK,
        Some(Err(_)) => EIO,
    }
}

/// The partition size and block count that a seek to the end gives: its
/// position, and that position in whole blocks; `EFAULT` where the seek
/// failed.
pub fn open_geometry(seek: &Result<i64, i32>) -> (r: Result<(u64, u64), i32>)
    ensures
        r == match *seek {
            Ok(s) => if s >= 0 {
                Ok::<(u64, u64), i32>((s as u64, (s as u64 / EXT4_DEV_BSIZE as u64) as u64))
            } else {
                Err::<(u64, u64), i32>(EFAULT)
            },
            Err(_) => Err::<(u64, u64), i32>(EFAULT),
        },
{
    match seek {
        Ok(s) => if *s >= 0 {
            let size = *s as u64;
            Ok((size, size / (EXT4_DEV_BSIZE as u64)))
        } else {
            Err(EFAULT)
        },
        Err(_) => Err(EFAULT),
    }
}

/// Largest block id whose byte offset fits a signed 64-bit seek.
pub const MAX_BLOCK_ID: u64 = 0x7fff_ffff_ffff_ffff / 512;

/// Device-name buffer size, terminator included.
pub const DEV_NAME_LEN: usize = 16;
/// Mount-path buffer size, terminator included.
pub const MOUNT_POINT_LEN: usize = 32;

/// `n` zero bytes.
pub(crate) fn zeroed(n: usize) -> (r: Vec<u8>)
    ensures
        r@ == Seq::new(n as nat, |i: int| 0u8),
{
    let mut v: Vec<u8> = Vec::new();
    let mut i: usize = 0;
    while i < n
        invariant
            i <= n,
            v@ == Seq::new(i as nat, |j: int| 0u8),
        decreases n - i,
    {
        v.push(0u8);
        i = i + 1;
        assert(v@ =~= Seq::new(i as nat, |j: int| 0u8));
    }
    v
}

/// Stores `bytes` as a null-terminated name in a buffer of `cap` bytes.
fn c_buffer_of(bytes: &[u8], cap: usize) -> (r: Result<Vec<u8>, i32>)
    ensures
        r matches Err(e) ==> c_buffer_error(bytes@, cap as nat) == Some(e),
        r matches Ok(v) ==> c_buffer_error(bytes@, cap as nat) is None && v@ == c_buffer(
            bytes@,
            cap as nat,
        ),
{
    let mut i: usize = 0;
    while i < bytes.len()
        invariant
            i <= bytes@.len(),
            forall|j: int| 0 <= j < i ==> bytes@[j] != 0u8,
        decreases bytes@.len() - i,
    {
        if bytes[i] == 0u8 {
            return Err(EINVAL);
        }
        i = i + 1;
    }
    if bytes.len() >= cap {
        return Err(ENAMETOOLONG);
    }
    let mut v: Vec<u8> = Vec::new();
    let mut k: usize = 0;
    while k < bytes.len()
        invariant
            k <= bytes@.len(),
            v@ == bytes@.subrange(0, k as int),
        decreases bytes@.len() - k,
    {
        v.push(bytes[k]);
        k = k + 1;
        assert(v@ =~= bytes@.subrange(0, k as int));
    }
    let ghost head = v@;
    while k < cap
        invariant
            bytes@.len() <= k <= cap,
            v@ == head + Seq::new((k - bytes@.len()) as nat, |j: int| 0u8),
            head == bytes@,
        decreases cap - k,
    {
        v.push(0u8);
        k = k + 1;
        assert(v@ =~= head + Seq::new((k - bytes@.len()) as nat, |j: int| 0u8));
    }
    assert(v@ =~= c_buffer(bytes@, cap as nat));
    Ok(v)
}

/// A block device over a backend, in the shape that the filesystem engine
/// drives through its open, block-read, block-write and close callbacks.
/// The adapter owns the backend for its whole lifetime.
pub struct Ext4BlockWrapper<K: KernelDevOp> {
    block_dev: K::DevType,
    ph_bsize: u32,
    ph_bcnt: u64,
    part_offset: u64,
    part_size: u64,
    name: Vec<u8>,
    mount_point: Vec<u8>,
    state: MountState,
    write_back: bool,
}

impl<K: KernelDevOp> Ext4BlockWrapper<K> {
    /// The block size stays fixed, and each buffer keeps its size.
    pub closed spec fn wf(&self) -> bool {
        &&& self.ph_bsize == EXT4_DEV_BSIZE
        &&& self.name@.len() == DEV_NAME_LEN
        &&& self.mount_point@.len() == MOUNT_POINT_LEN
    }

    /// The bytes of the backend's medium.
    pub open spec fn medium(&self) -> Seq<u8> {
        K::medium(&self.backend())
    }

    /// Whether the backend behaves as fixed-size memory.
    pub open spec fn faithful(&self) -> bool {
        K::faithful(&self.backend())
    }

    /// The backend itself.
    pub closed spec fn backend(&self) -> K::DevType {
        self.block_dev
    }

    /// Number of blocks, as found when the device was opened.
    pub closed spec fn block_count(&self) -> u64 {
        self.ph_bcnt
    }

    /// Size of the partition in bytes, as found when the device was opened.
    pub closed spec fn partition_size(&self) -> u64 {
        self.part_size
    }

    /// Byte offset of the partition on the medium.
    pub closed spec fn partition_offset(&self) -> u64 {
        self.part_offset
    }

    /// The null-terminated device-name buffer.
    pub closed spec fn name_buffer(&self) -> Seq<u8> {
        self.name@
    }

    /// The null-terminated mount-path buffer.
    pub closed spec fn mount_buffer(&self) -> Seq<u8> {
        self.mount_point@
    }

    /// Where the device stands in its mount lifecycle.
    pub closed spec fn state(&self) -> MountState {
        self.state
    }

    /// Whether write-back caching is on.
    pub closed spec fn write_back(&self) -> bool {
        self.write_back
    }

    /// The names and the lifecycle are as in `other`.
    pub open spec fn same_names(&self, other: &Self) -> bool {
        &&& self.name_buffer() == other.name_buffer()
        &&& self.mount_buffer() == other.mount_buffer()
        &&& self.state() == other.state()
        &&& self.write_back() == other.write_back()
    }

    /// The backend and the geometry are as in `other`.
    pub open spec fn same_device(&self, other: &Self) -> bool {
        &&& self.backend() == other.backend()
        &&& self.block_count() == other.block_count()
        &&& self.partition_size() == other.partition_size()
        &&& self.partition_offset() == other.partition_offset()
        &&& self.name_buffer() == other.name_buffer()
        &&& self.mount_buffer() == other.mount_buffer()
    }

    /// An adapter over `block_dev` under the device name `name`, to be
    /// mounted at `mount_point`. Each name must fit its fixed buffer with
    /// its terminator and hold no zero byte; the geometry is found by
    /// `dev_open`.
    pub fn with_names(block_dev: K::DevType, name: &str, mount_point: &str) -> (r: Result<
        Self,
        i32,
    >)
        ensures
            r is Err <==> c_buffer_error(name.spec_bytes(), DEV_NAME_LEN as nat) is Some
                || c_buffer_error(mount_point.spec_bytes(), MOUNT_POINT_LEN as nat) is Some,
            r matches Err(e) ==> e == match c_buffer_error(name.spec_bytes(), DEV_NAME_LEN as nat) {
                Some(ne) => ne,
                None => c_buffer_error(mount_point.spec_bytes(), MOUNT_POINT_LEN as nat)->0,
            },
            r matches Ok(w) ==> {
                &&& w.wf()
                &&& w.backend() == block_dev
                &&& w.name_buffer() == c_buffer(name.spec_bytes(), DEV_NAME_LEN as nat)
                &&& w.mount_buffer() == c_buffer(
                    mount_point.spec_bytes(),
                    MOUNT_POINT_LEN as nat,
                )
                &&& w.block_count() == 0
                &&& w.partition_size() == 0
                &&& w.partition_offset() == 0
                &&& w.state() == MountState::Unregistered
                &&& !w.write_back()
            },
    {
        let name_buf = match c_buffer_of(name.as_bytes(), DEV_NAME_LEN) {
            Ok(v) => v,
            Err(e) => return Err(e),
        };
        let mount_buf = match c_buffer_of(mount_point.as_bytes(), MOUNT_POINT_LEN) {
            Ok(v) => v,
            Err(e) => return Err(e),
        };
        Ok(Ext4BlockWrapper {
            block_dev,
            ph_bsize: EXT4_DEV_BSIZE,
            ph_bcnt: 0,
            part_offset: 0,
            part_size: 0,
            name: name_buf,
            mount_point: mount_buf,
            state: MountState::Unregistered,
            write_back: false,
        })
    }

    /// An adapter over `block_dev` under the device name `ext4_fs`, to be
    /// mounted at `/mp/`.
    pub fn new(block_dev: K::DevType) -> (r: Result<Self, i32>)
        ensures
            r matches Ok(w) && {
                &&& w.wf()
                &&& w.backend() == block_dev
                &&& w.name_buffer() == c_buffer("ext4_fs".spec_bytes(), DEV_NAME_LEN as nat)
                &&& w.mount_buffer() == c_buffer("/mp/".spec_bytes(), MOUNT_POINT_LEN as nat)
                &&& w.block_count() == 0
                &&& w.partition_size() == 0
                &&& w.partition_offset() == 0
                &&& w.state() == MountState::Unregistered
                &&& !w.write_back()
            },
    {
        proof {
            reveal_strlit("ext4_fs");
            reveal_strlit("/mp/");
            vstd::string::is_ascii_spec_bytes("ext4_fs");
            vstd::string::is_ascii_spec_bytes("/mp/");
            assert(!"ext4_fs".spec_bytes().contains(0u8));
            assert(!"/mp/".spec_bytes().contains(0u8));
        }
        Self::with_names(block_dev, "ext4_fs", "/mp/")
    }

    /// Opening the device: finds the medium's size by seeking to its end,
    /// and sets the partition to the whole medium. `EFAULT` if the backend
    /// cannot seek, and then nothing changes.
    pub fn dev_open(&mut self) -> (r: i32)
        requires
            old(self).wf(),
        ensures
            final(self).wf(),
            final(self).same_names(old(self)),
            final(self).medium() == old(self).medium(),
            r == EOK || r == EFAULT,
            r == EOK ==> {
                &&& final(self).partition_offset() == 0
                &&& final(self).partition_size() == old(self).medium().len()
                &&& final(self).block_count() as int == old(self).medium().len() as int / (
                EXT4_DEV_BSIZE as int)
            },
            r == EFAULT ==> final(self).partition_offset() == old(self).partition_offset()
                && final(self).partition_size() == old(self).partition_size()
                && final(self).block_count() == old(self).block_count(),
            old(self).faithful() && old(self).medium().len() <= i64::MAX ==> r == EOK
                && final(self).faithful(),
    {
        let seek = K::seek(&mut self.block_dev, 0, SEEK_END);
        match open_geometry(&seek) {
            Ok((size, count)) => {
                self.part_offset = 0;
                self.part_size = size;
                self.ph_bcnt = count;
                EOK
            },
            Err(e) => e,
        }
    }

    /// Reads `blk_cnt` blocks from block `blk_id` into `buf`, which holds
    /// exactly that many blocks. `EIO` if the block lies beyond a signed
    /// 64-bit offset, or the backend fails to seek or to read; the medium
    /// never changes. On a faithful backend, blocks inside the medium are
    /// always read whole.
    pub fn dev_bread(&mut self, buf: &mut [u8], blk_id: u64, blk_cnt: u32) -> (r: i32)
        requires
            old(self).wf(),
            old(buf)@.len() == blk_cnt * EXT4_DEV_BSIZE,
        ensures
            final(self).wf(),
            final(self).same_names(old(self)),
            final(self).medium() == old(self).medium(),
            final(self).block_count() == old(self).block_count(),
            final(self).partition_size() == old(self).partition_size(),
            final(self).partition_offset() == old(self).partition_offset(),
            final(buf)@.len() == old(buf)@.len(),
            r == EOK || r == EIO,
            blk_id > MAX_BLOCK_ID ==> r == EIO && *final(self) == *old(self) && final(buf)@ == old(
                buf,
            )@,
            r == EOK && blk_cnt > 0 ==> exists|n: int|
                0 <= n <= old(buf)@.len() && #[trigger] final(buf)@.subrange(0, n) == old(
                    self,
                ).medium().subrange(block_offset(blk_id), block_offset(blk_id) + n),
            old(self).faithful() && block_offset(blk_id) + blk_cnt * EXT4_DEV_BSIZE <= old(
                self,
            ).medium().len() <= i64::MAX ==> {
                &&& r == EOK
                &&& final(buf)@ == block_range(old(self).medium(), blk_id, blk_cnt)
                &&& final(self).faithful()
            },
    {
        if blk_id > MAX_BLOCK_ID {
            return EIO;
        }
        let off = (blk_id * (self.ph_bsize as u64)) as i64;
        let seek = K::seek(&mut self.block_dev, off, SEEK_SET);
        let ghost at = K::position(&self.block_dev);
        let transfer = if seek.is_ok() && blk_cnt > 0 {
            Some(K::read(&mut self.block_dev, buf))
        } else {
            None
        };
        let r = block_io_status(&seek, &transfer);
        proof {
            if r == EOK && blk_cnt > 0 {
                let n = transfer->0->Ok_0 as int;
                assert(at == block_offset(blk_id));
                assert(buf@.subrange(0, n) == old(self).medium().subrange(
                    block_offset(blk_id),
                    block_offset(blk_id) + n,
                ));
            }
            if old(self).faithful() && block_offset(blk_id) + blk_cnt * EXT4_DEV_BSIZE <= old(
                self,
            ).medium().len() <= i64::MAX {
                assert(r == EOK);
                if blk_cnt > 0 {
                    assert(buf@ =~= buf@.subrange(0, buf@.len() as int));
                }
                assert(buf@ =~= block_range(old(self).medium(), blk_id, blk_cnt));
            }
        }
        r
    }

    /// Writes the `blk_cnt` blocks of `buf` from block `blk_id` on. `EIO` if
    /// the block lies beyond a signed 64-bit offset, or the backend fails to
    /// seek or to write. On a faithful backend, blocks inside the medium are
    /// always written whole, and the medium keeps its size.
    pub fn dev_bwrite(&mut self, buf: &[u8], blk_id: u64, blk_cnt: u32) -> (r: i32)
        requires
            old(self).wf(),
            buf@.len() == blk_cnt * EXT4_DEV_BSIZE,
        ensures
            final(self).wf(),
            final(self).same_names(old(self)),
            final(self).block_count() == old(self).block_count(),
            final(self).partition_size() == old(self).partition_size(),
            final(self).partition_offset() == old(self).partition_offset(),
            r == EOK || r == EIO,
            blk_id > MAX_BLOCK_ID ==> r == EIO && *final(self) == *old(self),
            r == EOK && blk_cnt > 0 ==> exists|n: int|
                0 <= n <= buf@.len() && #[trigger] written(
                    old(self).medium(),
                    final(self).medium(),
                    block_offset(blk_id),
                    buf@.subrange(0, n),
                ),
            r == EOK && blk_cnt == 0 ==> final(self).medium() == old(self).medium(),
            old(self).faithful() && block_offset(blk_id) + blk_cnt * EXT4_DEV_BSIZE <= old(
                self,
            ).medium().len() <= i64::MAX ==> {
                &&& r == EOK
                &&& written(old(self).medium(), final(self).medium(), block_offset(blk_id), buf@)
                &&& final(self).medium().len() == old(self).medium().len()
                &&& final(self).faithful()
            },
    {
        if blk_id > MAX_BLOCK_ID {
            return EIO;
        }
        let off = (blk_id * (self.ph_bsize as u64)) as i64;
        let seek = K::seek(&mut self.block_dev, off, SEEK_SET);
        let ghost at = K::position(&self.block_dev);
        let ghost mid = K::medium(&self.block_dev);
        let transfer = if seek.is_ok() && blk_cnt > 0 {
            Some(K::write(&mut self.block_dev, buf))
        } else {
            None
        };
        let r = block_io_status(&seek, &transfer);
        proof {
            if r == EOK && blk_cnt > 0 {
                let n = transfer->0->Ok_0 as int;
                assert(at == block_offset(blk_id));
                assert(written(
                    old(self).medium(),
                    self.medium(),
                    block_offset(blk_id),
                    buf@.subrange(0, n),
                ));
            }
            if old(self).faithful() && block_offset(blk_id) + blk_cnt * EXT4_DEV_BSIZE <= old(
                self,
            ).medium().len() <= i64::MAX {
                assert(r == EOK);
                if blk_cnt > 0 {
                    assert(buf@.subrange(0, buf@.len() as int) =~= buf@);
                } else {
                    assert(self.medium().subrange(block_offset(blk_id), block_offset(blk_id))
                        =~= buf@);
                }
            }
        }
        r
    }

    /// The backend.
    pub fn block_dev(&self) -> (r: &K::DevType)
        ensures
            *r == self.backend(),
    {
        &self.block_dev
    }

    /// The device block size.
    pub fn block_size(&self) -> (r: u32)
        requires
            self.wf(),
        ensures
            r == EXT4_DEV_BSIZE,
    {
        self.ph_bsize
    }

    /// Number of blocks, as found when the device was opened.
    pub fn get_block_count(&self) -> (r: u64)
        ensures
            r == self.block_count(),
    {
        self.ph_bcnt
    }

    /// Size of the partition in bytes.
    pub fn get_partition_size(&self) -> (r: u64)
        ensures
            r == self.partition_size(),
    {
        self.part_size
    }

    /// Byte offset of the partition on the medium.
    pub fn get_partition_offset(&self) -> (r: u64)
        ensures
            r == self.partition_offset(),
    {
        self.part_offset
    }

    /// The null-terminated device-name buffer, as the engine takes it.
    pub fn name_bytes(&self) -> (r: &Vec<u8>)
        ensures
            r@ == self.name_buffer(),
    {
        &self.name
    }

    /// The null-terminated mount-path buffer, as the engine takes it.
    pub fn mount_point_bytes(&self) -> (r: &Vec<u8>)
        ensures
            r@ == self.mount_buffer(),
    {
        &self.mount_point
    }

    /// Whether file and directory handles may be opened: only once the
    /// device is mounted with journaling active.
    pub fn handles_allowed(&self) -> (r: bool)
        ensures
            r == (self.state() == MountState::JournalActive),
    {
        self.state == MountState::JournalActive
    }

    /// Where the device stands in its mount lifecycle.
    pub fn mount_state(&self) -> (r: MountState)
        ensures
            r == self.state(),
    {
        self.state
    }

    /// Whether write-back caching is on.
    pub fn write_back_enabled(&self) -> (r: bool)
        ensures
            r == self.write_back(),
    {
        self.write_back
    }

    /// The engine call that mounting makes next; `None` once the device is
    /// mounted with journaling and write-back caching active.
    pub fn next_mount_op(&self) -> (r: Option<MountOp>)
        ensures
            r == mount_op(self.state(), self.write_back()),
    {
        match self.state {
            MountState::Unregistered => Some(MountOp::Register),
            MountState::Registered => Some(MountOp::Mount),
            MountState::Mounted => Some(MountOp::Recover),
            MountState::Recovered => Some(MountOp::JournalStart),
            MountState::JournalActive => if self.write_back {
                None
            } else {
                Some(MountOp::CacheWriteBack(true))
            },
        }
    }

    /// Takes the engine's status `rc` for the call that `next_mount_op`
    /// named. A refused step is returned as `Err(rc)` and leaves the
    /// lifecycle where it was; the registration stays in place. Turning on
    /// write-back caching has no status and always succeeds.
    pub fn mount_step(&mut self, rc: i32) -> (r: Result<(), i32>)
        requires
            old(self).wf(),
        ensures
            final(self).wf(),
            final(self).same_device(old(self)),
            match mount_op(old(self).state(), old(self).write_back()) {
                None => r is Ok && final(self).state() == old(self).state()
                    && final(self).write_back() == old(self).write_back(),
                Some(MountOp::CacheWriteBack(_)) => r is Ok && final(self).state() == old(
                    self,
                ).state() && final(self).write_back(),
                Some(_) => if step_accepts(old(self).state(), rc) {
                    r is Ok && final(self).state() == mount_advance(old(self).state())
                        && final(self).write_back() == old(self).write_back()
                } else {
                    r == Err::<(), i32>(rc) && final(self).state() == old(self).state()
                        && final(self).write_back() == old(self).write_back()
                },
            },
    {
        match self.state {
            MountState::JournalActive => {
                self.write_back = true;
                return Ok(());
            },
            _ => {},
        }
        let accepted = rc == EOK || (self.state == MountState::Mounted && rc == ENOTSUP);
        if !accepted {
            return Err(rc);
        }
        self.state =
        match self.state {
            MountState::Unregistered => MountState::Registered,
            MountState::Registered => MountState::Mounted,
            MountState::Mounted => MountState::Recovered,
            _ => MountState::JournalActive,
        };
        Ok(())
    }

    /// The engine call that teardown makes next: write-back caching off,
    /// journal stop, unmount, unregister; `None` once unregistered.
    pub fn next_umount_op(&self) -> (r: Option<MountOp>)
        ensures
            r == umount_op(self.state(), self.write_back()),
    {
        if self.write_back {
            return Some(MountOp::CacheWriteBack(false));
        }
        match self.state {
            MountState::JournalActive => Some(MountOp::JournalStop),
            MountState::Recovered => Some(MountOp::Umount),
            MountState::Mounted => Some(MountOp::Umount),
            MountState::Registered => Some(MountOp::Unregister),
            MountState::Unregistered => None,
        }
    }

    /// Takes the engine's status `rc` for the call that `next_umount_op`
    /// named. Teardown stops at the first failure: it is returned as
    /// `Err(rc)` and the lifecycle stays where it was.
    pub fn umount_step(&mut self, rc: i32) -> (r: Result<(), i32>)
        requires
            old(self).wf(),
        ensures
            final(self).wf(),
            final(self).same_device(old(self)),
            match umount_op(old(self).state(), old(self).write_back()) {
                None => r is Ok && final(self).state() == old(self).state()
                    && final(self).write_back() == old(self).write_back(),
                Some(MountOp::CacheWriteBack(_)) => r is Ok && final(self).state() == old(
                    self,
                ).state() && !final(self).write_back(),
                Some(_) => if rc == EOK {
                    r is Ok && final(self).state() == umount_retreat(old(self).state())
                        && !final(self).write_back()
                } else {
                    r == Err::<(), i32>(rc) && final(self).state() == old(self).state()
                        && final(self).write_back() == old(self).write_back()
                },
            },
    {
        if self.write_back {
            self.write_back = false;
            return Ok(());
        }
        match self.state {
            MountState::Unregistered => return Ok(()),
            _ => {},
        }
        if rc != EOK {
            return Err(rc);
        }
        self.state =
        match self.state {
            MountState::JournalActive => MountState::Mounted,
            MountState::Registered => MountState::Unregistered,
            _ => MountState::Registered,
        };
        Ok(())
    }

    /// Closing the device: the backend stays with the adapter, so nothing
    /// is released.
    pub fn dev_close(&mut self) -> (r: i32)
        ensures
            *final(self) == *old(self),
            r == EOK,
    {
        EOK
    }
}

/// A block write followed by a block read at the same block and count
/// gives back the bytes written: whatever medium `before` was, the medium
/// `after` that a successful `dev_bwrite` of `data` leaves holds `data` at
/// those blocks, and that is what a successful `dev_bread` returns.
pub proof fn lemma_block_write_read_round_trip(
    before: Seq<u8>,
    after: Seq<u8>,
    blk_id: u64,
    blk_cnt: u32,
    data: Seq<u8>,
)
    requires
        data.len() == blk_cnt * EXT4_DEV_BSIZE,
        written(before, after, block_offset(blk_id), data),
    ensures
        block_range(after, blk_id, blk_cnt) == data,
{
    assert(block_range(after, blk_id, blk_cnt) =~= after.subrange(
        block_offset(blk_id),
        block_offset(blk_id) + data.len(),
    ));
}

} // verus!
