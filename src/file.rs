use vstd::prelude::*;
use crate::blockdev::EINVAL;

verus! {

/// Directory-entry kinds and inode-mode bit values of the engine.
#[allow(non_camel_case_types)]
#[derive(PartialEq, Eq, Structural, Clone, Copy, Debug)]
pub enum InodeTypes {
    EXT4_DE_UNKNOWN,
    EXT4_DE_REG_FILE,
    EXT4_DE_DIR,
    EXT4_DE_CHRDEV,
    EXT4_DE_BLKDEV,
    EXT4_DE_FIFO,
    EXT4_DE_SOCK,
    EXT4_DE_SYMLINK,
    EXT4_INODE_MODE_FIFO,
    EXT4_INODE_MODE_CHARDEV,
    EXT4_INODE_MODE_DIRECTORY,
    EXT4_INODE_MODE_BLOCKDEV,
    EXT4_INODE_MODE_FILE,
    EXT4_INODE_MODE_SOFTLINK,
    EXT4_INODE_MODE_SOCKET,
    EXT4_INODE_MODE_TYPE_MASK,
}

/// The engine's numeric value of each kind.
pub open spec fn inode_type_code(t: InodeTypes) -> u32 {
    match t {
        InodeTypes::EXT4_DE_UNKNOWN => 0,
        InodeTypes::EXT4_DE_REG_FILE => 1,
        InodeTypes::EXT4_DE_DIR => 2,
        InodeTypes::EXT4_DE_CHRDEV => 3,
        InodeTypes::EXT4_DE_BLKDEV => 4,
        InodeTypes::EXT4_DE_FIFO => 5,
        InodeTypes::EXT4_DE_SOCK => 6,
        InodeTypes::EXT4_DE_SYMLINK => 7,
        InodeTypes::EXT4_INODE_MODE_FIFO => 0x1000,
        InodeTypes::EXT4_INODE_MODE_CHARDEV => 0x2000,
        InodeTypes::EXT4_INODE_MODE_DIRECTORY => 0x4000,
        InodeTypes::EXT4_INODE_MODE_BLOCKDEV => 0x6000,
        InodeTypes::EXT4_INODE_MODE_FILE => 0x8000,
        InodeTypes::EXT4_INODE_MODE_SOFTLINK => 0xA000,
        InodeTypes::EXT4_INODE_MODE_SOCKET => 0xC000,
        InodeTypes::EXT4_INODE_MODE_TYPE_MASK => 0xF000,
    }
}

/// The kind whose code is `num`; any other value is `EXT4_DE_UNKNOWN`.
pub open spec fn inode_type_of(num: usize) -> InodeTypes {
    if num == 1 {
        InodeTypes::EXT4_DE_REG_FILE
    } else if num == 2 {
        InodeTypes::EXT4_DE_DIR
    } else if num == 3 {
        InodeTypes::EXT4_DE_CHRDEV
    } else if num == 4 {
        InodeTypes::EXT4_DE_BLKDEV
    } else if num == 5 {
        InodeTypes::EXT4_DE_FIFO
    } else if num == 6 {
        InodeTypes::EXT4_DE_SOCK
    } else if num == 7 {
        InodeTypes::EXT4_DE_SYMLINK
    } else if num == 0x1000 {
        InodeTypes::EXT4_INODE_MODE_FIFO
    } else if num == 0x2000 {
        InodeTypes::EXT4_INODE_MODE_CHARDEV
    } else if num == 0x4000 {
        InodeTypes::EXT4_INODE_MODE_DIRECTORY
    } else if num == 0x6000 {
        InodeTypes::EXT4_INODE_MODE_BLOCKDEV
    } else if num == 0x8000 {
        InodeTypes::EXT4_INODE_MODE_FILE
    } else if num == 0xA000 {
        InodeTypes::EXT4_INODE_MODE_SOFTLINK
    } else if num == 0xC000 {
        InodeTypes::EXT4_INODE_MODE_SOCKET
    } else if num == 0xF000 {
        InodeTypes::EXT4_INODE_MODE_TYPE_MASK
    } else {
        InodeTypes::EXT4_DE_UNKNOWN
    }
}

impl InodeTypes {
    /// The engine's numeric value of this kind.
    pub fn code(&self) -> (r: u32)
        ensures
            r == inode_type_code(*self),
    {
        match self {
            InodeTypes::EXT4_DE_UNKNOWN => 0,
            InodeTypes::EXT4_DE_REG_FILE => 1,
            InodeTypes::EXT4_DE_DIR => 2,
            InodeTypes::EXT4_DE_CHRDEV => 3,
            InodeTypes::EXT4_DE_BLKDEV => 4,
            InodeTypes::EXT4_DE_FIFO => 5,
            InodeTypes::EXT4_DE_SOCK => 6,
            InodeTypes::EXT4_DE_SYMLINK => 7,
            InodeTypes::EXT4_INODE_MODE_FIFO => 0x1000,
            InodeTypes::EXT4_INODE_MODE_CHARDEV => 0x2000,
            InodeTypes::EXT4_INODE_MODE_DIRECTORY => 0x4000,
            InodeTypes::EXT4_INODE_MODE_BLOCKDEV => 0x6000,
            InodeTypes::EXT4_INODE_MODE_FILE => 0x8000,
            InodeTypes::EXT4_INODE_MODE_SOFTLINK => 0xA000,
            InodeTypes::EXT4_INODE_MODE_SOCKET => 0xC000,
            InodeTypes::EXT4_INODE_MODE_TYPE_MASK => 0xF000,
        }
    }
}

impl From<usize> for InodeTypes {
    /// Decodes an engine value; unrecognised values become `EXT4_DE_UNKNOWN`.
    fn from(num: usize) -> (r: InodeTypes) {
        if num == 1 {
            InodeTypes::EXT4_DE_REG_FILE
        } else if num == 2 {
            InodeTypes::EXT4_DE_DIR
        } else if num == 3 {
            InodeTypes::EXT4_DE_CHRDEV
        } else if num == 4 {
            InodeTypes::EXT4_DE_BLKDEV
        } else if num == 5 {
            InodeTypes::EXT4_DE_FIFO
        } else if num == 6 {
            InodeTypes::EXT4_DE_SOCK
        } else if num == 7 {
            InodeTypes::EXT4_DE_SYMLINK
        } else if num == 0x1000 {
            InodeTypes::EXT4_INODE_MODE_FIFO
        } else if num == 0x2000 {
            InodeTypes::EXT4_INODE_MODE_CHARDEV
        } else if num == 0x4000 {
            InodeTypes::EXT4_INODE_MODE_DIRECTORY
        } else if num == 0x6000 {
            InodeTypes::EXT4_INODE_MODE_BLOCKDEV
        } else if num == 0x8000 {
            InodeTypes::EXT4_INODE_MODE_FILE
        } else if num == 0xA000 {
            InodeTypes::EXT4_INODE_MODE_SOFTLINK
        } else if num == 0xC000 {
            InodeTypes::EXT4_INODE_MODE_SOCKET
        } else if num == 0xF000 {
            InodeTypes::EXT4_INODE_MODE_TYPE_MASK
        } else {
            InodeTypes::EXT4_DE_UNKNOWN
        }
    }
}

impl vstd::std_specs::convert::FromSpecImpl<usize> for InodeTypes {
    open spec fn obeys_from_spec() -> bool {
        true
    }

    open spec fn from_spec(num: usize) -> InodeTypes {
        inode_type_of(num)
    }
}

/// Decoding the code of any kind gives that kind back.
pub proof fn lemma_inode_type_round_trip(t: InodeTypes)
    ensures
        inode_type_of(inode_type_code(t) as usize) == t,
{
}

/// The offset that a seek uses: one past the file's size is clamped to it.
pub open spec fn clamped_offset(offset: i64, size: u64) -> int {
    if offset > size {
        size as int
    } else {
        offset as int
    }
}

/// Filesystem block size for the superblock's log2-encoded field.
pub open spec fn fs_block_size(log_block_size: u32) -> int {
    1024 * (vstd::arithmetic::power2::pow2(log_block_size as nat) as int)
}

/// The absolute device block that holds byte `pos` of a file, when the
/// filesystem block holding it is `fblock`.
pub open spec fn device_block_index(
    pos: u64,
    log_block_size: u32,
    fblock: u64,
    part_offset: u64,
    ph_bsize: u32,
) -> int {
    let bs = fs_block_size(log_block_size);
    (fblock as int * bs + pos as int % bs + part_offset as int) / (ph_bsize as int)
}

/// Largest log2-encoded block size field taken: 1024 << 53 still fits 64 bits.
pub const MAX_LOG_BLOCK_SIZE: u32 = 53;

/// An open file, as the engine's file record describes it: its inode, the
/// flags it was opened with, its size and the current position.
pub struct Ext4File {
    inode: u32,
    flags: u32,
    fsize: u64,
    fpos: u64,
}

impl Ext4File {
    /// The file's inode number.
    pub closed spec fn inode_no(&self) -> u32 {
        self.inode
    }

    /// The open flags.
    pub closed spec fn open_flags(&self) -> u32 {
        self.flags
    }

    /// The file's size in bytes.
    pub closed spec fn spec_size(&self) -> u64 {
        self.fsize
    }

    /// The current position.
    pub closed spec fn position(&self) -> u64 {
        self.fpos
    }

    /// The record of a file opened with `flags`, of `fsize` bytes, at
    /// position `fpos`.
    pub fn from_parts(inode: u32, flags: u32, fsize: u64, fpos: u64) -> (r: Ext4File)
        ensures
            r.inode_no() == inode,
            r.open_flags() == flags,
            r.spec_size() == fsize,
            r.position() == fpos,
    {
        Ext4File { inode, flags, fsize, fpos }
    }

    /// The file's inode number.
    pub fn inode(&self) -> (r: u32)
        ensures
            r == self.inode_no(),
    {
        self.inode
    }

    /// The open flags.
    pub fn flags(&self) -> (r: u32)
        ensures
            r == self.open_flags(),
    {
        self.flags
    }

    /// The offset that a seek hands to the engine, with the caller's origin
    /// unchanged: an offset beyond the size is clamped to the size, any
    /// other is passed through.
    pub fn seek_offset(&self, offset: i64) -> (r: i64)
        ensures
            r == clamped_offset(offset, self.spec_size()),
    {
        if offset as i128 > self.fsize as i128 {
            self.fsize as i64
        } else {
            offset
        }
    }

    /// The current position.
    pub fn tell(&self) -> (r: u64)
        ensures
            r == self.position(),
    {
        self.fpos
    }

    /// The file's size in bytes.
    pub fn size(&self) -> (r: u64)
        ensures
            r == self.spec_size(),
    {
        self.fsize
    }

    /// The file's logical block at the current position, for the
    /// superblock's log2-encoded block size field. `EINVAL` where that field
    /// is out of range or the block number does not fit 32 bits.
    pub fn logical_block(&self, log_block_size: u32) -> (r: Result<u32, i32>)
        ensures
            log_block_size > MAX_LOG_BLOCK_SIZE ==> r == Err::<u32, i32>(EINVAL),
            log_block_size <= MAX_LOG_BLOCK_SIZE ==> {
                let b = self.position() as int / fs_block_size(log_block_size);
                &&& b <= u32::MAX ==> r == Ok::<u32, i32>(b as u32)
                &&& b > u32::MAX ==> r == Err::<u32, i32>(EINVAL)
            },
    {
        if log_block_size > MAX_LOG_BLOCK_SIZE {
            return Err(EINVAL);
        }
        let bs = block_size_of(log_block_size);
        let b = self.fpos / bs;
        if b > u32::MAX as u64 {
            Err(EINVAL)
        } else {
            Ok(b as u32)
        }
    }

    /// The absolute device block that holds the byte at the current
    /// position, where `fblock` is the filesystem block that the engine
    /// resolved for it, `part_offset` the partition's byte offset and
    /// `ph_bsize` the device block size. `EINVAL` where the field is out of
    /// range or the byte offset does not fit 64 bits.
    pub fn block_index(&self, log_block_size: u32, fblock: u64, part_offset: u64, ph_bsize: u32)
        -> (r: Result<u64, i32>)
        requires
            ph_bsize > 0,
        ensures
            log_block_size > MAX_LOG_BLOCK_SIZE ==> r == Err::<u64, i32>(EINVAL),
            log_block_size <= MAX_LOG_BLOCK_SIZE ==> {
                let bs = fs_block_size(log_block_size);
                let off = fblock as int * bs + self.position() as int % bs + part_offset as int;
                &&& off <= u64::MAX ==> r == Ok::<u64, i32>(
                    device_block_index(
                        self.position(),
                        log_block_size,
                        fblock,
                        part_offset,
                        ph_bsize,
                    ) as u64,
                )
                &&& off > u64::MAX ==> r == Err::<u64, i32>(EINVAL)
            },
    {
        if log_block_size > MAX_LOG_BLOCK_SIZE {
            return Err(EINVAL);
        }
        let bs = block_size_of(log_block_size);
        let unalg = self.fpos % bs;
        proof {
            let (f, b) = (fblock as int, bs as int);
            assert(f * b <= 0xffff_ffff_ffff_ffffint * 0xffff_ffff_ffff_ffffint) by (nonlinear_arith)
                requires
                    0 <= f <= 0xffff_ffff_ffff_ffffint,
                    0 <= b <= 0xffff_ffff_ffff_ffffint,
            ;
        }
        let prod: u128 = fblock as u128 * bs as u128;
        let off: u128 = prod + unalg as u128 + part_offset as u128;
        if off > u64::MAX as u128 {
            return Err(EINVAL);
        }
        Ok((off / ph_bsize as u128) as u64)
    }
}

/// A seek to any offset past a file's size is handed to the engine as a
/// seek to the size itself, not refused: the offset is clamped.
pub proof fn lemma_seek_past_end_clamps(size: u64, offset: i64)
    requires
        offset > size,
    ensures
        clamped_offset(offset, size) == size,
{
}

/// `1024 << log_block_size`.
fn block_size_of(log_block_size: u32) -> (r: u64)
    requires
        log_block_size <= MAX_LOG_BLOCK_SIZE,
    ensures
        r == fs_block_size(log_block_size),
        r > 0,
{
    let mut bs: u64 = 1024;
    let mut i: u32 = 0;
    proof {
        vstd::arithmetic::power2::lemma2_to64();
    }
    while i < log_block_size
        invariant
            i <= log_block_size <= MAX_LOG_BLOCK_SIZE,
            bs == 1024 * (vstd::arithmetic::power2::pow2(i as nat) as int),
        decreases log_block_size - i,
    {
        proof {
            vstd::arithmetic::power2::lemma_pow2_unfold((i + 1) as nat);
            vstd::arithmetic::power2::lemma_pow2_strictly_increases(i as nat, 53);
            vstd::arithmetic::power2::lemma2_to64();
            vstd::arithmetic::power2::lemma2_to64_rest();
        }
        bs = bs * 2;
        i = i + 1;
    }
    proof {
        vstd::arithmetic::power2::lemma_pow2_pos(log_block_size as nat);
    }
    bs
}

} // verus!
