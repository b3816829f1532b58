use vstd::prelude::*;
use crate::blockdev::{zeroed, KernelDevOp, EINVAL, SEEK_CUR, SEEK_END, SEEK_SET};

verus! {

/// A fixed-size medium held in memory: every byte written is kept and read
/// back unchanged.
pub struct MemoryDisk {
    data: Vec<u8>,
    pos: usize,
}

impl MemoryDisk {
    /// The bytes the disk holds.
    pub closed spec fn bytes(&self) -> Seq<u8> {
        self.data@
    }

    /// The cursor's byte position.
    pub closed spec fn cursor(&self) -> int {
        self.pos as int
    }

    /// The cursor never passes the end.
    pub open spec fn wf(&self) -> bool {
        self.cursor() <= self.bytes().len()
    }

    /// A disk of `size` zero bytes, with the cursor at the start.
    pub fn new(size: usize) -> (r: MemoryDisk)
        ensures
            r.wf(),
            r.bytes() == Seq::new(size as nat, |i: int| 0u8),
            r.cursor() == 0,
    {
        let data = zeroed(size);
        MemoryDisk { data, pos: 0 }
    }

    /// A disk holding `data`, with the cursor at the start.
    pub fn from_bytes(data: Vec<u8>) -> (r: MemoryDisk)
        ensures
            r.wf(),
            r.bytes() == data@,
            r.cursor() == 0,
    {
        MemoryDisk { data, pos: 0 }
    }

    /// The bytes the disk holds.
    pub fn contents(&self) -> (r: &Vec<u8>)
        ensures
            r@ == self.bytes(),
    {
        &self.data
    }
}

impl KernelDevOp for MemoryDisk {
    type DevType = MemoryDisk;

    open spec fn medium(dev: &MemoryDisk) -> Seq<u8> {
        dev.bytes()
    }

    open spec fn position(dev: &MemoryDisk) -> int {
        dev.cursor()
    }

    open spec fn faithful(dev: &MemoryDisk) -> bool {
        dev.wf()
    }

    /// Reads as many bytes as remain before the end, up to `buf`'s length.
    fn read(dev: &mut MemoryDisk, buf: &mut [u8]) -> (r: Result<usize, i32>) {
        if dev.pos > dev.data.len() {
            return Err(EINVAL);
        }
        let start = dev.pos;
        let avail = dev.data.len() - start;
        let n = if buf.len() < avail { buf.len() } else { avail };
        let end = start + n;
        let mut i: usize = 0;
        while i < n
            invariant
                n <= buf@.len(),
                start + n <= dev.data@.len(),
                end == start + n,
                i <= n,
                buf@.len() == old(buf)@.len(),
                forall|j: int| 0 <= j < i ==> buf@[j] == dev.data@[start + j],
            decreases n - i,
        {
            buf[i] = dev.data[start + i];
            i = i + 1;
        }
        assert(buf@.subrange(0, n as int) =~= dev.data@.subrange(start as int, start + n));
        dev.pos = start + n;
        Ok(n)
    }

    /// Writes as many bytes as fit before the end; the size never changes.
    fn write(dev: &mut MemoryDisk, buf: &[u8]) -> (r: Result<usize, i32>) {
        if dev.pos > dev.data.len() {
            return Err(EINVAL);
        }
        let start = dev.pos;
        let avail = dev.data.len() - start;
        let n = if buf.len() < avail { buf.len() } else { avail };
        let end = start + n;
        let ghost before = dev.data@;
        let mut i: usize = 0;
        while i < n
            invariant
                n <= buf@.len(),
                start + n <= dev.data@.len(),
                end == start + n,
                dev.data@.len() == before.len(),
                i <= n,
                forall|j: int| 0 <= j < i ==> dev.data@[start + j] == buf@[j],
                forall|j: int|
                    0 <= j < before.len() && !(start <= j < start + i) ==> dev.data@[j]
                        == before[j],
            decreases n - i,
        {
            dev.data.set(start + i, buf[i]);
            i = i + 1;
        }
        assert(dev.data@.subrange(start as int, start + n) =~= buf@.subrange(0, n as int));
        dev.pos = start + n;
        Ok(n)
    }

    /// Moves the cursor anywhere from the start to the end; a target outside
    /// that range is refused with `EINVAL`.
    fn seek(dev: &mut MemoryDisk, off: i64, whence: i32) -> (r: Result<i64, i32>) {
        let len = dev.data.len() as i128;
        let base: i128 = if whence == SEEK_SET {
            0
        } else if whence == SEEK_CUR {
            dev.pos as i128
        } else if whence == SEEK_END {
            len
        } else {
            return Err(EINVAL);
        };
        let target = base + off as i128;
        if target < 0 || target > len || target > i64::MAX as i128 {
            return Err(EINVAL);
        }
        dev.pos = target as usize;
        Ok(target as i64)
    }

    /// Memory needs no flushing.
    fn flush(dev: &mut MemoryDisk) -> (r: Result<usize, i32>) {
        Ok(0)
    }
}

} // verus!
