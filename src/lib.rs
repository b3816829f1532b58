//! A journaled, block-structured filesystem adapter: an arbitrary byte
//! backend is presented to a callback-driven filesystem engine as a block
//! device, and the engine's mount lifecycle, file positions and directory
//! entries are handled through verified logic.
#![allow(non_camel_case_types)]

pub mod blockdev;
pub mod dir;
pub mod file;
pub mod memdisk;
pub mod mount;

pub use blockdev::{Ext4BlockWrapper, KernelDevOp, EXT4_DEV_BSIZE};
pub use dir::{Ext4Dir, Ext4DirEntry};
pub use file::{Ext4File, InodeTypes};
pub use memdisk::MemoryDisk;
pub use mount::{MountOp, MountState};
