//! A block-based file system core: the on-disk super block and the byte
//! stream that the inode table is read from, with their contracts.

pub mod big_endian;
pub mod domain;
pub mod error;
pub mod memory_fs;
pub mod storage;
