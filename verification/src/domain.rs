//! The objects a file system is made of.
use vstd::prelude::*;

verus! {

/// The number of an inode.
pub type InodeId = u64;

/// The number of a block on the disk.
pub type BlockId = u64;

/// Whether an inode holds a regular file or a directory.
pub enum FileType {
    File,
    Directory,
}

/// What is recorded of a file besides its contents.
pub struct Metadata {
    pub file_type: FileType,
    pub size: u128,
}

/// An entry of the inode table.
pub enum Inode {
    File { id: InodeId, metadata: Metadata, data_pointers: Vec<BlockId> },
    Directory { id: InodeId, directories: Vec<DirectoryEntry> },
}

/// A name in a directory and the inode it stands for.
pub struct DirectoryEntry {
    pub name: String,
    pub inode_id: InodeId,
}

} // verus!
