//! The file system kept in memory over a disk of blocks.

pub mod filesystem;
pub mod metadata;
