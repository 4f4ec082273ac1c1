//! The errors of the file system and of the disk below it.
use vstd::prelude::*;

verus! {

/// What a disk can fail with.
#[derive(Debug)]
pub enum DiskError {
    /// The disk has no space.
    NoSpace,
}

/// What a file system operation can fail with.
#[derive(Debug)]
pub enum FsError {
    /// The disk below failed.
    DiskError(DiskError),
    /// The file system could not be set up from what the disk holds.
    InitError(String),
}

pub type FsResult<T> = Result<T, FsError>;

pub type DiskResult<T> = Result<T, DiskError>;

impl From<DiskError> for FsError {
    /// A failure of the disk, as the file system reports it.
    fn from(e: DiskError) -> (r: FsError) {
        FsError::DiskError(e)
    }
}

impl vstd::std_specs::convert::FromSpecImpl<DiskError> for FsError {
    open spec fn obeys_from_spec() -> bool {
        true
    }

    open spec fn from_spec(e: DiskError) -> FsError {
        FsError::DiskError(e)
    }
}

} // verus!
