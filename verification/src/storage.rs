//! Fixed-size blocks and the disk that stores them.
use crate::domain::BlockId;
use crate::error::DiskResult;
use vstd::prelude::*;

verus! {

/// The number of bytes in a block.
pub const BLOCK_SIZE: usize = 4096;

/// One block of the disk: its number and its bytes.
pub struct Block {
    pub id: BlockId,
    pub data: [u8; BLOCK_SIZE],
}

/// A device that reads and writes whole blocks. Implemented by the users of
/// the library; nothing is assumed of what it returns.
pub trait Disk {
    fn read_block(&self, block_id: BlockId) -> DiskResult<Block>;

    fn write_block(&mut self, block_id: BlockId, data: &Block) -> DiskResult<()>;
}

} // verus!
