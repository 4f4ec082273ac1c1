//! The file system over a disk, and the byte stream that its inode table is
//! read from.
use crate::domain::BlockId;
use crate::error::{DiskError, FsError, FsResult};
use crate::memory_fs::metadata::{
    field_value, law_to_block_layout, parse_superblock, FsMetadata, InvalidSuperBlockError,
    FREE_BLOCKS_FIELD, FREE_INODES_FIELD, FS_MAGIC, INODE_TABLE_BLOCKS_FIELD,
    INODE_TABLE_START_FIELD, MAGIC_NUMBER_FIELD, ROOT_INODE_FIELD, TOTAL_BLOCKS_FIELD,
    TOTAL_INODES_FIELD,
};
use crate::storage::{Block, Disk, BLOCK_SIZE};
use vstd::prelude::*;

verus! {

/// The bytes of `blocks`, one block after the other.
pub open spec fn blocks_stream(blocks: Seq<Block>) -> Seq<u8> {
    Seq::new(
        blocks.len() * (BLOCK_SIZE as nat),
        |k: int| blocks[k / (BLOCK_SIZE as int)].data@[k % (BLOCK_SIZE as int)],
    )
}

/// The position of the first `delimiter` in `s` at or after `from`, or the
/// length of `s` where there is none.
pub open spec fn next_delimiter(s: Seq<u8>, from: int, delimiter: u8) -> int
    decreases s.len() - from,
{
    if from >= s.len() {
        s.len() as int
    } else if s[from] == delimiter {
        from
    } else {
        next_delimiter(s, from + 1, delimiter)
    }
}

/// The delimiter found by `next_delimiter` lies in `from..=s.len()`, is one
/// where it lies inside `s`, and none comes before it.
pub proof fn lemma_next_delimiter(s: Seq<u8>, from: int, delimiter: u8)
    requires
        0 <= from <= s.len(),
    ensures
        from <= next_delimiter(s, from, delimiter) <= s.len(),
        next_delimiter(s, from, delimiter) < s.len() ==> s[next_delimiter(s, from, delimiter)]
            == delimiter,
        forall|k: int| from <= k < next_delimiter(s, from, delimiter) ==> s[k] != delimiter,
    decreases s.len() - from,
{
    if from < s.len() && s[from] != delimiter {
        lemma_next_delimiter(s, from + 1, delimiter);
    }
}

/// Reads the bytes of a sequence of blocks as one stream, one byte after the
/// other, from the first byte of the first block.
pub struct BlockReader {
    blocks: Vec<Block>,
    block_idx: usize,
    position: usize,
}

impl BlockReader {
    #[verifier::type_invariant]
    spec fn position_in_blocks(self) -> bool {
        &&& self.position < BLOCK_SIZE
        &&& self.block_idx < self.blocks.len() || (self.block_idx == self.blocks.len()
            && self.position == 0)
    }

    /// The blocks that the reader reads, in order.
    pub closed spec fn blocks(self) -> Seq<Block> {
        self.blocks@
    }

    /// The bytes of all the blocks, one block after the other.
    pub closed spec fn stream(self) -> Seq<u8> {
        blocks_stream(self.blocks@)
    }

    /// How many bytes of the stream have been read.
    pub closed spec fn cursor(self) -> int {
        self.block_idx * BLOCK_SIZE + self.position
    }

    /// A reader at the start of the bytes of `blocks`.
    pub fn new(blocks: Vec<Block>) -> (reader: BlockReader)
        ensures
            reader.blocks() == blocks@,
            reader.stream() == blocks_stream(blocks@),
            reader.cursor() == 0,
    {
        BlockReader { blocks, block_idx: 0, position: 0 }
    }

    /// Whether the whole stream has been read. The cursor never passes the
    /// end of the stream.
    pub fn is_at_end(&self) -> (at_end: bool)
        ensures
            0 <= self.cursor() <= self.stream().len(),
            at_end <==> self.cursor() == self.stream().len(),
    {
        proof {
            use_type_invariant(self);
            assert(self.block_idx < self.blocks.len() ==> self.block_idx * 4096 + self.position
                < self.blocks.len() * 4096) by (nonlinear_arith)
                requires
                    self.position < 4096,
            ;
        }
        self.block_idx >= self.blocks.len()
    }

    /// The next byte of the stream, or `None`, with nothing read, at its end.
    fn next_byte(&mut self) -> (byte: Option<u8>)
        ensures
            0 <= old(self).cursor() <= old(self).stream().len(),
            final(self).blocks() == old(self).blocks(),
            final(self).stream() == old(self).stream(),
            final(self).cursor() == old(self).cursor() + if byte is Some {
                1int
            } else {
                0int
            },
            old(self).cursor() < old(self).stream().len() ==> byte == Some(
                old(self).stream()[old(self).cursor()],
            ) && final(self).cursor() == old(self).cursor() + 1,
            old(self).cursor() >= old(self).stream().len() ==> byte is None
                && final(self).cursor() == old(self).cursor(),
    {
        proof {
            use_type_invariant(&*self);
        }
        if self.block_idx >= self.blocks.len() {
            return None;
        }
        let byte = self.blocks[self.block_idx].data[self.position];
        proof {
            let c = self.cursor();
            assert(c == self.block_idx * 4096 + self.position);
            vstd::arithmetic::div_mod::lemma_fundamental_div_mod_converse(
                c,
                4096,
                self.block_idx as int,
                self.position as int,
            );
            assert(self.block_idx * 4096 + 4096 <= self.blocks.len() * 4096) by (nonlinear_arith)
                requires
                    self.block_idx < self.blocks.len(),
            ;
        }

        let next = self.position + 1;
        if next >= BLOCK_SIZE {
            self.position = 0;
            self.block_idx = self.block_idx + 1;
        } else {
            self.position = next;
        }

        Some(byte)
    }

    /// Reads up to the next `delimiter` and past it, and returns the bytes
    /// before it; at the end of the stream, returns what was left.
    pub fn read_until(&mut self, delimiter: u8) -> (buffer: Vec<u8>)
        ensures
            final(self).blocks() == old(self).blocks(),
            final(self).stream() == old(self).stream(),
            0 <= old(self).cursor() <= old(self).stream().len(),
            0 <= final(self).cursor() <= final(self).stream().len(),
            ({
                let s = old(self).stream();
                let end = next_delimiter(s, old(self).cursor(), delimiter);
                &&& buffer@ == s.subrange(old(self).cursor(), end)
                &&& forall|k: int| 0 <= k < buffer@.len() ==> buffer@[k] != delimiter
                &&& final(self).cursor() == if end < s.len() {
                    end + 1
                } else {
                    s.len() as int
                }
            }),
    {
        let ghost s = self.stream();
        let ghost start = self.cursor();
        proof {
            use_type_invariant(&*self);
            assert(self.block_idx * 4096 + self.position <= self.blocks.len() * 4096)
                by (nonlinear_arith)
                requires
                    self.position < 4096,
                    self.block_idx < self.blocks.len() || (self.block_idx == self.blocks.len()
                        && self.position == 0),
            ;
        }
        let mut buffer = Vec::new();
        loop
            invariant_except_break
                self.blocks() == old(self).blocks(),
                self.stream() == s,
                0 <= start <= self.cursor() <= s.len(),
                buffer@ == s.subrange(start, self.cursor()),
                next_delimiter(s, start, delimiter) == next_delimiter(s, self.cursor(), delimiter),
            ensures
                self.blocks() == old(self).blocks(),
                self.stream() == s,
                buffer@ == s.subrange(start, next_delimiter(s, start, delimiter)),
                self.cursor() == if next_delimiter(s, start, delimiter) < s.len() {
                    next_delimiter(s, start, delimiter) + 1
                } else {
                    s.len() as int
                },
            decreases s.len() - self.cursor(),
        {
            let ghost before = self.cursor();
            match self.next_byte() {
                Some(b) => {
                    if b == delimiter {
                        break;
                    }
                    buffer.push(b);
                    assert(s.subrange(start, before + 1) =~= s.subrange(start, before).push(
                        s[before],
                    ));
                },
                None => {
                    break;
                },
            }
        }
        proof {
            lemma_next_delimiter(s, start, delimiter);
        }
        buffer
    }
}

/// The message of the `InitError` for a super block that does not read as
/// valid metadata.
pub open spec fn refused_superblock_message() -> Seq<char> {
    "error while initializing metadata"@
}

/// The message of the `InitError` for an inode table whose blocks would be
/// numbered past `u64::MAX`.
pub open spec fn table_past_last_block_message() -> Seq<char> {
    "inode table runs past the last block number"@
}

/// `m` is metadata that a file system can be mounted with: it is valid and
/// its inode table's blocks are numbered at most `u64::MAX`.
pub open spec fn mounted_with(m: FsMetadata) -> bool {
    m.is_valid() && m.inode_table_start + m.inode_table_blocks <= u64::MAX
}

/// What mounting makes of the super block `super_block`: the metadata to
/// mount with, or the message of the `InitError` that refuses it.
pub open spec fn superblock_outcome(super_block: Block) -> Result<FsMetadata, Seq<char>> {
    match parse_superblock(super_block.data@) {
        Ok(m) => if mounted_with(m) {
            Ok(m)
        } else {
            Err(table_past_last_block_message())
        },
        Err(_) => Err(refused_superblock_message()),
    }
}

/// Reads the super block `super_block` for mounting: the metadata it records,
/// or an `InitError` where that metadata breaks the rules of
/// `FsMetadata::is_valid` or numbers its inode table's blocks past
/// `u64::MAX`.
pub fn read_superblock(super_block: Block) -> (r: FsResult<FsMetadata>)
    ensures
        superblock_outcome(super_block) matches Ok(m) ==> r == Ok::<FsMetadata, FsError>(m),
        superblock_outcome(super_block) matches Err(cause) ==> (r matches Err(
            FsError::InitError(msg),
        ) && msg@ == cause),
{
    let metadata = match FsMetadata::try_from(super_block) {
        Ok(m) => m,
        Err(_) => {
            return Err(FsError::InitError("error while initializing metadata".to_owned()));
        },
    };
    if metadata.inode_table_start.checked_add(metadata.inode_table_blocks).is_none() {
        return Err(FsError::InitError("inode table runs past the last block number".to_owned()));
    }
    Ok(metadata)
}

/// `read_superblock` gives the metadata whose each field is the big-endian
/// value at the place its `*_FIELD` constant names, as stored, free counts
/// included; it succeeds exactly when those values keep all eight rules of
/// `FsMetadata::validate` and the inode table ends at most at `u64::MAX`.
pub proof fn law_read_superblock_reads_every_field(super_block: Block, r: FsResult<FsMetadata>)
    requires
        call_ensures(read_superblock, (super_block,), r),
    ensures
        ({
            let d = super_block.data@;
            r is Ok <==> {
                &&& field_value(d, MAGIC_NUMBER_FIELD as int) == FS_MAGIC
                &&& field_value(d, TOTAL_INODES_FIELD as int) != 0
                &&& field_value(d, TOTAL_BLOCKS_FIELD as int) != 0
                &&& field_value(d, FREE_INODES_FIELD as int) <= field_value(
                    d,
                    TOTAL_INODES_FIELD as int,
                )
                &&& field_value(d, FREE_BLOCKS_FIELD as int) <= field_value(
                    d,
                    TOTAL_BLOCKS_FIELD as int,
                )
                &&& field_value(d, ROOT_INODE_FIELD as int) < field_value(
                    d,
                    TOTAL_INODES_FIELD as int,
                )
                &&& field_value(d, INODE_TABLE_START_FIELD as int) < field_value(
                    d,
                    TOTAL_BLOCKS_FIELD as int,
                )
                &&& field_value(d, INODE_TABLE_BLOCKS_FIELD as int) != 0
                &&& field_value(d, INODE_TABLE_START_FIELD as int) + field_value(
                    d,
                    INODE_TABLE_BLOCKS_FIELD as int,
                ) <= u64::MAX
            }
        }),
        r matches Ok(m) ==> {
            let d = super_block.data@;
            &&& m.magic_number == field_value(d, MAGIC_NUMBER_FIELD as int)
            &&& m.total_inodes == field_value(d, TOTAL_INODES_FIELD as int)
            &&& m.free_inodes == field_value(d, FREE_INODES_FIELD as int)
            &&& m.total_blocks == field_value(d, TOTAL_BLOCKS_FIELD as int)
            &&& m.free_blocks == field_value(d, FREE_BLOCKS_FIELD as int)
            &&& m.root_inode == field_value(d, ROOT_INODE_FIELD as int)
            &&& m.inode_table_start == field_value(d, INODE_TABLE_START_FIELD as int)
            &&& m.inode_table_blocks == field_value(d, INODE_TABLE_BLOCKS_FIELD as int)
        },
{
}

/// A super block that `FsMetadata::to_block` writes is read by
/// `read_superblock` as the very metadata it was written from, every field
/// included, wherever its inode table ends at most at `u64::MAX`.
pub proof fn law_read_superblock_of_written_block(
    m: FsMetadata,
    block_id: BlockId,
    block: Block,
    r: FsResult<FsMetadata>,
)
    requires
        call_ensures(
            FsMetadata::to_block,
            (&m, block_id),
            Ok::<Block, InvalidSuperBlockError>(block),
        ),
        call_ensures(read_superblock, (block,), r),
        m.inode_table_start + m.inode_table_blocks <= u64::MAX,
    ensures
        r == Ok::<FsMetadata, FsError>(m),
{
    law_to_block_layout(m, block_id, Ok::<Block, InvalidSuperBlockError>(block));
    law_read_superblock_reads_every_field(block, r);
}

/// The number of block `k` of the inode table that `m` describes.
pub fn inode_table_block_id(m: &FsMetadata, k: u64) -> (id: BlockId)
    requires
        k < m.inode_table_blocks,
        m.inode_table_start + m.inode_table_blocks <= u64::MAX,
    ensures
        id == m.inode_table_start + k,
{
    m.inode_table_start + k
}

/// The blocks that mounting from the super block `super_block_id`, which
/// records `m`, reads, in order: the super block, then each block of the
/// inode table.
pub open spec fn mount_reads(super_block_id: BlockId, m: FsMetadata) -> Seq<BlockId> {
    seq![super_block_id] + Seq::new(
        m.inode_table_blocks as nat,
        |k: int| (m.inode_table_start + k) as BlockId,
    )
}

/// A file system over the disk `D`.
pub struct FileSystem<D: Disk> {
    fs_metadata: Option<FsMetadata>,
    inode_table_blocks: Vec<Block>,
    disk: D,
    reads: Ghost<Seq<BlockId>>,
    returned: Ghost<Seq<Block>>,
    failure: Ghost<Option<DiskError>>,
}

impl<D: Disk> FileSystem<D> {
    /// The parameters read from the super block, once the file system is
    /// mounted.
    pub closed spec fn metadata(self) -> Option<FsMetadata> {
        self.fs_metadata
    }

    /// The blocks of the inode table, as read from the disk.
    pub closed spec fn inode_table(self) -> Seq<Block> {
        self.inode_table_blocks@
    }

    /// The disk below the file system.
    pub closed spec fn disk(self) -> D {
        self.disk
    }

    /// The last mount's own record of the block numbers it computed and
    /// handed to `Disk::read_block`, in order.
    pub closed spec fn block_reads(self) -> Seq<BlockId> {
        self.reads@
    }

    /// The last mount's record of the blocks that `Disk::read_block` gave
    /// back, in order.
    pub closed spec fn blocks_returned(self) -> Seq<Block> {
        self.returned@
    }

    /// The error that `Disk::read_block` gave back and that stopped the last
    /// mount, if one did.
    pub closed spec fn disk_failure(self) -> Option<DiskError> {
        self.failure@
    }

    /// A file system over `disk` that is not mounted yet.
    pub fn new(disk: D) -> (fs: Self)
        ensures
            fs.metadata() is None,
            fs.inode_table().len() == 0,
            fs.disk() == disk,
            fs.block_reads().len() == 0,
            fs.blocks_returned().len() == 0,
            fs.disk_failure() is None,
    {
        FileSystem {
            fs_metadata: None,
            inode_table_blocks: Vec::new(),
            disk,
            reads: Ghost(Seq::empty()),
            returned: Ghost(Seq::empty()),
            failure: Ghost(None),
        }
    }

    /// The parameters read from the super block, if mounted.
    pub fn fs_metadata(&self) -> (r: Option<&FsMetadata>)
        ensures
            r is None <==> self.metadata() is None,
            r matches Some(m) ==> self.metadata() == Some(*m),
    {
        self.fs_metadata.as_ref()
    }

    /// The blocks of the inode table.
    pub fn inode_table_blocks(&self) -> (r: &[Block])
        ensures
            r@ == self.inode_table(),
    {
        self.inode_table_blocks.as_slice()
    }

    /// Mounts the file system: reads the super block numbered
    /// `super_block_id` and keeps the metadata that `read_superblock` makes
    /// of it, then reads the blocks of the inode table that it points to, in
    /// order, and keeps them as they came back. It stops at the first failure
    /// of the disk and passes it on. A super block that `read_superblock`
    /// refuses gives its `InitError` and changes neither the metadata nor the
    /// inode table.
    pub fn init_fs(&mut self, super_block_id: BlockId) -> (r: FsResult<()>)
        ensures
            final(self).disk() == old(self).disk(),
            r is Ok ==> {
                let returned = final(self).blocks_returned();
                &&& returned.len() >= 1
                &&& superblock_outcome(returned[0]) matches Ok(m)
                &&& final(self).metadata() == Some(m)
                &&& mounted_with(m)
                &&& final(self).inode_table() == returned.skip(1)
                &&& final(self).inode_table().len() == m.inode_table_blocks
                &&& final(self).block_reads() == mount_reads(super_block_id, m)
                &&& final(self).disk_failure() is None
            },
            r matches Err(FsError::InitError(msg)) ==> {
                let returned = final(self).blocks_returned();
                &&& returned.len() == 1
                &&& superblock_outcome(returned[0]) == Err::<FsMetadata, Seq<char>>(msg@)
                &&& final(self).metadata() == old(self).metadata()
                &&& final(self).inode_table() == old(self).inode_table()
                &&& final(self).block_reads() == seq![super_block_id]
                &&& final(self).disk_failure() is None
            },
            r matches Err(FsError::DiskError(e)) ==> {
                let returned = final(self).blocks_returned();
                &&& final(self).disk_failure() == Some(e)
                &&& final(self).inode_table() == old(self).inode_table()
                &&& final(self).block_reads().len() == returned.len() + 1
                &&& returned.len() == 0 ==> final(self).metadata() == old(self).metadata()
                    && final(self).block_reads() == seq![super_block_id]
                &&& returned.len() > 0 ==> (superblock_outcome(returned[0]) matches Ok(m)
                    && final(self).metadata() == Some(m)
                    && mounted_with(m)
                    && returned.len() <= m.inode_table_blocks
                    && final(self).block_reads() == mount_reads(super_block_id, m).take(
                    returned.len() + 1int,
                ))
            },
    {
        // init super block
        let no_failure: Ghost<Option<DiskError>> = Ghost(None);
        self.failure = no_failure;
        let first_read: Ghost<Seq<BlockId>> = Ghost(Seq::empty().push(super_block_id));
        self.reads = first_read;
        let nothing_returned: Ghost<Seq<Block>> = Ghost(Seq::empty());
        self.returned = nothing_returned;
        let super_block = match self.disk.read_block(super_block_id) {
            Ok(block) => block,
            Err(e) => {
                let failure: Ghost<Option<DiskError>> = Ghost(Some(e));
                self.failure = failure;
                return Err(FsError::DiskError(e));
            },
        };
        let super_block_returned: Ghost<Seq<Block>> = Ghost(Seq::empty().push(super_block));
        self.returned = super_block_returned;
        let metadata = read_superblock(super_block)?;
        let count = metadata.inode_table_blocks;
        self.fs_metadata = Some(metadata);

        // init inode table
        let mut inode_table_blocks: Vec<Block> = Vec::new();
        let mut k: u64 = 0;
        while k < count
            invariant
                k <= count,
                count == metadata.inode_table_blocks,
                mounted_with(metadata),
                inode_table_blocks.len() == k,
                self.blocks_returned().len() == k + 1,
                superblock_outcome(self.blocks_returned()[0]) == Ok::<FsMetadata, Seq<char>>(
                    metadata,
                ),
                inode_table_blocks@ == self.blocks_returned().skip(1),
                self.inode_table() == old(self).inode_table(),
                self.metadata() == Some(metadata),
                self.disk() == old(self).disk(),
                self.block_reads() == mount_reads(super_block_id, metadata).take(k + 1),
                self.disk_failure() is None,
            decreases count - k,
        {
            let block_id = inode_table_block_id(&metadata, k);
            proof {
                assert(mount_reads(super_block_id, metadata).take(k + 2) =~= mount_reads(
                    super_block_id,
                    metadata,
                ).take(k + 1).push(block_id));
            }
            let reads: Ghost<Seq<BlockId>> = Ghost(self.reads@.push(block_id));
            self.reads = reads;
            let block = match self.disk.read_block(block_id) {
                Ok(block) => block,
                Err(e) => {
                    let failure: Ghost<Option<DiskError>> = Ghost(Some(e));
                    self.failure = failure;
                    return Err(FsError::DiskError(e));
                },
            };
            let returned: Ghost<Seq<Block>> = Ghost(self.returned@.push(block));
            self.returned = returned;
            proof {
                assert(self.blocks_returned().skip(1) =~= inode_table_blocks@.push(block));
            }
            inode_table_blocks.push(block);
            k = k + 1;
        }
        proof {
            assert(mount_reads(super_block_id, metadata).take(count + 1) =~= mount_reads(
                super_block_id,
                metadata,
            ));
        }
        self.inode_table_blocks = inode_table_blocks;
        Ok(())
    }
}

} // verus!
