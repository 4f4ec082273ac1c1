//! The super block: the file system's parameters and their on-disk form.
//!
//! The super block holds eight `u64` fields, each stored big-endian in eight
//! bytes, one after the other from the start of the block; the rest of the
//! block is zero.
use crate::big_endian::{
    lemma_u64_be_bytes_round_trip, lemma_u64_be_value_round_trip, spec_u64_from_be_bytes,
    spec_u64_to_be_bytes, u64_from_be_bytes, u64_to_be_bytes,
};
use crate::domain::{BlockId, InodeId};
use crate::storage::{Block, BLOCK_SIZE};
use vstd::prelude::*;

verus! {

/// The parameters of a file system, as its super block records them.
#[derive(Clone, Copy, Debug)]
pub struct FsMetadata {
    pub magic_number: u64,
    pub total_inodes: u64,
    pub free_inodes: u64,
    pub total_blocks: u64,
    pub free_blocks: u64,
    pub root_inode: InodeId,
    pub inode_table_start: BlockId,
    pub inode_table_blocks: u64,
}

pub const U64_SIZE: usize = 8;

pub const MAGIC_NUMBER_FIELD: usize = 0;

pub const TOTAL_INODES_FIELD: usize = 1;

pub const FREE_INODES_FIELD: usize = 2;

pub const TOTAL_BLOCKS_FIELD: usize = 3;

pub const FREE_BLOCKS_FIELD: usize = 4;

pub const ROOT_INODE_FIELD: usize = 5;

pub const INODE_TABLE_START_FIELD: usize = 6;

pub const INODE_TABLE_BLOCKS_FIELD: usize = 7;

pub const SUPERBLOCK_FIELDS: usize = 8;

pub const SUPERBLOCK_SIZE: usize = SUPERBLOCK_FIELDS * U64_SIZE;

/// The number that marks a block as a super block of this file system.
pub const FS_MAGIC: u64 = 0xF5F5_F00D_CAFE_BABE;

/// A super block, or metadata to be written as one, breaks the rules of
/// `FsMetadata::is_valid`, or a field lies outside the buffer.
#[derive(Debug)]
pub struct InvalidSuperBlockError;

impl FsMetadata {
    /// The rules that the parameters of a file system keep.
    pub open spec fn is_valid(self) -> bool {
        &&& self.magic_number == FS_MAGIC
        &&& self.total_inodes != 0
        &&& self.total_blocks != 0
        &&& self.free_inodes <= self.total_inodes
        &&& self.free_blocks <= self.total_blocks
        &&& self.root_inode < self.total_inodes
        &&& self.inode_table_start < self.total_blocks
        &&& self.inode_table_blocks != 0
    }

    /// The first `SUPERBLOCK_SIZE` bytes of the super block: the fields in
    /// order, each big-endian.
    pub open spec fn fields_bytes(self) -> Seq<u8> {
        spec_u64_to_be_bytes(self.magic_number) + spec_u64_to_be_bytes(self.total_inodes)
            + spec_u64_to_be_bytes(self.free_inodes) + spec_u64_to_be_bytes(self.total_blocks)
            + spec_u64_to_be_bytes(self.free_blocks) + spec_u64_to_be_bytes(self.root_inode)
            + spec_u64_to_be_bytes(self.inode_table_start) + spec_u64_to_be_bytes(
            self.inode_table_blocks,
        )
    }

    /// The whole super block: the fields, then zeros up to `BLOCK_SIZE` bytes.
    pub open spec fn superblock_bytes(self) -> Seq<u8> {
        self.fields_bytes() + Seq::new((BLOCK_SIZE - SUPERBLOCK_SIZE) as nat, |i: int| 0u8)
    }
}

/// The `u64` stored big-endian in field number `field` of `data`.
pub open spec fn field_value(data: Seq<u8>, field: int) -> u64 {
    spec_u64_from_be_bytes(data.subrange(field * 8, field * 8 + 8))
}

/// The metadata that the first `SUPERBLOCK_SIZE` bytes of `data` spell, valid
/// or not.
pub open spec fn decode_superblock(data: Seq<u8>) -> FsMetadata {
    FsMetadata {
        magic_number: field_value(data, MAGIC_NUMBER_FIELD as int),
        total_inodes: field_value(data, TOTAL_INODES_FIELD as int),
        free_inodes: field_value(data, FREE_INODES_FIELD as int),
        total_blocks: field_value(data, TOTAL_BLOCKS_FIELD as int),
        free_blocks: field_value(data, FREE_BLOCKS_FIELD as int),
        root_inode: field_value(data, ROOT_INODE_FIELD as int),
        inode_table_start: field_value(data, INODE_TABLE_START_FIELD as int),
        inode_table_blocks: field_value(data, INODE_TABLE_BLOCKS_FIELD as int),
    }
}

/// What reading a super block of `BLOCK_SIZE` bytes gives: the metadata it
/// spells where that is valid, else the error.
pub open spec fn parse_superblock(data: Seq<u8>) -> Result<FsMetadata, InvalidSuperBlockError> {
    let m = decode_superblock(data);
    if m.is_valid() {
        Ok(m)
    } else {
        Err(InvalidSuperBlockError)
    }
}

/// `data` with the eight bytes of field number `field` replaced by `value`,
/// big-endian.
pub open spec fn with_field(data: Seq<u8>, field: int, value: u64) -> Seq<u8> {
    data.subrange(0, field * 8) + spec_u64_to_be_bytes(value) + data.subrange(
        field * 8 + 8,
        data.len() as int,
    )
}

/// Reads field number `field` of `data`: the `u64` stored big-endian in its
/// eight bytes, or an error where they do not all lie in `data`.
pub fn read_u64_at(data: &[u8], field: usize) -> (r: Result<u64, InvalidSuperBlockError>)
    requires
        field * 8 + 8 <= usize::MAX,
    ensures
        field * 8 + 8 <= data@.len() ==> r == Ok::<u64, InvalidSuperBlockError>(
            field_value(data@, field as int),
        ),
        field * 8 + 8 > data@.len() ==> r is Err,
{
    let start = field * 8;
    let end = start + 8;
    if end > data.len() {
        return Err(InvalidSuperBlockError);
    }
    let bytes: [u8; 8] = [
        data[start],
        data[start + 1],
        data[start + 2],
        data[start + 3],
        data[start + 4],
        data[start + 5],
        data[start + 6],
        data[start + 7],
    ];
    assert(bytes@ =~= data@.subrange(start as int, end as int));
    Ok(u64_from_be_bytes(bytes))
}

/// Writes `value` big-endian into field number `field` of `data`, or fails,
/// leaving `data` as it was, where the field's eight bytes do not all lie in
/// `data`.
pub fn write_u64_at(data: &mut [u8], field: usize, value: u64) -> (r: Result<
    (),
    InvalidSuperBlockError,
>)
    requires
        field * 8 + 8 <= usize::MAX,
    ensures
        field * 8 + 8 <= old(data)@.len() ==> r is Ok && final(data)@ == with_field(
            old(data)@,
            field as int,
            value,
        ),
        field * 8 + 8 > old(data)@.len() ==> r is Err && final(data)@ == old(data)@,
{
    let start = field * U64_SIZE;
    let end = start + U64_SIZE;
    if end > data.len() {
        return Err(InvalidSuperBlockError);
    }
    let bytes = u64_to_be_bytes(value);
    let mut i: usize = 0;
    while i < U64_SIZE
        invariant
            end == start + 8,
            end <= old(data)@.len(),
            start == field * 8,
            bytes@ == spec_u64_to_be_bytes(value),
            0 <= i <= 8,
            data@.len() == old(data)@.len(),
            forall|k: int| 0 <= k < start ==> data@[k] == old(data)@[k],
            forall|k: int| end <= k < data@.len() ==> data@[k] == old(data)@[k],
            forall|k: int| 0 <= k < i ==> data@[start + k] == bytes@[k],
        decreases U64_SIZE - i,
    {
        data[start + i] = bytes[i];
        i = i + 1;
    }
    assert(data@ =~= with_field(old(data)@, field as int, value));
    Ok(())
}

impl FsMetadata {
    /// The parameters of a fresh file system: every inode and every block is
    /// free.
    pub fn new(
        total_inodes: u64,
        total_blocks: u64,
        root_inode: InodeId,
        inode_table_start: BlockId,
        inode_table_blocks: u64,
    ) -> (m: Self)
        ensures
            m.magic_number == FS_MAGIC,
            m.total_inodes == total_inodes,
            m.free_inodes == total_inodes,
            m.total_blocks == total_blocks,
            m.free_blocks == total_blocks,
            m.root_inode == root_inode,
            m.inode_table_start == inode_table_start,
            m.inode_table_blocks == inode_table_blocks,
    {
        Self {
            magic_number: FS_MAGIC,
            total_inodes,
            free_inodes: total_inodes,
            total_blocks,
            free_blocks: total_blocks,
            root_inode,
            inode_table_start,
            inode_table_blocks,
        }
    }

    /// Checks the rules of `is_valid`.
    pub fn validate(&self) -> (r: Result<(), InvalidSuperBlockError>)
        ensures
            r is Ok <==> self.is_valid(),
    {
        if self.magic_number != FS_MAGIC {
            return Err(InvalidSuperBlockError);
        }
        if self.total_inodes == 0 || self.total_blocks == 0 {
            return Err(InvalidSuperBlockError);
        }
        if self.free_inodes > self.total_inodes {
            return Err(InvalidSuperBlockError);
        }
        if self.free_blocks > self.total_blocks {
            return Err(InvalidSuperBlockError);
        }
        if self.root_inode >= self.total_inodes {
            return Err(InvalidSuperBlockError);
        }
        if self.inode_table_start >= self.total_blocks {
            return Err(InvalidSuperBlockError);
        }
        if self.inode_table_blocks == 0 {
            return Err(InvalidSuperBlockError);
        }
        Ok(())
    }

    /// The super block with number `block_id` that records these parameters,
    /// or an error where they break the rules of `is_valid`.
    pub fn to_block(&self, block_id: BlockId) -> (r: Result<Block, InvalidSuperBlockError>)
        ensures
            r is Ok <==> self.is_valid(),
            r matches Ok(b) ==> b.id == block_id && b.data@ == self.superblock_bytes(),
    {
        self.validate()?;

        let mut data = [0u8; BLOCK_SIZE];

        write_u64_at(&mut data, MAGIC_NUMBER_FIELD, self.magic_number)?;

        write_u64_at(&mut data, TOTAL_INODES_FIELD, self.total_inodes)?;
        write_u64_at(&mut data, FREE_INODES_FIELD, self.free_inodes)?;

        write_u64_at(&mut data, TOTAL_BLOCKS_FIELD, self.total_blocks)?;
        write_u64_at(&mut data, FREE_BLOCKS_FIELD, self.free_blocks)?;

        write_u64_at(&mut data, ROOT_INODE_FIELD, self.root_inode)?;
        write_u64_at(&mut data, INODE_TABLE_START_FIELD, self.inode_table_start)?;
        write_u64_at(&mut data, INODE_TABLE_BLOCKS_FIELD, self.inode_table_blocks)?;

        assert(data@ =~= self.superblock_bytes());
        Ok(Block { id: block_id, data })
    }
}

impl TryFrom<Block> for FsMetadata {
    type Error = InvalidSuperBlockError;

    /// Reads the super block `block`: the metadata its fields spell, or an
    /// error where that breaks the rules of `is_valid`.
    fn try_from(block: Block) -> (r: Result<Self, Self::Error>) {
        let magic_number = read_u64_at(&block.data, MAGIC_NUMBER_FIELD)?;

        if magic_number != FS_MAGIC {
            return Err(InvalidSuperBlockError);
        }

        let metadata = FsMetadata {
            magic_number,

            total_inodes: read_u64_at(&block.data, TOTAL_INODES_FIELD)?,
            free_inodes: read_u64_at(&block.data, FREE_INODES_FIELD)?,

            total_blocks: read_u64_at(&block.data, TOTAL_BLOCKS_FIELD)?,
            free_blocks: read_u64_at(&block.data, FREE_BLOCKS_FIELD)?,

            root_inode: read_u64_at(&block.data, ROOT_INODE_FIELD)?,
            inode_table_start: read_u64_at(&block.data, INODE_TABLE_START_FIELD)?,
            inode_table_blocks: read_u64_at(&block.data, INODE_TABLE_BLOCKS_FIELD)?,
        };

        metadata.validate()?;

        Ok(metadata)
    }
}

impl vstd::std_specs::convert::TryFromSpecImpl<Block> for FsMetadata {
    open spec fn obeys_try_from_spec() -> bool {
        true
    }

    open spec fn try_from_spec(block: Block) -> Result<Self, Self::Error> {
        parse_superblock(block.data@)
    }
}

/// The fields read back from the bytes that any metadata is written as are
/// that metadata.
pub proof fn lemma_decode_superblock_bytes(m: FsMetadata)
    ensures
        decode_superblock(m.superblock_bytes()) == m,
{
    let data = m.superblock_bytes();
    let fields = [
        m.magic_number,
        m.total_inodes,
        m.free_inodes,
        m.total_blocks,
        m.free_blocks,
        m.root_inode,
        m.inode_table_start,
        m.inode_table_blocks,
    ];
    assert forall|f: int| 0 <= f < 8 implies #[trigger] field_value(data, f) == fields@[f] by {
        assert(data.subrange(f * 8, f * 8 + 8) =~= spec_u64_to_be_bytes(fields@[f]));
        lemma_u64_be_value_round_trip(fields@[f]);
    }
}

/// Metadata that is valid, written as a super block and read back, is the
/// same metadata; metadata that is not valid is refused both ways.
pub proof fn lemma_superblock_round_trip(m: FsMetadata)
    ensures
        m.is_valid() ==> parse_superblock(m.superblock_bytes()) == Ok::<
            FsMetadata,
            InvalidSuperBlockError,
        >(m),
        !m.is_valid() ==> parse_superblock(m.superblock_bytes()) is Err,
{
    lemma_decode_superblock_bytes(m);
}

/// A super block that reads as valid metadata holds, in its first
/// `SUPERBLOCK_SIZE` bytes, exactly what that metadata is written as.
pub proof fn lemma_parsed_superblock_fields(data: Seq<u8>)
    requires
        data.len() >= SUPERBLOCK_SIZE,
        parse_superblock(data) is Ok,
    ensures
        parse_superblock(data)->Ok_0.fields_bytes() == data.subrange(0, SUPERBLOCK_SIZE as int),
{
    let m = decode_superblock(data);
    assert forall|f: int| 0 <= f < 8 implies spec_u64_to_be_bytes(#[trigger] field_value(data, f))
        == data.subrange(f * 8, f * 8 + 8) by {
        lemma_u64_be_bytes_round_trip(data.subrange(f * 8, f * 8 + 8));
    }
    assert(m.fields_bytes() =~= data.subrange(0, SUPERBLOCK_SIZE as int));
}

/// `validate` accepts metadata exactly when all eight rules hold: the magic
/// number is `FS_MAGIC`; there are inodes and blocks; no more inodes or
/// blocks are free than there are; the root inode is one of the inodes; the
/// inode table starts at a block of the disk and has at least one block.
pub proof fn law_validate_checks_every_rule(m: FsMetadata, r: Result<(), InvalidSuperBlockError>)
    requires
        call_ensures(FsMetadata::validate, (&m,), r),
    ensures
        r is Ok <==> {
            &&& m.magic_number == FS_MAGIC
            &&& m.total_inodes != 0
            &&& m.total_blocks != 0
            &&& m.free_inodes <= m.total_inodes
            &&& m.free_blocks <= m.total_blocks
            &&& m.root_inode < m.total_inodes
            &&& m.inode_table_start < m.total_blocks
            &&& m.inode_table_blocks != 0
        },
{
}

/// `to_block` succeeds exactly when all eight rules of `validate` hold, and
/// then writes a block with the number asked for in which each field of the
/// metadata stands, big-endian, at the place its `*_FIELD` constant names,
/// and every byte after the fields is zero.
pub proof fn law_to_block_layout(
    m: FsMetadata,
    block_id: BlockId,
    r: Result<Block, InvalidSuperBlockError>,
)
    requires
        call_ensures(FsMetadata::to_block, (&m, block_id), r),
    ensures
        r is Ok <==> {
            &&& m.magic_number == FS_MAGIC
            &&& m.total_inodes != 0
            &&& m.total_blocks != 0
            &&& m.free_inodes <= m.total_inodes
            &&& m.free_blocks <= m.total_blocks
            &&& m.root_inode < m.total_inodes
            &&& m.inode_table_start < m.total_blocks
            &&& m.inode_table_blocks != 0
        },
        r matches Ok(b) ==> {
            &&& b.id == block_id
            &&& field_value(b.data@, MAGIC_NUMBER_FIELD as int) == m.magic_number
            &&& field_value(b.data@, TOTAL_INODES_FIELD as int) == m.total_inodes
            &&& field_value(b.data@, FREE_INODES_FIELD as int) == m.free_inodes
            &&& field_value(b.data@, TOTAL_BLOCKS_FIELD as int) == m.total_blocks
            &&& field_value(b.data@, FREE_BLOCKS_FIELD as int) == m.free_blocks
            &&& field_value(b.data@, ROOT_INODE_FIELD as int) == m.root_inode
            &&& field_value(b.data@, INODE_TABLE_START_FIELD as int) == m.inode_table_start
            &&& field_value(b.data@, INODE_TABLE_BLOCKS_FIELD as int) == m.inode_table_blocks
            &&& forall|k: int| SUPERBLOCK_SIZE <= k < BLOCK_SIZE ==> b.data@[k] == 0u8
        },
{
    lemma_decode_superblock_bytes(m);
}

/// Reading a block with `try_from` gives the metadata whose each field is
/// the big-endian value at the place its `*_FIELD` constant names, and
/// succeeds exactly when those values keep all eight rules of `validate`.
pub proof fn law_try_from_reads_every_field(
    block: Block,
    r: Result<FsMetadata, InvalidSuperBlockError>,
)
    requires
        call_ensures(<FsMetadata as TryFrom<Block>>::try_from, (block,), r),
    ensures
        ({
            let d = block.data@;
            r is Ok <==> {
                &&& field_value(d, MAGIC_NUMBER_FIELD as int) == FS_MAGIC
                &&& field_value(d, TOTAL_INODES_FIELD as int) != 0
                &&& field_value(d, TOTAL_BLOCKS_FIELD as int) != 0
                &&& field_value(d, FREE_INODES_FIELD as int) <= field_value(
                    d,
                    TOTAL_INODES_FIELD as int,
                )
                &&& field_value(d, FREE_BLOCKS_FIELD as int) <= field_value(
                    d,
                    TOTAL_BLOCKS_FIELD as int,
                )
                &&& field_value(d, ROOT_INODE_FIELD as int) < field_value(
                    d,
                    TOTAL_INODES_FIELD as int,
                )
                &&& field_value(d, INODE_TABLE_START_FIELD as int) < field_value(
                    d,
                    TOTAL_BLOCKS_FIELD as int,
                )
                &&& field_value(d, INODE_TABLE_BLOCKS_FIELD as int) != 0
            }
        }),
        r matches Ok(m) ==> {
            let d = block.data@;
            &&& m.magic_number == field_value(d, MAGIC_NUMBER_FIELD as int)
            &&& m.total_inodes == field_value(d, TOTAL_INODES_FIELD as int)
            &&& m.free_inodes == field_value(d, FREE_INODES_FIELD as int)
            &&& m.total_blocks == field_value(d, TOTAL_BLOCKS_FIELD as int)
            &&& m.free_blocks == field_value(d, FREE_BLOCKS_FIELD as int)
            &&& m.root_inode == field_value(d, ROOT_INODE_FIELD as int)
            &&& m.inode_table_start == field_value(d, INODE_TABLE_START_FIELD as int)
            &&& m.inode_table_blocks == field_value(d, INODE_TABLE_BLOCKS_FIELD as int)
        },
{
}

/// A block that `to_block` writes reads back with `try_from` as the very
/// metadata it was written from, every field included.
pub proof fn law_to_block_then_try_from(
    m: FsMetadata,
    block_id: BlockId,
    block: Block,
    r: Result<FsMetadata, InvalidSuperBlockError>,
)
    requires
        call_ensures(
            FsMetadata::to_block,
            (&m, block_id),
            Ok::<Block, InvalidSuperBlockError>(block),
        ),
        call_ensures(<FsMetadata as TryFrom<Block>>::try_from, (block,), r),
    ensures
        r == Ok::<FsMetadata, InvalidSuperBlockError>(m),
{
    law_to_block_layout(m, block_id, Ok::<Block, InvalidSuperBlockError>(block));
    law_try_from_reads_every_field(block, r);
}

} // verus!
