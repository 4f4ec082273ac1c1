use memfs::error::{DiskError, DiskResult, FsError};
use memfs::memory_fs::filesystem::{read_superblock, FileSystem};
use memfs::memory_fs::metadata::{FsMetadata, FS_MAGIC};
use memfs::storage::{Block, Disk, BLOCK_SIZE};

struct MemoryDisk {
    blocks: Vec<[u8; BLOCK_SIZE]>,
}

impl Disk for MemoryDisk {
    fn read_block(&self, block_id: u64) -> DiskResult<Block> {
        match self.blocks.get(block_id as usize) {
            Some(data) => Ok(Block { id: block_id, data: *data }),
            None => Err(DiskError::NoSpace),
        }
    }

    fn write_block(&mut self, block_id: u64, data: &Block) -> DiskResult<()> {
        match self.blocks.get_mut(block_id as usize) {
            Some(slot) => {
                *slot = data.data;
                Ok(())
            }
            None => Err(DiskError::NoSpace),
        }
    }
}

fn disk_with(metadata: &FsMetadata, n_blocks: usize) -> MemoryDisk {
    let mut blocks = vec![[0u8; BLOCK_SIZE]; n_blocks];
    for (i, block) in blocks.iter_mut().enumerate() {
        block[0] = i as u8;
    }
    blocks[0] = metadata.to_block(0).expect("valid metadata").data;
    MemoryDisk { blocks }
}

#[test]
fn new_file_system_is_not_mounted() {
    let fs = FileSystem::new(MemoryDisk { blocks: Vec::new() });
    assert!(fs.fs_metadata().is_none());
    assert!(fs.inode_table_blocks().is_empty());
}

#[test]
fn init_fs_reads_superblock_and_inode_table() {
    let metadata = FsMetadata::new(16, 8, 0, 2, 3);
    let mut fs = FileSystem::new(disk_with(&metadata, 8));
    fs.init_fs(0).expect("disk holds a valid file system");
    let mounted = fs.fs_metadata().expect("mounted");
    assert_eq!(mounted.magic_number, FS_MAGIC);
    assert_eq!(mounted.total_inodes, 16);
    assert_eq!(mounted.inode_table_start, 2);
    assert_eq!(mounted.inode_table_blocks, 3);
    let table = fs.inode_table_blocks();
    assert_eq!(table.len(), 3);
    assert_eq!(table[0].id, 2);
    assert_eq!(table[0].data[0], 2);
    assert_eq!(table[2].id, 4);
    assert_eq!(table[2].data[0], 4);
}

#[test]
fn init_fs_refuses_a_block_that_is_no_superblock() {
    let mut fs = FileSystem::new(MemoryDisk { blocks: vec![[0u8; BLOCK_SIZE]; 4] });
    match fs.init_fs(0) {
        Err(FsError::InitError(_)) => {}
        other => panic!("unexpected result {:?}", other),
    }
    assert!(fs.fs_metadata().is_none());
    assert!(fs.inode_table_blocks().is_empty());
}

#[test]
fn init_fs_passes_on_disk_errors() {
    let mut fs = FileSystem::new(MemoryDisk { blocks: Vec::new() });
    assert!(matches!(fs.init_fs(0), Err(FsError::DiskError(DiskError::NoSpace))));

    // the inode table lies past the end of the disk
    let metadata = FsMetadata::new(16, 8, 0, 2, 3);
    let mut fs = FileSystem::new(disk_with(&metadata, 3));
    assert!(matches!(fs.init_fs(0), Err(FsError::DiskError(DiskError::NoSpace))));
    assert!(fs.inode_table_blocks().is_empty());
}

#[test]
fn read_superblock_refuses_an_inode_table_past_the_last_block_number() {
    let mut metadata = FsMetadata::new(16, u64::MAX, 0, u64::MAX - 1, 2);
    assert!(metadata.validate().is_ok());
    let block = metadata.to_block(0).expect("valid metadata");
    assert!(matches!(read_superblock(block), Err(FsError::InitError(_))));

    metadata.inode_table_blocks = 1;
    let block = metadata.to_block(0).expect("valid metadata");
    let read = read_superblock(block).expect("table ends at the last block number");
    assert_eq!(read.inode_table_start, u64::MAX - 1);
}

#[test]
fn read_superblock_refuses_invalid_metadata() {
    let block = Block { id: 0, data: [0u8; BLOCK_SIZE] };
    assert!(matches!(read_superblock(block), Err(FsError::InitError(_))));
}

#[test]
fn disk_errors_convert_into_fs_errors() {
    let e: FsError = DiskError::NoSpace.into();
    assert!(matches!(e, FsError::DiskError(DiskError::NoSpace)));
}

#[test]
fn init_error_messages_name_the_cause() {
    let block = Block { id: 0, data: [0u8; BLOCK_SIZE] };
    match read_superblock(block) {
        Err(FsError::InitError(msg)) => assert_eq!(msg, "error while initializing metadata"),
        other => panic!("unexpected result {:?}", other),
    }
    let metadata = FsMetadata::new(16, u64::MAX, 0, u64::MAX - 1, 2);
    let block = metadata.to_block(0).expect("valid metadata");
    match read_superblock(block) {
        Err(FsError::InitError(msg)) => {
            assert_eq!(msg, "inode table runs past the last block number")
        }
        other => panic!("unexpected result {:?}", other),
    }
}

#[test]
fn inode_table_block_ids_count_from_the_start() {
    let metadata = FsMetadata::new(16, 100, 0, 40, 5);
    assert_eq!(memfs::memory_fs::filesystem::inode_table_block_id(&metadata, 0), 40);
    assert_eq!(memfs::memory_fs::filesystem::inode_table_block_id(&metadata, 4), 44);
}
