use memfs::memory_fs::filesystem::BlockReader;
use memfs::storage::{Block, BLOCK_SIZE};

#[test]
fn correct_inode_entry_streaming() {
    let mut data = [0u8; 4096];
    data[..4].copy_from_slice(b"123;");
    let block = Block { id: 1, data: data };

    let mut block_reader = BlockReader::new(vec![block]);
    let buff = block_reader.read_until(b';');
    assert_eq!(buff, b"123");
}

#[test]
fn correct_cross_block_inode_entry_streaming() {
    let mut data_1 = [0u8; 4096];
    let mut data_2 = [0u8; 4096];
    data_1[4094..].copy_from_slice(b";d");
    data_2[..4].copy_from_slice(b"ata;");

    let mut block_reader = BlockReader::new(vec![
        Block {
            id: 0,
            data: data_1,
        },
        Block {
            id: 1,
            data: data_2,
        },
    ]);
    let buff = block_reader.read_until(b';');
    assert_eq!(buff.len(), 4094);

    let buff = block_reader.read_until(b';');
    assert_eq!(buff, b"data");
}

#[test]
fn reads_multiple_entries_from_same_stream() {
    let mut data = [0u8; 4096];
    data[..8].copy_from_slice(b"123;456;");

    let block = Block { id: 1, data };

    let mut block_reader = BlockReader::new(vec![block]);

    assert_eq!(block_reader.read_until(b';').as_slice(), b"123");
    assert_eq!(block_reader.read_until(b';').as_slice(), b"456");
}

#[test]
fn empty_stream_reads_nothing() {
    let mut block_reader = BlockReader::new(Vec::new());
    assert!(block_reader.read_until(b';').is_empty());
    assert!(block_reader.read_until(b';').is_empty());
}

#[test]
fn stream_without_delimiter_is_read_to_its_end() {
    let mut data = [b'x'; 4096];
    data[0] = b'a';
    let mut block_reader = BlockReader::new(vec![Block { id: 3, data }]);
    let buff = block_reader.read_until(b';');
    assert_eq!(buff.len(), BLOCK_SIZE);
    assert_eq!(buff[0], b'a');
    assert_eq!(buff[4095], b'x');
    assert!(block_reader.read_until(b';').is_empty());
}

#[test]
fn delimiter_at_last_byte_of_block_ends_entry() {
    let mut data_1 = [b'a'; 4096];
    data_1[4095] = b';';
    let mut data_2 = [0u8; 4096];
    data_2[..3].copy_from_slice(b"bc;");
    let mut block_reader =
        BlockReader::new(vec![Block { id: 0, data: data_1 }, Block { id: 1, data: data_2 }]);
    assert_eq!(block_reader.read_until(b';').len(), 4095);
    assert_eq!(block_reader.read_until(b';'), b"bc");
    // the rest of the second block holds no delimiter
    assert_eq!(block_reader.read_until(b';').len(), 4096 - 3);
    assert!(block_reader.read_until(b';').is_empty());
}

#[test]
fn consecutive_delimiters_give_empty_entries() {
    let mut data = [0u8; 4096];
    data[..3].copy_from_slice(b";;7");
    let mut block_reader = BlockReader::new(vec![Block { id: 1, data }]);
    assert!(block_reader.read_until(b';').is_empty());
    assert!(block_reader.read_until(b';').is_empty());
    let rest = block_reader.read_until(b';');
    assert_eq!(rest.len(), 4094);
    assert_eq!(rest[0], b'7');
}

#[test]
fn is_at_end_after_the_last_byte() {
    let mut data = [b'z'; 4096];
    data[10] = b';';
    let mut block_reader = BlockReader::new(vec![Block { id: 0, data }]);
    assert!(!block_reader.is_at_end());
    assert_eq!(block_reader.read_until(b';').len(), 10);
    assert!(!block_reader.is_at_end());
    assert_eq!(block_reader.read_until(b';').len(), 4096 - 11);
    assert!(block_reader.is_at_end());
    assert!(BlockReader::new(Vec::new()).is_at_end());
}
