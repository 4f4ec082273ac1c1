# memfs

The core of a block-based file system, verified with Verus.

- `src/storage.rs`: blocks of `BLOCK_SIZE` bytes and the `Disk` trait that
  users implement to store them.
- `src/big_endian.rs`: the big-endian form of `u64` values and its round trip.
- `src/memory_fs/metadata.rs`: the super block (`FsMetadata`), its rules, how
  it is written into a block and read back, with the round-trip laws.
- `src/memory_fs/filesystem.rs`: `BlockReader`, which reads a sequence of
  blocks as one byte stream split at delimiters, and `FileSystem`, which
  mounts itself from the super block and the inode table on a disk.
- `app/`: copies of the error types with their messages (`thiserror`).
