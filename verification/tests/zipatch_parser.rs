use gaveloc::error::Error;
use gaveloc::zipatch::{ApplyOption, IndexType, Platform, SqpkChunk, SqpkFileKind, SqpkFileOperation, SqpkHeaderKind, ZiPatchChunk, ZIPATCH_MAGIC};
use gaveloc::zipatch_apply::{ApplyState, PatchOp};
use gaveloc::zipatch_parser::{build_chunk, ZiPatchParser};

// ==========================================================================
// Fixture helpers
// ==========================================================================

fn reference_crc32(data: &[u8]) -> u32 {
    let mut hasher = crc32fast::Hasher::new();
    hasher.update(data);
    hasher.finalize()
}

/// Build a minimal FHDR (file header) chunk
fn build_fhdr_chunk() -> Vec<u8> {
    let mut data = Vec::new();
    data.extend_from_slice(&3u16.to_be_bytes()); // version = 3
    data.extend_from_slice(&0u16.to_be_bytes()); // padding
    data.extend_from_slice(b"DIFF"); // patch type
    data.extend_from_slice(&10u32.to_be_bytes()); // entry_files = 10
    build_chunk(b"FHDR", &data)
}

/// Build an APLY (apply option) chunk
fn build_aply_chunk(option: u32, value: u32) -> Vec<u8> {
    let mut data = Vec::new();
    data.extend_from_slice(&option.to_be_bytes());
    data.extend_from_slice(&value.to_be_bytes());
    data.extend_from_slice(&[0u8; 4]); // padding
    build_chunk(b"APLY", &data)
}

/// A path chunk: the path with its terminator, then four bytes of padding.
fn build_path_chunk(tag: &[u8; 4], path: &str) -> Vec<u8> {
    let mut payload = path.as_bytes().to_vec();
    payload.push(0); // null terminator
    payload.extend_from_slice(&[0u8; 4]);
    build_chunk(tag, &payload)
}

fn build_adir_chunk(path: &str) -> Vec<u8> {
    build_path_chunk(b"ADIR", path)
}

fn build_deld_chunk(path: &str) -> Vec<u8> {
    build_path_chunk(b"DELD", path)
}

fn build_apfs_chunk(alloc_size: u64) -> Vec<u8> {
    let data = alloc_size.to_be_bytes();
    build_chunk(b"APFS", &data)
}

fn build_eof_chunk() -> Vec<u8> {
    build_chunk(b"EOF_", &[])
}

fn build_sqpk(command: u8, body: &[u8]) -> Vec<u8> {
    let mut sqpk_data = Vec::new();
    let inner_size: i32 = (5 + body.len()) as i32;
    sqpk_data.extend_from_slice(&inner_size.to_be_bytes());
    sqpk_data.push(command);
    sqpk_data.extend_from_slice(body);
    build_chunk(b"SQPK", &sqpk_data)
}

/// Build a minimal SQPK chunk with PatchInfo (X command)
fn build_sqpk_patch_info_chunk() -> Vec<u8> {
    let mut sqpk_data = Vec::new();
    let inner_size: i32 = 16;
    sqpk_data.extend_from_slice(&inner_size.to_be_bytes());
    sqpk_data.push(b'X');
    sqpk_data.extend_from_slice(&[0u8; 3]);
    sqpk_data.push(1); // status
    sqpk_data.push(2); // version
    sqpk_data.push(0); // pad
    sqpk_data.push(0); // pad2
    sqpk_data.extend_from_slice(&1024u64.to_be_bytes());
    build_chunk(b"SQPK", &sqpk_data)
}

/// Build a SQPK chunk with TargetInfo (T command)
fn build_sqpk_target_info_chunk() -> Vec<u8> {
    let mut sqpk_data = Vec::new();
    let inner_size: i32 = 27;
    sqpk_data.extend_from_slice(&inner_size.to_be_bytes());
    sqpk_data.push(b'T');
    sqpk_data.extend_from_slice(&[0u8; 3]);
    sqpk_data.push(0); // platform
    sqpk_data.extend_from_slice(&1u16.to_be_bytes()); // region
    sqpk_data.push(0); // is debug
    sqpk_data.extend_from_slice(&100u16.to_be_bytes()); // version
    sqpk_data.push(0); // padding
    sqpk_data.extend_from_slice(&512u64.to_be_bytes());
    sqpk_data.extend_from_slice(&256u64.to_be_bytes());
    build_chunk(b"SQPK", &sqpk_data)
}

fn build_minimal_patch() -> Vec<u8> {
    let mut patch = Vec::new();
    patch.extend_from_slice(&ZIPATCH_MAGIC);
    patch.extend_from_slice(&build_fhdr_chunk());
    patch.extend_from_slice(&build_eof_chunk());
    patch
}

fn build_multi_chunk_patch() -> Vec<u8> {
    let mut patch = Vec::new();
    patch.extend_from_slice(&ZIPATCH_MAGIC);
    patch.extend_from_slice(&build_fhdr_chunk());
    patch.extend_from_slice(&build_aply_chunk(1, 1));
    patch.extend_from_slice(&build_adir_chunk("/game/sqpack/test"));
    patch.extend_from_slice(&build_sqpk_patch_info_chunk());
    patch.extend_from_slice(&build_eof_chunk());
    patch
}

fn patch_of(chunks: &[Vec<u8>]) -> Vec<u8> {
    let mut patch = Vec::new();
    patch.extend_from_slice(&ZIPATCH_MAGIC);
    for c in chunks {
        patch.extend_from_slice(c);
    }
    patch
}

// ==========================================================================
// Basic Tests
// ==========================================================================

#[test]
fn test_parser_new() {
    let parser = ZiPatchParser::new();
    assert!(parser.verify_checksums);
}

#[test]
fn test_parser_without_verification() {
    let parser = ZiPatchParser::without_checksum_verification();
    assert!(!parser.verify_checksums);
}

#[test]
fn test_parser_default() {
    let parser = ZiPatchParser::default();
    assert!(parser.verify_checksums);
}

#[test]
fn test_read_string() {
    let data = b"TEST\0\0\0\0";
    let result = ZiPatchParser::read_string(data, 8).unwrap();
    assert_eq!(result, "TEST");
}

#[test]
fn test_read_string_empty() {
    let data = b"\0\0\0\0";
    let result = ZiPatchParser::read_string(data, 4).unwrap();
    assert_eq!(result, "");
}

#[test]
fn test_read_string_no_null() {
    let data = b"ABCD";
    let result = ZiPatchParser::read_string(data, 4).unwrap();
    assert_eq!(result, "ABCD");
}

#[test]
fn test_read_string_reads_only_what_is_asked_and_fails_past_the_end() {
    assert_eq!(ZiPatchParser::read_string(b"ABCDEFGH", 3).unwrap(), "ABC");
    assert_eq!(ZiPatchParser::read_string(b"A\0B\0\0", 5).unwrap(), "A\0B");
    assert_eq!(ZiPatchParser::read_string(b"", 0).unwrap(), "");
    assert!(matches!(ZiPatchParser::read_string(b"AB", 3), Err(Error::Io(_))));
    // bytes that are no UTF-8 read as the replacement character
    assert_eq!(ZiPatchParser::read_string(&[0x41, 0xFF, 0x42], 3).unwrap(), "A\u{FFFD}B");
}

#[test]
fn test_magic_validation() {
    // Valid magic
    assert!(ZiPatchParser::read_magic_header(&ZIPATCH_MAGIC).is_ok());

    // Invalid magic
    let invalid_magic = [0u8; 12];
    assert!(matches!(
        ZiPatchParser::read_magic_header(&invalid_magic),
        Err(Error::ZiPatchInvalidMagic)
    ));
}

#[test]
fn test_magic_validation_partial() {
    // Partial match should fail
    let mut partial_magic = ZIPATCH_MAGIC;
    partial_magic[11] = 0xFF; // corrupt last byte
    assert!(matches!(
        ZiPatchParser::read_magic_header(&partial_magic),
        Err(Error::ZiPatchInvalidMagic)
    ));
}

#[test]
fn test_magic_must_match_in_every_byte() {
    for i in 0..12 {
        let mut magic = ZIPATCH_MAGIC;
        magic[i] ^= 0x01;
        assert!(matches!(
            ZiPatchParser::read_magic_header(&magic),
            Err(Error::ZiPatchInvalidMagic)
        ));
        let mut patch = magic.to_vec();
        patch.extend_from_slice(&build_eof_chunk());
        assert!(matches!(
            ZiPatchParser::new().parse_patch(&patch),
            Err(Error::ZiPatchInvalidMagic)
        ));
    }
    // too short for a magic header
    assert!(matches!(ZiPatchParser::read_magic_header(&ZIPATCH_MAGIC[..11]), Err(Error::Io(_))));
    assert!(matches!(ZiPatchParser::new().parse_patch(&[]), Err(Error::Io(_))));
}

// ==========================================================================
// End-to-End Parsing Tests
// ==========================================================================

#[test]
fn test_parse_minimal_patch() {
    let patch_data = build_minimal_patch();
    let parser = ZiPatchParser::new();
    let chunks = parser.parse_patch(&patch_data).unwrap();

    assert_eq!(chunks.len(), 2);
    assert!(matches!(chunks[0], ZiPatchChunk::FileHeader(_)));
    assert!(matches!(chunks[1], ZiPatchChunk::EndOfFile));
}

#[test]
fn test_parse_minimal_patch_no_verification() {
    let patch_data = build_minimal_patch();
    let parser = ZiPatchParser::without_checksum_verification();
    let chunks = parser.parse_patch(&patch_data).unwrap();

    assert_eq!(chunks.len(), 2);
}

#[test]
fn test_parse_multi_chunk_patch() {
    let patch_data = build_multi_chunk_patch();
    let parser = ZiPatchParser::new();
    let chunks = parser.parse_patch(&patch_data).unwrap();

    assert_eq!(chunks.len(), 5);
    assert!(matches!(chunks[0], ZiPatchChunk::FileHeader(_)));
    assert!(matches!(chunks[1], ZiPatchChunk::ApplyOption(_)));
    assert!(matches!(chunks[2], ZiPatchChunk::AddDirectory(_)));
    assert!(matches!(chunks[3], ZiPatchChunk::Sqpk(_)));
    assert!(matches!(chunks[4], ZiPatchChunk::EndOfFile));
}

#[test]
fn test_parse_file_header_values() {
    let patch_data = build_minimal_patch();
    let parser = ZiPatchParser::new();
    let chunks = parser.parse_patch(&patch_data).unwrap();

    if let ZiPatchChunk::FileHeader(fh) = &chunks[0] {
        assert_eq!(fh.version, 3);
        assert_eq!(fh.patch_type, "DIFF");
        assert_eq!(fh.entry_files, 10);
        assert_eq!(fh.offset, 12);
    } else {
        panic!("Expected FileHeader chunk");
    }
}

#[test]
fn test_parse_apply_option_values() {
    let patch_data = build_multi_chunk_patch();
    let parser = ZiPatchParser::new();
    let chunks = parser.parse_patch(&patch_data).unwrap();

    if let ZiPatchChunk::ApplyOption(opt) = &chunks[1] {
        assert_eq!(opt.option, ApplyOption::IgnoreMissing);
        assert_eq!(opt.value, 1);
    } else {
        panic!("Expected ApplyOption chunk");
    }
}

#[test]
fn test_parse_add_directory_values() {
    let patch_data = build_multi_chunk_patch();
    let parser = ZiPatchParser::new();
    let chunks = parser.parse_patch(&patch_data).unwrap();

    if let ZiPatchChunk::AddDirectory(dir) = &chunks[2] {
        assert_eq!(dir.path, "/game/sqpack/test");
    } else {
        panic!("Expected AddDirectory chunk");
    }
}

#[test]
fn test_parse_sqpk_patch_info_values() {
    let patch_data = build_multi_chunk_patch();
    let parser = ZiPatchParser::new();
    let chunks = parser.parse_patch(&patch_data).unwrap();

    if let ZiPatchChunk::Sqpk(SqpkChunk::PatchInfo(info)) = &chunks[3] {
        assert_eq!(info.status, 1);
        assert_eq!(info.version, 2);
        assert_eq!(info.install_size, 1024);
    } else {
        panic!("Expected SQPK PatchInfo chunk, got {:?}", chunks[3]);
    }
}

// ==========================================================================
// Individual Chunk Type Tests
// ==========================================================================

#[test]
fn test_parse_deld_chunk() {
    let patch = patch_of(&[build_fhdr_chunk(), build_deld_chunk("/old/directory"), build_eof_chunk()]);
    let parser = ZiPatchParser::new();
    let chunks = parser.parse_patch(&patch).unwrap();

    assert_eq!(chunks.len(), 3);
    if let ZiPatchChunk::DeleteDirectory(dir) = &chunks[1] {
        assert_eq!(dir.path, "/old/directory");
    } else {
        panic!("Expected DeleteDirectory chunk");
    }
}

#[test]
fn test_parse_apfs_chunk() {
    let patch = patch_of(&[build_fhdr_chunk(), build_apfs_chunk(65536), build_eof_chunk()]);
    let parser = ZiPatchParser::new();
    let chunks = parser.parse_patch(&patch).unwrap();

    assert_eq!(chunks.len(), 3);
    if let ZiPatchChunk::ApplyFreeSpace(apfs) = &chunks[1] {
        assert_eq!(apfs.alloc_size, 65536);
    } else {
        panic!("Expected ApplyFreeSpace chunk");
    }
}

#[test]
fn test_parse_sqpk_target_info() {
    let patch = patch_of(&[build_fhdr_chunk(), build_sqpk_target_info_chunk(), build_eof_chunk()]);
    let parser = ZiPatchParser::new();
    let chunks = parser.parse_patch(&patch).unwrap();

    assert_eq!(chunks.len(), 3);
    if let ZiPatchChunk::Sqpk(SqpkChunk::TargetInfo(info)) = &chunks[1] {
        assert_eq!(info.platform, Platform::Win32);
        assert_eq!(info.region, 1);
        assert!(!info.is_debug);
        assert_eq!(info.version, 100);
        assert_eq!(info.deleted_data_size, 512);
        assert_eq!(info.seek_count, 256);
    } else {
        panic!("Expected SQPK TargetInfo chunk");
    }
}

#[test]
fn test_parse_sqpk_add_data() {
    let mut body = vec![0u8; 3];
    body.extend_from_slice(&0x0004u16.to_be_bytes()); // main id
    body.extend_from_slice(&0x0100u16.to_be_bytes()); // sub id
    body.extend_from_slice(&7u32.to_be_bytes()); // file id
    body.extend_from_slice(&2u32.to_be_bytes()); // block offset, in blocks of 128
    body.extend_from_slice(&1u32.to_be_bytes()); // block number
    body.extend_from_slice(&3u32.to_be_bytes()); // block delete number
    let data: Vec<u8> = (0..128u32).map(|i| i as u8).collect();
    body.extend_from_slice(&data);
    let patch = patch_of(&[build_sqpk(b'A', &body), build_eof_chunk()]);
    let chunks = ZiPatchParser::new().parse_patch(&patch).unwrap();
    match &chunks[0] {
        ZiPatchChunk::Sqpk(SqpkChunk::AddData(a)) => {
            assert_eq!(a.target_file.main_id, 4);
            assert_eq!(a.target_file.sub_id, 0x0100);
            assert_eq!(a.target_file.file_id, 7);
            assert_eq!(a.block_offset, 256);
            assert_eq!(a.block_number, 128);
            assert_eq!(a.block_delete_number, 384);
            assert_eq!(a.block_data, data);
            assert_eq!(a.offset, 12);
            assert_eq!(a.data_source_offset, 12 + 8 + 5 + 23);
        }
        other => panic!("expected AddData, got {:?}", other),
    }
}

#[test]
fn test_parse_sqpk_add_data_takes_no_more_than_the_command_holds() {
    // three blocks announced, 100 bytes present
    let mut body = vec![0u8; 3];
    body.extend_from_slice(&[0u8; 8]);
    body.extend_from_slice(&0u32.to_be_bytes());
    body.extend_from_slice(&3u32.to_be_bytes());
    body.extend_from_slice(&0u32.to_be_bytes());
    body.extend_from_slice(&[0xAB; 100]);
    let patch = patch_of(&[build_sqpk(b'A', &body), build_eof_chunk()]);
    let chunks = ZiPatchParser::new().parse_patch(&patch).unwrap();
    match &chunks[0] {
        ZiPatchChunk::Sqpk(SqpkChunk::AddData(a)) => {
            assert_eq!(a.block_number, 384);
            assert_eq!(a.block_data, vec![0xAB; 100]);
        }
        other => panic!("expected AddData, got {:?}", other),
    }
}

#[test]
fn test_parse_sqpk_delete_and_expand() {
    let mut body = vec![0u8; 3];
    body.extend_from_slice(&1u16.to_be_bytes());
    body.extend_from_slice(&2u16.to_be_bytes());
    body.extend_from_slice(&3u32.to_be_bytes());
    body.extend_from_slice(&u32::MAX.to_be_bytes());
    body.extend_from_slice(&5u32.to_be_bytes());
    body.extend_from_slice(&[0u8; 4]);
    let patch = patch_of(&[build_sqpk(b'D', &body), build_sqpk(b'E', &body), build_eof_chunk()]);
    let chunks = ZiPatchParser::new().parse_patch(&patch).unwrap();
    match &chunks[0] {
        ZiPatchChunk::Sqpk(SqpkChunk::DeleteData(d)) => {
            assert_eq!((d.target_file.main_id, d.target_file.sub_id, d.target_file.file_id), (1, 2, 3));
            assert_eq!(d.block_offset, (u32::MAX as u64) << 7);
            assert_eq!(d.block_number, 640);
        }
        other => panic!("expected DeleteData, got {:?}", other),
    }
    match &chunks[1] {
        ZiPatchChunk::Sqpk(SqpkChunk::ExpandData(d)) => {
            assert_eq!(d.block_offset, (u32::MAX as u64) << 7);
            assert_eq!(d.block_number, 640);
            assert_eq!(d.offset, 12 + 12 + 28);
        }
        other => panic!("expected ExpandData, got {:?}", other),
    }
}

#[test]
fn test_parse_sqpk_header_index_and_file() {
    let mut header = vec![0u8; 3];
    header.push(b'I');
    header.push(b'V');
    header.push(0);
    header.extend_from_slice(&[0, 4, 1, 0, 0, 0, 0, 9]);
    header.extend_from_slice(&[0x11; 20]);

    let mut index = vec![0u8; 3];
    index.push(0x11); // synonym, index2
    index.extend_from_slice(&[0u8; 2]);
    index.extend_from_slice(&[0, 4, 0, 0, 0, 0, 0, 0]);
    for k in 0..2u64 {
        index.extend_from_slice(&(0xAABB_0000_0000_0000u64 + k).to_be_bytes());
        index.extend_from_slice(&(10 + k as u32).to_be_bytes());
        index.extend_from_slice(&(20 + k as u32).to_be_bytes());
    }
    index.extend_from_slice(&[0u8; 5]); // less than an entry: left over

    let mut file = vec![0u8; 3];
    file.push(b'A');
    file.push(0);
    file.push(2);
    let path = b"\\game\\a.txt\0\0";
    file.extend_from_slice(&(path.len() as u32).to_be_bytes());
    file.extend_from_slice(path);
    file.extend_from_slice(b"content");

    let patch = patch_of(&[
        build_sqpk(b'H', &header),
        build_sqpk(b'I', &index),
        build_sqpk(b'F', &file),
        build_sqpk(b'?', b"whatever"),
        build_eof_chunk(),
    ]);
    let chunks = ZiPatchParser::new().parse_patch(&patch).unwrap();
    assert_eq!(chunks.len(), 5);
    match &chunks[0] {
        ZiPatchChunk::Sqpk(SqpkChunk::Header(h)) => {
            assert_eq!(h.file_kind, SqpkFileKind::Index);
            assert_eq!(h.header_kind, SqpkHeaderKind::Version);
            assert_eq!(h.target_file.sub_id, 0x0100);
            assert_eq!(h.target_file.file_id, 9);
            assert_eq!(h.header_data, vec![0x11; 20]);
        }
        other => panic!("expected Header, got {:?}", other),
    }
    match &chunks[1] {
        ZiPatchChunk::Sqpk(SqpkChunk::Index(x)) => {
            assert_eq!(x.index_type, IndexType::Index2);
            assert!(x.is_synonym);
            assert_eq!(x.index_data.len(), 2);
            assert_eq!(x.index_data[1].file_hash, 0xAABB_0000_0000_0001);
            assert_eq!(x.index_data[1].block_offset, 11);
            assert_eq!(x.index_data[1].block_number, 21);
        }
        other => panic!("expected Index, got {:?}", other),
    }
    match &chunks[2] {
        ZiPatchChunk::Sqpk(SqpkChunk::File(f)) => {
            assert_eq!(f.operation, SqpkFileOperation::AddFile);
            assert_eq!(f.expansion_id, 2);
            assert_eq!(f.file_path, "\\game\\a.txt");
            assert_eq!(f.file_data, b"content");
        }
        other => panic!("expected File, got {:?}", other),
    }
    match &chunks[3] {
        ZiPatchChunk::Sqpk(c @ SqpkChunk::Unknown { .. }) => assert_eq!(c.command(), "?"),
        other => panic!("expected an unknown command, got {:?}", other),
    }
}

// ==========================================================================
// Unknown Chunk Handling Tests
// ==========================================================================

#[test]
fn test_parse_unknown_chunk() {
    let patch = patch_of(&[build_fhdr_chunk(), build_chunk(b"UNKN", b"test data"), build_eof_chunk()]);
    let parser = ZiPatchParser::new();
    let chunks = parser.parse_patch(&patch).unwrap();

    assert_eq!(chunks.len(), 3);
    if let ZiPatchChunk::Unknown { chunk_type, size, offset } = &chunks[1] {
        assert_eq!(chunk_type, "UNKN");
        assert_eq!(*size, 9); // data only (not including type)
        assert_eq!(*offset, 12 + 24);
    } else {
        panic!("Expected Unknown chunk");
    }
}

#[test]
fn test_bytes_after_the_last_chunk_are_ignored() {
    let mut patch = build_minimal_patch();
    patch.extend_from_slice(b"anything at all");
    let chunks = ZiPatchParser::new().parse_patch(&patch).unwrap();
    assert_eq!(chunks.len(), 2);
}

// ==========================================================================
// Error Handling Tests
// ==========================================================================

#[test]
fn test_parse_invalid_magic() {
    let mut patch = vec![0u8; 12]; // Invalid magic
    patch.extend_from_slice(&build_eof_chunk());

    let parser = ZiPatchParser::new();
    let result = parser.parse_patch(&patch);

    assert!(matches!(result, Err(Error::ZiPatchInvalidMagic)));
}

fn corrupted_fhdr_patch() -> Vec<u8> {
    let mut patch = Vec::new();
    patch.extend_from_slice(&ZIPATCH_MAGIC);
    let mut data = Vec::new();
    data.extend_from_slice(&3u16.to_be_bytes());
    data.extend_from_slice(&0u16.to_be_bytes());
    data.extend_from_slice(b"DIFF");
    data.extend_from_slice(&10u32.to_be_bytes());
    let size = data.len() as u32;
    patch.extend_from_slice(&size.to_be_bytes());
    patch.extend_from_slice(b"FHDR");
    patch.extend_from_slice(&data);
    patch.extend_from_slice(&[0xFF, 0xFF, 0xFF, 0xFF]); // Bad CRC
    patch
}

#[test]
fn test_parse_corrupted_crc() {
    let patch = corrupted_fhdr_patch();
    let parser = ZiPatchParser::new();
    let result = parser.parse_patch(&patch);

    assert!(matches!(result, Err(Error::ZiPatchChecksumMismatch { .. })));
    assert!(matches!(result, Err(Error::ZiPatchChecksumMismatch { offset: 12 })));
}

#[test]
fn test_parse_corrupted_crc_with_verification_disabled() {
    let mut patch = corrupted_fhdr_patch();
    // Add EOF chunk (also with bad CRC)
    patch.extend_from_slice(&0u32.to_be_bytes());
    patch.extend_from_slice(b"EOF_");
    patch.extend_from_slice(&[0xFF, 0xFF, 0xFF, 0xFF]);

    let parser = ZiPatchParser::without_checksum_verification();
    let result = parser.parse_patch(&patch);

    assert!(result.is_ok());
    let chunks = result.unwrap();
    assert_eq!(chunks.len(), 2);
}

#[test]
fn test_checksum_covers_type_and_payload() {
    // a checksum over the payload alone is refused
    let payload = b"some payload";
    let mut chunk = Vec::new();
    chunk.extend_from_slice(&(payload.len() as u32).to_be_bytes());
    chunk.extend_from_slice(b"UNKN");
    chunk.extend_from_slice(payload);
    chunk.extend_from_slice(&reference_crc32(payload).to_be_bytes());
    let patch = patch_of(&[chunk, build_eof_chunk()]);
    assert!(matches!(
        ZiPatchParser::new().parse_patch(&patch),
        Err(Error::ZiPatchChecksumMismatch { offset: 12 })
    ));
    // the same chunk under another type fails as well
    let mut good = build_chunk(b"UNKN", payload);
    assert!(ZiPatchParser::new().read_chunk(&good, 0).is_ok());
    good[4] = b'X';
    assert!(matches!(
        ZiPatchParser::new().read_chunk(&good, 0),
        Err(Error::ZiPatchChecksumMismatch { offset: 0 })
    ));
}

#[test]
fn test_every_flipped_payload_byte_is_caught() {
    let patch = build_multi_chunk_patch();
    let parser = ZiPatchParser::new();
    let eof_start = patch.len() - 12;
    // the chunk types and payloads of all chunks before the last
    for i in 12..eof_start {
        let mut broken = patch.clone();
        broken[i] ^= 0x40;
        assert!(parser.parse_patch(&broken).is_err(), "byte {} went unnoticed", i);
    }
}

#[test]
fn test_truncated_patch_fails() {
    let patch = build_multi_chunk_patch();
    let parser = ZiPatchParser::new();
    for cut in 12..patch.len() {
        assert!(matches!(parser.parse_patch(&patch[..cut]), Err(Error::Io(_))), "cut at {}", cut);
    }
    // a patch without the chunk that ends it
    let open = patch_of(&[build_fhdr_chunk(), build_aply_chunk(2, 0)]);
    assert!(matches!(parser.parse_patch(&open), Err(Error::Io(_))));
}

#[test]
fn test_read_chunk_tells_where_the_next_chunk_begins() {
    let patch = build_multi_chunk_patch();
    let parser = ZiPatchParser::new();
    let mut pos = 12;
    let mut types = Vec::new();
    loop {
        let (chunk, next) = parser.read_chunk(&patch, pos).unwrap();
        types.push(chunk.chunk_type().to_string());
        assert!(next > pos);
        pos = next;
        if matches!(chunk, ZiPatchChunk::EndOfFile) {
            break;
        }
    }
    assert_eq!(pos, patch.len());
    assert_eq!(types, vec!["FHDR", "APLY", "ADIR", "SQPK", "EOF_"]);
}

// ==========================================================================
// Chunk Type String Tests
// ==========================================================================

#[test]
fn test_chunk_type_strings() {
    let patch_data = build_multi_chunk_patch();
    let parser = ZiPatchParser::new();
    let chunks = parser.parse_patch(&patch_data).unwrap();

    assert_eq!(chunks[0].chunk_type(), "FHDR");
    assert_eq!(chunks[1].chunk_type(), "APLY");
    assert_eq!(chunks[2].chunk_type(), "ADIR");
    assert_eq!(chunks[3].chunk_type(), "SQPK");
    assert_eq!(chunks[4].chunk_type(), "EOF_");
}

// ==========================================================================
// CRC32 Helper Tests
// ==========================================================================

#[test]
fn test_build_chunk_crc() {
    let chunk = build_chunk(b"TEST", b"data");

    // Size should be 4 (data only, not including type)
    let size = u32::from_be_bytes([chunk[0], chunk[1], chunk[2], chunk[3]]);
    assert_eq!(size, 4);

    // Verify chunk type
    assert_eq!(&chunk[4..8], b"TEST");

    // Verify data
    assert_eq!(&chunk[8..12], b"data");

    // Verify CRC is present (4 bytes at end)
    assert_eq!(chunk.len(), 4 + 4 + 4 + 4); // size + type + data + crc

    // and is the checksum of type and data
    let stored = u32::from_be_bytes([chunk[12], chunk[13], chunk[14], chunk[15]]);
    assert_eq!(stored, reference_crc32(b"TESTdata"));
    assert_eq!(reference_crc32(b"123456789"), 0xCBF4_3926);
}

// ==========================================================================
// SQPK Command Tests
// ==========================================================================

#[test]
fn test_sqpk_command_strings() {
    let patch_data = build_multi_chunk_patch();
    let parser = ZiPatchParser::new();
    let chunks = parser.parse_patch(&patch_data).unwrap();

    if let ZiPatchChunk::Sqpk(sqpk) = &chunks[3] {
        assert_eq!(sqpk.command(), "X");
    } else {
        panic!("Expected SQPK chunk");
    }
}

// ==========================================================================
// Apply Patch Tests
// ==========================================================================

fn plan(root: &str, patch: &[u8]) -> Result<Vec<PatchOp>, Error> {
    let chunks = ZiPatchParser::new().parse_patch(patch)?;
    let mut state = ApplyState::new();
    let mut all = Vec::new();
    for chunk in &chunks {
        all.extend(state.plan_chunk(root, chunk)?);
    }
    Ok(all)
}

#[test]
fn test_apply_patch_creates_directory() {
    let patch = patch_of(&[build_fhdr_chunk(), build_adir_chunk("test_subdir"), build_eof_chunk()]);
    let ops = plan("/games/ffxiv", &patch).unwrap();
    assert_eq!(ops.len(), 1);
    assert!(matches!(&ops[0], PatchOp::CreateDir { path } if path == "/games/ffxiv/test_subdir"));
}

#[test]
fn test_apply_patch_deletes_directory() {
    let patch = patch_of(&[build_fhdr_chunk(), build_deld_chunk("to_delete"), build_eof_chunk()]);
    let ops = plan("/games/ffxiv/", &patch).unwrap();
    assert_eq!(ops.len(), 1);
    assert!(matches!(&ops[0], PatchOp::RemoveDir { path } if path == "/games/ffxiv/to_delete"));
}

#[test]
fn test_zipatch_round_trip() {
    let patch = patch_of(&[
        build_fhdr_chunk(),
        build_adir_chunk("\\game\\sqpack\\x"),
        build_aply_chunk(1, 1),
        build_sqpk_patch_info_chunk(),
        build_eof_chunk(),
    ]);
    let chunks = ZiPatchParser::new().parse_patch(&patch).unwrap();
    assert_eq!(chunks.len(), 5);
    let types: Vec<&str> = chunks.iter().map(|c| c.chunk_type()).collect();
    assert_eq!(types, vec!["FHDR", "ADIR", "APLY", "SQPK", "EOF_"]);
    match &chunks[0] {
        ZiPatchChunk::FileHeader(h) => {
            assert_eq!((h.version, h.patch_type.as_str(), h.entry_files), (3, "DIFF", 10));
        }
        other => panic!("expected FHDR, got {:?}", other),
    }
    let mut state = ApplyState::new();
    let mut ops = Vec::new();
    for c in &chunks {
        ops.extend(state.plan_chunk("/root/game-tree", c).unwrap());
    }
    assert!(state.ignore_missing);
    assert!(!state.ignore_old_mismatch);
    assert_eq!(ops.len(), 1);
    assert!(matches!(&ops[0], PatchOp::CreateDir { path } if path == "/root/game-tree/game/sqpack/x"));

    // a path that leaves the root fails the patch, and nothing is planned
    let bad = patch_of(&[build_fhdr_chunk(), build_adir_chunk("\\..\\etc\\passwd"), build_eof_chunk()]);
    assert!(matches!(plan("/root/game-tree", &bad), Err(Error::ZiPatchApply(_))));
}

#[test]
fn test_plan_refuses_paths_that_leave_the_root() {
    for path in ["..", "\\..\\x", "/a/../b", "a\\..", "a..b", "\\\\..//x"] {
        for chunk in [build_adir_chunk(path), build_deld_chunk(path)] {
            let patch = patch_of(&[chunk, build_eof_chunk()]);
            let chunks = ZiPatchParser::new().parse_patch(&patch).unwrap();
            let mut state = ApplyState::new();
            let before = state;
            let r = state.plan_chunk("/g", &chunks[0]);
            match r {
                Err(Error::ZiPatchApply(m)) => {
                    assert_eq!(m, format!("path leaves the game directory: {}", path))
                }
                other => panic!("{} was let through: {:?}", path, other),
            }
            assert_eq!(state, before);
        }
    }
}

#[test]
fn test_plan_of_sqpk_commands() {
    let mut target_info = vec![0u8; 3];
    target_info.push(2); // ps4
    target_info.extend_from_slice(&[0u8; 22]);

    let mut add = vec![0u8; 3];
    add.extend_from_slice(&[0, 4, 1, 0, 0, 0, 0, 1]);
    add.extend_from_slice(&1u32.to_be_bytes());
    add.extend_from_slice(&1u32.to_be_bytes());
    add.extend_from_slice(&2u32.to_be_bytes());
    add.extend_from_slice(&[7u8; 128]);

    let mut file_del = vec![0u8; 3];
    file_del.push(b'D');
    file_del.push(0);
    file_del.push(0);
    let path = b"game/old.dat";
    file_del.extend_from_slice(&(path.len() as u32).to_be_bytes());
    file_del.extend_from_slice(path);

    let patch = patch_of(&[
        build_aply_chunk(2, 1),
        build_sqpk(b'T', &target_info),
        build_sqpk(b'A', &add),
        build_sqpk(b'F', &file_del),
        build_eof_chunk(),
    ]);
    let chunks = ZiPatchParser::new().parse_patch(&patch).unwrap();
    let mut state = ApplyState::new();
    let mut ops = Vec::new();
    for c in &chunks {
        ops.extend(state.plan_chunk("/g", c).unwrap());
    }
    assert_eq!(state.platform, Platform::Ps4);
    assert!(state.ignore_old_mismatch && !state.ignore_missing);
    assert_eq!(ops.len(), 2);
    match &ops[0] {
        PatchOp::WriteBlock { file, offset, data, clear_after } => {
            assert_eq!(file, "/g/game/sqpack/ex1/040100.ps4.dat1");
            assert_eq!(*offset, 128);
            assert_eq!(data, &vec![7u8; 128]);
            assert_eq!(*clear_after, 256);
        }
        other => panic!("expected WriteBlock, got {:?}", other),
    }
    assert!(matches!(&ops[1], PatchOp::RemoveFile { file } if file == "/g/game/old.dat"));
}
