//! Reading a ZiPatch file: the magic header, then chunk after chunk up to
//! the chunk that ends the file. The reader moves forward only.

use vstd::prelude::*;
use crate::bytes::{
    be_at,
    copy_bytes,
    from_utf8_lossy,
    fits,
    has_bytes,
    i32_at,
    is_truncated,
    read_fixed_text,
    truncated,
    u16_at,
    u32_at,
    u64_at,
    u8_at,
    fixed_text,
    lemma_be_value_bound,
};
use crate::digest::{crc32, crc32_of};
use crate::error::Error;
use crate::zipatch::{
    AddDirectoryChunk,
    ApplyFreeSpaceChunk,
    ApplyOption,
    ApplyOptionChunk,
    DeleteDirectoryChunk,
    FileHeaderChunk,
    IndexType,
    Platform,
    SqpackFileTarget,
    SqpkAddData,
    SqpkChunk,
    SqpkDeleteData,
    SqpkExpandData,
    SqpkFile,
    SqpkFileKind,
    SqpkFileOperation,
    SqpkHeader,
    SqpkHeaderKind,
    SqpkIndex,
    SqpkIndexData,
    SqpkPatchInfo,
    SqpkTargetInfo,
    ZiPatchChunk,
    ZIPATCH_MAGIC,
};
use crate::zipatch_layout::{
    blocks_at,
    body_end,
    chunk_is,
    minus,
    sqpk_data_size,
    sqpk_end,
    sqpk_is,
    tag_at,
    target_at,
};

verus! {

/// Whether `r` is the chunk at `offset` together with the place where its
/// fields end, or the failure of running past the end of the file.
pub open spec fn body_read(r: Result<(ZiPatchChunk, usize), Error>, data: Seq<u8>, offset: int) -> bool {
    match body_end(data, offset) {
        None => r matches Err(e) && is_truncated(e),
        Some(end) => r matches Ok(p) && p.1 == end && chunk_is(p.0, data, offset),
    }
}

/// The same for the command of an SQPK chunk.
pub open spec fn sqpk_read(r: Result<(SqpkChunk, usize), Error>, data: Seq<u8>, offset: int) -> bool {
    match sqpk_end(data, offset + 13, data[offset + 12], sqpk_data_size(data, offset + 8)) {
        None => r matches Err(e) && is_truncated(e),
        Some(end) => r matches Ok(p) && p.1 == end && sqpk_is(p.0, data, offset),
    }
}

/// What reading the chunk at `offset` comes to.
pub enum ChunkOutcome {
    /// The file ends inside the chunk.
    Truncated,
    /// The checksum stored after the payload is not that of type and
    /// payload.
    BadChecksum,
    /// The chunk is sound; the next one begins at `next`.
    Good { next: int },
}

/// Where the payload of the chunk at `offset` ends: after its declared
/// size, or where its fields end if that is later.
pub open spec fn payload_end(data: Seq<u8>, offset: int) -> int {
    let declared = offset + 8 + be_at(data, offset, 4);
    if body_end(data, offset).unwrap() > declared {
        body_end(data, offset).unwrap()
    } else {
        declared
    }
}

/// What reading the chunk at `offset` comes to. With `verify` the CRC-32 of
/// type and payload, in this order, must be the number stored after the
/// payload.
pub open spec fn chunk_outcome(data: Seq<u8>, offset: int, verify: bool) -> ChunkOutcome {
    if !fits(data, offset, 8) || body_end(data, offset) is None || !fits(
        data,
        payload_end(data, offset),
        4,
    ) {
        ChunkOutcome::Truncated
    } else if verify && crc32_of(data.subrange(offset + 4, payload_end(data, offset))) != be_at(
        data,
        payload_end(data, offset),
        4,
    ) {
        ChunkOutcome::BadChecksum
    } else {
        ChunkOutcome::Good { next: payload_end(data, offset) + 4 }
    }
}

/// Where chunk number `i` of the file begins: the first after the magic
/// header, each next one after a sound chunk that does not end the file.
pub open spec fn nth_offset(data: Seq<u8>, verify: bool, i: nat) -> Option<int>
    decreases i,
{
    if i == 0 {
        Some(12)
    } else {
        match nth_offset(data, verify, (i - 1) as nat) {
            Some(o) => match chunk_outcome(data, o, verify) {
                ChunkOutcome::Good { next } => if tag_at(data, o + 4) is Eof {
                    None
                } else {
                    Some(next)
                },
                _ => None,
            },
            None => None,
        }
    }
}

/// Whether the file begins with the magic header.
pub open spec fn has_magic(data: Seq<u8>) -> bool {
    fits(data, 0, 12) && data.subrange(0, 12) == ZIPATCH_MAGIC@
}

/// Whether `chunks` are the chunks of the file, up to and with the one
/// that ends it.
pub open spec fn chunks_are(chunks: Seq<ZiPatchChunk>, data: Seq<u8>, verify: bool) -> bool {
    &&& has_magic(data)
    &&& chunks.len() > 0
    &&& forall|j: int|
        0 <= j < chunks.len() ==> {
            &&& (#[trigger] nth_offset(data, verify, j as nat)) matches Some(o)
            &&& chunk_outcome(data, o, verify) is Good
            &&& chunk_is(chunks[j], data, o)
            &&& (chunks[j] is EndOfFile <==> j == chunks.len() - 1)
        }
}

/// Whether `e` is the failure of reading the file: it is too short for the
/// magic header, or does not begin with it, or one of its chunks is cut
/// short or fails its checksum.
pub open spec fn failure_is(e: Error, data: Seq<u8>, verify: bool) -> bool {
    if !fits(data, 0, 12) {
        is_truncated(e)
    } else if !has_magic(data) {
        e is ZiPatchInvalidMagic
    } else {
        exists|j: nat|
            (#[trigger] nth_offset(data, verify, j)) matches Some(o) && match chunk_outcome(
                data,
                o,
                verify,
            ) {
                ChunkOutcome::Truncated => is_truncated(e),
                ChunkOutcome::BadChecksum => e matches Error::ZiPatchChecksumMismatch { offset }
                    && offset == o,
                ChunkOutcome::Good { .. } => false,
            }
    }
}

/// Reader of patch files.
#[derive(Debug, Clone, Copy)]
pub struct ZiPatchParser {
    /// Whether the checksum of every chunk is verified.
    pub verify_checksums: bool,
}

impl Default for ZiPatchParser {
    fn default() -> (p: Self)
        ensures
            p.verify_checksums,
    {
        ZiPatchParser { verify_checksums: true }
    }
}

fn target(data: &[u8], at: usize) -> (t: SqpackFileTarget)
    requires
        fits(data@, at as int, 8),
    ensures
        t == target_at(data@, at as int),
{
    proof {
        lemma_be_value_bound(data@.subrange(at as int, at + 2));
        lemma_be_value_bound(data@.subrange(at + 2, at + 4));
        lemma_be_value_bound(data@.subrange(at + 4, at + 8));
    }
    let len = data.len();
    SqpackFileTarget {
        main_id: u16_at(data, at),
        sub_id: u16_at(data, at + 2),
        file_id: u32_at(data, at + 4),
    }
}

fn blocks(data: &[u8], at: usize) -> (n: u64)
    requires
        fits(data@, at as int, 4),
    ensures
        n == blocks_at(data@, at as int),
{
    proof {
        lemma_be_value_bound(data@.subrange(at as int, at + 4));
    }
    (u32_at(data, at) as u64) * 128
}

/// Whether `n` bytes stand in `data` from `at` on, for a count of 64 bits.
fn has_wide(data: &[u8], at: usize, n: u64) -> (r: bool)
    requires
        at <= data.len(),
    ensures
        r == fits(data@, at as int, n as int),
{
    n <= (data.len() - at) as u64
}

fn sub_or_zero(a: u64, b: u64) -> (r: u64)
    ensures
        r == minus(a as nat, b as nat),
{
    if a < b {
        0
    } else {
        a - b
    }
}

impl ZiPatchParser {
    /// A reader that verifies checksums.
    pub fn new() -> (p: Self)
        ensures
            p.verify_checksums,
    {
        ZiPatchParser { verify_checksums: true }
    }

    /// A reader that skips the verification of checksums.
    pub fn without_checksum_verification() -> (p: Self)
        ensures
            !p.verify_checksums,
    {
        ZiPatchParser { verify_checksums: false }
    }

    /// The text in the first `len` bytes of `data`, without the zero
    /// characters it ends with.
    pub fn read_string(data: &[u8], len: usize) -> (r: Result<String, Error>)
        ensures
            fits(data@, 0, len as int) ==> (r matches Ok(s) && s@ == fixed_text(
                data@.subrange(0, len as int),
            )),
            !fits(data@, 0, len as int) ==> (r matches Err(e) && is_truncated(e)),
    {
        if len > data.len() {
            return Err(truncated());
        }
        Ok(read_fixed_text(&data[0..len]))
    }

    /// Checks the magic header.
    pub fn read_magic_header(data: &[u8]) -> (r: Result<(), Error>)
        ensures
            has_magic(data@) ==> r is Ok,
            fits(data@, 0, 12) && !has_magic(data@) ==> (r matches Err(Error::ZiPatchInvalidMagic)),
            !fits(data@, 0, 12) ==> (r matches Err(e) && is_truncated(e)),
    {
        if data.len() < 12 {
            return Err(truncated());
        }
        let mut i: usize = 0;
        while i < 12
            invariant
                i <= 12,
                data.len() >= 12,
                forall|k: int| 0 <= k < i ==> data@[k] == ZIPATCH_MAGIC@[k],
            decreases 12 - i,
        {
            if data[i] != ZIPATCH_MAGIC[i] {
                assert(data@.subrange(0, 12)[i as int] == data@[i as int]);
                return Err(Error::ZiPatchInvalidMagic);
            }
            i += 1;
        }
        assert(data@.subrange(0, 12) =~= ZIPATCH_MAGIC@);
        Ok(())
    }

    fn parse_file_header(data: &[u8], offset: usize) -> (r: Result<(ZiPatchChunk, usize), Error>)
        requires
            fits(data@, offset as int, 8),
            tag_at(data@, offset + 4) is Fhdr,
        ensures
            body_read(r, data@, offset as int),
    {
        let len = data.len();
        let p = offset + 8;
        if !has_bytes(data, p, 12) {
            return Err(truncated());
        }
        let version = u16_at(data, p);
        let patch_type = read_fixed_text(&data[p + 4..p + 8]);
        let entry_files = u32_at(data, p + 8);
        Ok(
            (
                ZiPatchChunk::FileHeader(
                    FileHeaderChunk { version, patch_type, entry_files, offset: offset as u64 },
                ),
                p + 12,
            ),
        )
    }

    fn parse_apply_option(data: &[u8], offset: usize) -> (r: Result<(ZiPatchChunk, usize), Error>)
        requires
            fits(data@, offset as int, 8),
            tag_at(data@, offset + 4) is Aply,
        ensures
            body_read(r, data@, offset as int),
    {
        let len = data.len();
        let p = offset + 8;
        if !has_bytes(data, p, 12) {
            return Err(truncated());
        }
        let option = u32_at(data, p);
        let value = u32_at(data, p + 4);
        Ok(
            (
                ZiPatchChunk::ApplyOption(
                    ApplyOptionChunk {
                        option: ApplyOption::from(option),
                        value,
                        offset: offset as u64,
                    },
                ),
                p + 12,
            ),
        )
    }

    fn read_path(data: &[u8], offset: usize) -> (r: Result<(String, usize), Error>)
        requires
            fits(data@, offset as int, 8),
        ensures
            ({
                let n = minus(be_at(data@, offset as int, 4), 4);
                let len = data.len();
        let p = offset + 8;
                if fits(data@, p, n as int) {
                    r matches Ok(x) && x.0@ == fixed_text(data@.subrange(p, p + n)) && x.1 == p + n
                } else {
                    r matches Err(e) && is_truncated(e)
                }
            }),
    {
        let len = data.len();
        let p = offset + 8;
        let size = u32_at(data, offset);
        let n = sub_or_zero(size as u64, 4);
        if !has_wide(data, p, n) {
            return Err(truncated());
        }
        let end = p + n as usize;
        Ok((read_fixed_text(&data[p..end]), end))
    }

    fn parse_add_directory(data: &[u8], offset: usize) -> (r: Result<(ZiPatchChunk, usize), Error>)
        requires
            fits(data@, offset as int, 8),
            tag_at(data@, offset + 4) is Adir,
        ensures
            body_read(r, data@, offset as int),
    {
        match Self::read_path(data, offset) {
            Ok((path, end)) => Ok(
                (ZiPatchChunk::AddDirectory(AddDirectoryChunk { path, offset: offset as u64 }), end),
            ),
            Err(e) => Err(e),
        }
    }

    fn parse_delete_directory(data: &[u8], offset: usize) -> (r: Result<
        (ZiPatchChunk, usize),
        Error,
    >)
        requires
            fits(data@, offset as int, 8),
            tag_at(data@, offset + 4) is Deld,
        ensures
            body_read(r, data@, offset as int),
    {
        match Self::read_path(data, offset) {
            Ok((path, end)) => Ok(
                (
                    ZiPatchChunk::DeleteDirectory(
                        DeleteDirectoryChunk { path, offset: offset as u64 },
                    ),
                    end,
                ),
            ),
            Err(e) => Err(e),
        }
    }

    fn parse_apply_free_space(data: &[u8], offset: usize) -> (r: Result<
        (ZiPatchChunk, usize),
        Error,
    >)
        requires
            fits(data@, offset as int, 8),
            tag_at(data@, offset + 4) is Apfs,
        ensures
            body_read(r, data@, offset as int),
    {
        let len = data.len();
        let p = offset + 8;
        if !has_bytes(data, p, 8) {
            return Err(truncated());
        }
        let alloc_size = u64_at(data, p);
        Ok(
            (
                ZiPatchChunk::ApplyFreeSpace(
                    ApplyFreeSpaceChunk { alloc_size, offset: offset as u64 },
                ),
                p + 8,
            ),
        )
    }

    fn parse_sqpk_add_data(data: &[u8], offset: usize, data_size: u64) -> (r: Result<
        (SqpkChunk, usize),
        Error,
    >)
        requires
            fits(data@, offset as int, 13),
            data@[offset + 12] == 0x41,
            data_size == sqpk_data_size(data@, offset + 8),
        ensures
            sqpk_read(r, data@, offset as int),
    {
        let len = data.len();
        let q = offset + 13;
        if !has_bytes(data, q, 23) {
            return Err(truncated());
        }
        let target_file = target(data, q + 3);
        let block_offset = blocks(data, q + 11);
        let block_number = blocks(data, q + 15);
        let block_delete_number = blocks(data, q + 19);
        let room = sub_or_zero(data_size, 23);
        let n = if block_number < room {
            block_number
        } else {
            room
        };
        if !has_wide(data, q + 23, n) {
            return Err(truncated());
        }
        let end = q + 23 + n as usize;
        let block_data = copy_bytes(data, q + 23, end);
        Ok(
            (
                SqpkChunk::AddData(
                    SqpkAddData {
                        target_file,
                        block_offset,
                        block_number,
                        block_delete_number,
                        block_data,
                        data_source_offset: (q + 23) as u64,
                        offset: offset as u64,
                    },
                ),
                end,
            ),
        )
    }

    fn parse_sqpk_delete_data(data: &[u8], offset: usize) -> (r: Result<(SqpkChunk, usize), Error>)
        requires
            fits(data@, offset as int, 13),
            data@[offset + 12] == 0x44,
        ensures
            sqpk_read(r, data@, offset as int),
    {
        let len = data.len();
        let q = offset + 13;
        if !has_bytes(data, q, 23) {
            return Err(truncated());
        }
        let target_file = target(data, q + 3);
        let block_offset = blocks(data, q + 11);
        let block_number = blocks(data, q + 15);
        Ok(
            (
                SqpkChunk::DeleteData(
                    SqpkDeleteData {
                        target_file,
                        block_offset,
                        block_number,
                        offset: offset as u64,
                    },
                ),
                q + 23,
            ),
        )
    }

    fn parse_sqpk_expand_data(data: &[u8], offset: usize) -> (r: Result<(SqpkChunk, usize), Error>)
        requires
            fits(data@, offset as int, 13),
            data@[offset + 12] == 0x45,
        ensures
            sqpk_read(r, data@, offset as int),
    {
        let len = data.len();
        let q = offset + 13;
        if !has_bytes(data, q, 23) {
            return Err(truncated());
        }
        let target_file = target(data, q + 3);
        let block_offset = blocks(data, q + 11);
        let block_number = blocks(data, q + 15);
        Ok(
            (
                SqpkChunk::ExpandData(
                    SqpkExpandData {
                        target_file,
                        block_offset,
                        block_number,
                        offset: offset as u64,
                    },
                ),
                q + 23,
            ),
        )
    }

    fn parse_sqpk_header(data: &[u8], offset: usize, data_size: u64) -> (r: Result<
        (SqpkChunk, usize),
        Error,
    >)
        requires
            fits(data@, offset as int, 13),
            data@[offset + 12] == 0x48,
            data_size == sqpk_data_size(data@, offset + 8),
        ensures
            sqpk_read(r, data@, offset as int),
    {
        let len = data.len();
        let q = offset + 13;
        if !has_bytes(data, q, 14) {
            return Err(truncated());
        }
        let file_kind = u8_at(data, q + 3);
        let header_kind = u8_at(data, q + 4);
        let target_file = target(data, q + 6);
        let n = sub_or_zero(data_size, 14);
        if !has_wide(data, q + 14, n) {
            return Err(truncated());
        }
        let end = q + 14 + n as usize;
        let header_data = copy_bytes(data, q + 14, end);
        Ok(
            (
                SqpkChunk::Header(
                    SqpkHeader {
                        file_kind: SqpkFileKind::from(file_kind),
                        header_kind: SqpkHeaderKind::from(header_kind),
                        target_file,
                        header_data,
                        offset: offset as u64,
                    },
                ),
                end,
            ),
        )
    }

    fn parse_sqpk_index(data: &[u8], offset: usize, data_size: u64) -> (r: Result<
        (SqpkChunk, usize),
        Error,
    >)
        requires
            fits(data@, offset as int, 13),
            data@[offset + 12] == 0x49,
            data_size == sqpk_data_size(data@, offset + 8),
        ensures
            sqpk_read(r, data@, offset as int),
    {
        let len = data.len();
        let q = offset + 13;
        if !has_bytes(data, q, 14) {
            return Err(truncated());
        }
        let index_cmd = u8_at(data, q + 3);
        let is_synonym = (index_cmd & 0x10) != 0;
        let index_type = if (index_cmd & 0x0F) == 0 {
            IndexType::Index
        } else {
            IndexType::Index2
        };
        let target_file = target(data, q + 6);
        let count: u64 = sub_or_zero(data_size, 14) / 16;
        let room: usize = len - (q + 14);
        if count > (room / 16) as u64 {
            return Err(truncated());
        }
        let count: usize = count as usize;
        let mut index_data: Vec<SqpkIndexData> = Vec::new();
        let mut k: usize = 0;
        while k < count
            invariant
                k <= count,
                len == data.len(),
                q + 14 + 16 * count <= len,
                index_data@.len() == k,
                forall|j: int|
                    0 <= j < k ==> #[trigger] index_data@[j] == (SqpkIndexData {
                        file_hash: be_at(data@, q + 14 + 16 * j, 8) as u64,
                        block_offset: be_at(data@, q + 14 + 16 * j + 8, 4) as u32,
                        block_number: be_at(data@, q + 14 + 16 * j + 12, 4) as u32,
                    }),
            decreases count - k,
        {
            let at = q + 14 + 16 * k;
            proof {
                lemma_be_value_bound(data@.subrange(at as int, at + 8));
                lemma_be_value_bound(data@.subrange(at + 8, at + 12));
                lemma_be_value_bound(data@.subrange(at + 12, at + 16));
            }
            index_data.push(
                SqpkIndexData {
                    file_hash: u64_at(data, at),
                    block_offset: u32_at(data, at + 8),
                    block_number: u32_at(data, at + 12),
                },
            );
            k += 1;
        }
        Ok(
            (
                SqpkChunk::Index(
                    SqpkIndex {
                        index_type,
                        is_synonym,
                        target_file,
                        index_data,
                        offset: offset as u64,
                    },
                ),
                q + 14 + 16 * count,
            ),
        )
    }

    fn parse_sqpk_file(data: &[u8], offset: usize, data_size: u64) -> (r: Result<
        (SqpkChunk, usize),
        Error,
    >)
        requires
            fits(data@, offset as int, 13),
            data@[offset + 12] == 0x46,
            data_size == sqpk_data_size(data@, offset + 8),
        ensures
            sqpk_read(r, data@, offset as int),
    {
        let len = data.len();
        let q = offset + 13;
        if !has_bytes(data, q, 10) {
            return Err(truncated());
        }
        let operation = u8_at(data, q + 3);
        let expansion_id = u8_at(data, q + 5);
        let path_len = u32_at(data, q + 6);
        if !has_wide(data, q + 10, path_len as u64) {
            return Err(truncated());
        }
        let path_end = q + 10 + path_len as usize;
        let file_path = read_fixed_text(&data[q + 10..path_end]);
        let n = sub_or_zero(data_size, 10 + path_len as u64);
        if !has_wide(data, path_end, n) {
            return Err(truncated());
        }
        let end = path_end + n as usize;
        let file_data = copy_bytes(data, path_end, end);
        Ok(
            (
                SqpkChunk::File(
                    SqpkFile {
                        operation: SqpkFileOperation::from(operation),
                        expansion_id,
                        file_path,
                        file_data,
                        offset: offset as u64,
                    },
                ),
                end,
            ),
        )
    }

    fn parse_sqpk_patch_info(data: &[u8], offset: usize) -> (r: Result<(SqpkChunk, usize), Error>)
        requires
            fits(data@, offset as int, 13),
            data@[offset + 12] == 0x58,
        ensures
            sqpk_read(r, data@, offset as int),
    {
        let len = data.len();
        let q = offset + 13;
        if !has_bytes(data, q, 15) {
            return Err(truncated());
        }
        let status = u8_at(data, q + 3);
        let version = u8_at(data, q + 4);
        let install_size = u64_at(data, q + 7);
        Ok(
            (
                SqpkChunk::PatchInfo(
                    SqpkPatchInfo { status, version, install_size, offset: offset as u64 },
                ),
                q + 15,
            ),
        )
    }

    fn parse_sqpk_target_info(data: &[u8], offset: usize) -> (r: Result<(SqpkChunk, usize), Error>)
        requires
            fits(data@, offset as int, 13),
            data@[offset + 12] == 0x54,
        ensures
            sqpk_read(r, data@, offset as int),
    {
        let len = data.len();
        let q = offset + 13;
        if !has_bytes(data, q, 26) {
            return Err(truncated());
        }
        let platform = Platform::from_byte(u8_at(data, q + 3));
        let region = u16_at(data, q + 4);
        let is_debug = u8_at(data, q + 6) != 0;
        let version = u16_at(data, q + 7);
        let deleted_data_size = u64_at(data, q + 10);
        let seek_count = u64_at(data, q + 18);
        Ok(
            (
                SqpkChunk::TargetInfo(
                    SqpkTargetInfo {
                        platform,
                        region,
                        is_debug,
                        version,
                        deleted_data_size,
                        seek_count,
                        offset: offset as u64,
                    },
                ),
                q + 26,
            ),
        )
    }

    fn parse_sqpk_chunk(data: &[u8], offset: usize) -> (r: Result<(ZiPatchChunk, usize), Error>)
        requires
            fits(data@, offset as int, 8),
            tag_at(data@, offset + 4) is Sqpk,
        ensures
            body_read(r, data@, offset as int),
    {
        let len = data.len();
        let p = offset + 8;
        if !has_bytes(data, p, 5) {
            return Err(truncated());
        }
        let inner = i32_at(data, p);
        let wide: u64 = if inner < 0 {
            u64::MAX - ((-(inner as i64) - 1) as u64)
        } else {
            inner as u64
        };
        let data_size = sub_or_zero(wide, 5);
        let cmd = u8_at(data, p + 4);
        let parsed = if cmd == 0x41 {
            Self::parse_sqpk_add_data(data, offset, data_size)
        } else if cmd == 0x44 {
            Self::parse_sqpk_delete_data(data, offset)
        } else if cmd == 0x45 {
            Self::parse_sqpk_expand_data(data, offset)
        } else if cmd == 0x48 {
            Self::parse_sqpk_header(data, offset, data_size)
        } else if cmd == 0x49 {
            Self::parse_sqpk_index(data, offset, data_size)
        } else if cmd == 0x46 {
            Self::parse_sqpk_file(data, offset, data_size)
        } else if cmd == 0x58 {
            Self::parse_sqpk_patch_info(data, offset)
        } else if cmd == 0x54 {
            Self::parse_sqpk_target_info(data, offset)
        } else {
            if !has_wide(data, p + 5, data_size) {
                Err(truncated())
            } else {
                let command = from_utf8_lossy(&data[p + 4..p + 5]);
                Ok((SqpkChunk::Unknown { command, offset: offset as u64 }, p + 5 + data_size as usize))
            }
        };
        match parsed {
            Ok((c, end)) => Ok((ZiPatchChunk::Sqpk(c), end)),
            Err(e) => Err(e),
        }
    }
}

} // verus!

verus! {

fn tag_matches(data: &[u8], at: usize, a: u8, b: u8, c: u8, d: u8) -> (r: bool)
    requires
        fits(data@, at as int, 4),
    ensures
        r == crate::zipatch_layout::tag_is(data@, at as int, a, b, c, d),
{
    let len = data.len();
    data[at] == a && data[at + 1] == b && data[at + 2] == c && data[at + 3] == d
}

impl ZiPatchParser {
    fn read_body(data: &[u8], offset: usize) -> (r: Result<(ZiPatchChunk, usize), Error>)
        requires
            fits(data@, offset as int, 8),
        ensures
            body_read(r, data@, offset as int),
            r matches Ok(p) ==> offset + 8 <= p.1 <= data@.len(),
    {
        let len = data.len();
        let t = offset + 4;
        if tag_matches(data, t, 0x46, 0x48, 0x44, 0x52) {
            Self::parse_file_header(data, offset)
        } else if tag_matches(data, t, 0x41, 0x50, 0x4C, 0x59) {
            Self::parse_apply_option(data, offset)
        } else if tag_matches(data, t, 0x41, 0x44, 0x49, 0x52) {
            Self::parse_add_directory(data, offset)
        } else if tag_matches(data, t, 0x44, 0x45, 0x4C, 0x44) {
            Self::parse_delete_directory(data, offset)
        } else if tag_matches(data, t, 0x41, 0x50, 0x46, 0x53) {
            Self::parse_apply_free_space(data, offset)
        } else if tag_matches(data, t, 0x53, 0x51, 0x50, 0x4B) {
            Self::parse_sqpk_chunk(data, offset)
        } else if tag_matches(data, t, 0x45, 0x4F, 0x46, 0x5F) {
            Ok((ZiPatchChunk::EndOfFile, offset + 8))
        } else {
            let chunk_type = read_fixed_text(&data[offset + 4..offset + 8]);
            let size = u32_at(data, offset);
            Ok((ZiPatchChunk::Unknown { chunk_type, offset: offset as u64, size }, offset + 8))
        }
    }

    /// Reads the chunk that begins at `offset`, and tells where the next
    /// chunk begins.
    pub fn read_chunk(&self, data: &[u8], offset: usize) -> (r: Result<
        (ZiPatchChunk, usize),
        Error,
    >)
        ensures
            match chunk_outcome(data@, offset as int, self.verify_checksums) {
                ChunkOutcome::Truncated => r matches Err(e) && is_truncated(e),
                ChunkOutcome::BadChecksum => r matches Err(
                    Error::ZiPatchChecksumMismatch { offset: o },
                ) && o == offset,
                ChunkOutcome::Good { next } => r matches Ok(p) && p.1 == next && chunk_is(
                    p.0,
                    data@,
                    offset as int,
                ) && p.1 >= offset + 12,
            },
    {
        let len = data.len();
        if !has_bytes(data, offset, 8) {
            return Err(truncated());
        }
        let size = u32_at(data, offset);
        let (chunk, body) = match Self::read_body(data, offset) {
            Ok(x) => x,
            Err(e) => {
                return Err(e);
            },
        };
        let start = offset + 8;
        if size as u64 > (len - start) as u64 {
            return Err(truncated());
        }
        let declared = start + size as usize;
        let end = if body > declared {
            body
        } else {
            declared
        };
        assert(end == payload_end(data@, offset as int));
        if !has_bytes(data, end, 4) {
            return Err(truncated());
        }
        let stored = u32_at(data, end);
        if self.verify_checksums {
            let computed = crc32(&data[offset + 4..end]);
            if computed != stored {
                return Err(Error::ZiPatchChecksumMismatch { offset: offset as u64 });
            }
        }
        Ok((chunk, end + 4))
    }

    /// Reads a patch file: all its chunks, up to and with the chunk that
    /// ends the file. What follows that chunk is not looked at.
    pub fn parse_patch(&self, data: &[u8]) -> (r: Result<Vec<ZiPatchChunk>, Error>)
        ensures
            match r {
                Ok(chunks) => chunks_are(chunks@, data@, self.verify_checksums),
                Err(e) => failure_is(e, data@, self.verify_checksums),
            },
    {
        match Self::read_magic_header(data) {
            Ok(()) => {},
            Err(e) => {
                return Err(e);
            },
        }
        let ghost verify = self.verify_checksums;
        let mut chunks: Vec<ZiPatchChunk> = Vec::new();
        let mut pos: usize = 12;
        loop
            invariant
                has_magic(data@),
                verify == self.verify_checksums,
                pos <= data.len(),
                nth_offset(data@, verify, chunks@.len()) == Some(pos as int),
                forall|j: int|
                    0 <= j < chunks@.len() ==> {
                        &&& (#[trigger] nth_offset(data@, verify, j as nat)) matches Some(o)
                        &&& chunk_outcome(data@, o, verify) is Good
                        &&& chunk_is(chunks@[j], data@, o)
                        &&& !(chunks@[j] is EndOfFile)
                    },
            decreases data.len() - pos,
        {
            let ghost n = chunks@.len();
            let (chunk, next) = match self.read_chunk(data, pos) {
                Ok(x) => x,
                Err(e) => {
                    assert(nth_offset(data@, verify, n) matches Some(o) && !(chunk_outcome(
                        data@,
                        o,
                        verify,
                    ) is Good));
                    return Err(e);
                },
            };
            let is_eof = match chunk {
                ZiPatchChunk::EndOfFile => true,
                _ => false,
            };
            assert(is_eof <==> tag_at(data@, pos + 4) is Eof);
            chunks.push(chunk);
            if is_eof {
                return Ok(chunks);
            }
            assert(nth_offset(data@, verify, (n + 1) as nat) == Some(next as int));
            pos = next;
        }
    }
}

} // verus!

verus! {

/// The four bytes of a 32-bit number, most significant first.
pub open spec fn be_bytes(v: u32) -> Seq<u8> {
    seq![
        (v / 0x100_0000) as u8,
        (v / 0x1_0000 % 256) as u8,
        (v / 0x100 % 256) as u8,
        (v % 256) as u8,
    ]
}

/// Reading the bytes of a number gives the number back.
pub proof fn lemma_be_bytes_value(v: u32)
    ensures
        crate::bytes::be_value(be_bytes(v)) == v,
{
    reveal_with_fuel(crate::bytes::be_value, 5);
    let s = be_bytes(v);
    assert(s.drop_last() =~= seq![s[0], s[1], s[2]]);
    assert(s.drop_last().drop_last() =~= seq![s[0], s[1]]);
    assert(s.drop_last().drop_last().drop_last() =~= seq![s[0]]);
    assert(s.drop_last().drop_last().drop_last().drop_last() =~= Seq::<u8>::empty());
}

fn push_be(out: &mut Vec<u8>, v: u32)
    ensures
        final(out)@ == old(out)@ + be_bytes(v),
{
    out.push((v / 0x100_0000) as u8);
    out.push((v / 0x1_0000 % 256) as u8);
    out.push((v / 0x100 % 256) as u8);
    out.push((v % 256) as u8);
    assert(out@ =~= old(out)@ + be_bytes(v));
}

/// The bytes of a chunk with the given type and payload: size, type,
/// payload, and the checksum of type and payload.
pub open spec fn chunk_bytes(chunk_type: Seq<u8>, payload: Seq<u8>) -> Seq<u8> {
    be_bytes(payload.len() as u32) + chunk_type + payload + be_bytes(
        crc32_of(chunk_type + payload),
    )
}

/// Writes a chunk: its size, its type of four bytes, its payload, and the
/// checksum of type and payload.
pub fn build_chunk(chunk_type: &[u8; 4], payload: &[u8]) -> (out: Vec<u8>)
    requires
        payload@.len() <= u32::MAX,
    ensures
        out@ == chunk_bytes(chunk_type@, payload@),
        out@.len() == payload@.len() + 12,
{
    let mut out: Vec<u8> = Vec::new();
    push_be(&mut out, payload.len() as u32);
    out.extend_from_slice(chunk_type.as_slice());
    out.extend_from_slice(payload);
    let mut covered: Vec<u8> = Vec::new();
    covered.extend_from_slice(chunk_type.as_slice());
    covered.extend_from_slice(payload);
    assert(covered@ =~= chunk_type@ + payload@);
    let sum = crc32(covered.as_slice());
    push_be(&mut out, sum);
    assert(out@ =~= chunk_bytes(chunk_type@, payload@));
    out
}

/// A chunk that was written reads back sound: where its fields fit into
/// its payload, the stored checksum is the checksum of type and payload,
/// and the next chunk begins right after it.
pub proof fn lemma_written_chunk_is_sound(chunk_type: Seq<u8>, payload: Seq<u8>)
    requires
        chunk_type.len() == 4,
        payload.len() <= u32::MAX,
        body_end(chunk_bytes(chunk_type, payload), 0) matches Some(end) && end <= 8 + payload.len(),
    ensures
        chunk_outcome(chunk_bytes(chunk_type, payload), 0, true) == (ChunkOutcome::Good {
            next: payload.len() as int + 12,
        }),
{
    let data = chunk_bytes(chunk_type, payload);
    let n = payload.len() as int;
    lemma_be_bytes_value(payload.len() as u32);
    lemma_be_bytes_value(crc32_of(chunk_type + payload));
    assert(data.subrange(0, 4) =~= be_bytes(payload.len() as u32));
    assert(be_at(data, 0, 4) == payload.len());
    assert(payload_end(data, 0) == 8 + n);
    assert(data.subrange(8 + n, 12 + n) =~= be_bytes(crc32_of(chunk_type + payload)));
    assert(data.subrange(4, 8 + n) =~= chunk_type + payload);
}

} // verus!
