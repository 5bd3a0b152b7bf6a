//! Where each field of each chunk stands in a patch file.
//!
//! A chunk at `offset` has its size in bytes `offset..offset+4`, its type
//! in the next four, and its payload from `offset + 8` on. All numbers are
//! written most significant byte first.

use vstd::prelude::*;
use crate::bytes::{as_signed32, be_at, fixed_text, fits, utf8_lossy};
use crate::zipatch::{
    ApplyOption,
    IndexType,
    Platform,
    SqpackFileTarget,
    SqpkChunk,
    SqpkFileKind,
    SqpkFileOperation,
    SqpkHeaderKind,
    SqpkIndexData,
    ZiPatchChunk,
};

verus! {

/// `a - b`, or 0 where `b` is the larger.
pub open spec fn minus(a: nat, b: nat) -> nat {
    if a < b {
        0
    } else {
        (a - b) as nat
    }
}

/// Whether the four bytes at `at` spell the given type.
pub open spec fn tag_is(data: Seq<u8>, at: int, a: u8, b: u8, c: u8, d: u8) -> bool {
    data[at] == a && data[at + 1] == b && data[at + 2] == c && data[at + 3] == d
}

/// The kinds of chunk.
pub enum Tag {
    Fhdr,
    Aply,
    Adir,
    Deld,
    Apfs,
    Sqpk,
    Eof,
    Other,
}

/// The kind of the chunk whose type stands at `at`.
pub open spec fn tag_at(data: Seq<u8>, at: int) -> Tag {
    if tag_is(data, at, 0x46, 0x48, 0x44, 0x52) {
        Tag::Fhdr
    } else if tag_is(data, at, 0x41, 0x50, 0x4C, 0x59) {
        Tag::Aply
    } else if tag_is(data, at, 0x41, 0x44, 0x49, 0x52) {
        Tag::Adir
    } else if tag_is(data, at, 0x44, 0x45, 0x4C, 0x44) {
        Tag::Deld
    } else if tag_is(data, at, 0x41, 0x50, 0x46, 0x53) {
        Tag::Apfs
    } else if tag_is(data, at, 0x53, 0x51, 0x50, 0x4B) {
        Tag::Sqpk
    } else if tag_is(data, at, 0x45, 0x4F, 0x46, 0x5F) {
        Tag::Eof
    } else {
        Tag::Other
    }
}

/// The target of a command: main id, sub id and file id from `at` on.
pub open spec fn target_at(data: Seq<u8>, at: int) -> SqpackFileTarget {
    SqpackFileTarget {
        main_id: be_at(data, at, 2) as u16,
        sub_id: be_at(data, at + 2, 2) as u16,
        file_id: be_at(data, at + 4, 4) as u32,
    }
}

/// A count of blocks of 128 bytes at `at`, in bytes.
pub open spec fn blocks_at(data: Seq<u8>, at: int) -> u64 {
    (be_at(data, at, 4) * 128) as u64
}

/// The size of the data of an SQPK command: the inner size, a signed
/// number widened to 64 bits, less the five bytes of size and command.
pub open spec fn sqpk_data_size(data: Seq<u8>, p: int) -> nat {
    let inner = as_signed32(be_at(data, p, 4));
    let wide: nat = if inner < 0 {
        (inner + 0x1_0000_0000_0000_0000) as nat
    } else {
        inner as nat
    };
    minus(wide, 5)
}

/// Number of data bytes an `A` command carries.
pub open spec fn add_data_len(data: Seq<u8>, q: int, size: nat) -> nat {
    let wanted = blocks_at(data, q + 15) as nat;
    if wanted < minus(size, 23) {
        wanted
    } else {
        minus(size, 23)
    }
}

/// Where the fields of the SQPK command `cmd` end, its data beginning at
/// `q` and being `size` bytes long; nothing where they run past the end of
/// the file.
pub open spec fn sqpk_end(data: Seq<u8>, q: int, cmd: u8, size: nat) -> Option<int> {
    if cmd == 0x41 {
        if fits(data, q, 23) && fits(data, q + 23, add_data_len(data, q, size) as int) {
            Some(q + 23 + add_data_len(data, q, size))
        } else {
            None
        }
    } else if cmd == 0x44 || cmd == 0x45 {
        if fits(data, q, 23) {
            Some(q + 23)
        } else {
            None
        }
    } else if cmd == 0x48 {
        if fits(data, q, 14) && fits(data, q + 14, minus(size, 14) as int) {
            Some(q + 14 + minus(size, 14))
        } else {
            None
        }
    } else if cmd == 0x49 {
        if fits(data, q, 14) && fits(data, q + 14, 16 * (minus(size, 14) as int / 16)) {
            Some(q + 14 + 16 * (minus(size, 14) / 16))
        } else {
            None
        }
    } else if cmd == 0x46 {
        if fits(data, q, 10) && fits(data, q + 10, be_at(data, q + 6, 4) as int) && fits(
            data,
            q + 10 + be_at(data, q + 6, 4),
            minus(size, 10 + be_at(data, q + 6, 4)) as int,
        ) {
            Some(q + 10 + be_at(data, q + 6, 4) + minus(size, 10 + be_at(data, q + 6, 4)))
        } else {
            None
        }
    } else if cmd == 0x58 {
        if fits(data, q, 15) {
            Some(q + 15)
        } else {
            None
        }
    } else if cmd == 0x54 {
        if fits(data, q, 26) {
            Some(q + 26)
        } else {
            None
        }
    } else {
        if fits(data, q, size as int) {
            Some(q + size)
        } else {
            None
        }
    }
}

/// Where the fields of the chunk at `offset` end; nothing where they run
/// past the end of the file.
pub open spec fn body_end(data: Seq<u8>, offset: int) -> Option<int> {
    let size = be_at(data, offset, 4);
    let p = offset + 8;
    match tag_at(data, offset + 4) {
        Tag::Fhdr => if fits(data, p, 12) {
            Some(p + 12)
        } else {
            None
        },
        Tag::Aply => if fits(data, p, 12) {
            Some(p + 12)
        } else {
            None
        },
        Tag::Adir => if fits(data, p, minus(size, 4) as int) {
            Some(p + minus(size, 4))
        } else {
            None
        },
        Tag::Deld => if fits(data, p, minus(size, 4) as int) {
            Some(p + minus(size, 4))
        } else {
            None
        },
        Tag::Apfs => if fits(data, p, 8) {
            Some(p + 8)
        } else {
            None
        },
        Tag::Sqpk => if fits(data, p, 5) {
            sqpk_end(data, p + 5, data[p + 4], sqpk_data_size(data, p))
        } else {
            None
        },
        Tag::Eof => Some(p),
        Tag::Other => Some(p),
    }
}

/// Whether `c` is the SQPK command that stands at `p`, in the chunk that
/// begins at `offset`.
pub open spec fn sqpk_is(c: SqpkChunk, data: Seq<u8>, offset: int) -> bool {
    let p = offset + 8;
    let q = p + 5;
    let cmd = data[p + 4];
    let size = sqpk_data_size(data, p);
    if cmd == 0x41 {
        c matches SqpkChunk::AddData(a) && a.target_file == target_at(data, q + 3)
            && a.block_offset == blocks_at(data, q + 11) && a.block_number == blocks_at(data, q + 15)
            && a.block_delete_number == blocks_at(data, q + 19) && a.block_data@ == data.subrange(
            q + 23,
            q + 23 + add_data_len(data, q, size),
        ) && a.data_source_offset == q + 23 && a.offset == offset
    } else if cmd == 0x44 {
        c matches SqpkChunk::DeleteData(d) && d.target_file == target_at(data, q + 3)
            && d.block_offset == blocks_at(data, q + 11) && d.block_number == blocks_at(data, q + 15)
            && d.offset == offset
    } else if cmd == 0x45 {
        c matches SqpkChunk::ExpandData(d) && d.target_file == target_at(data, q + 3)
            && d.block_offset == blocks_at(data, q + 11) && d.block_number == blocks_at(data, q + 15)
            && d.offset == offset
    } else if cmd == 0x48 {
        c matches SqpkChunk::Header(h) && h.file_kind == SqpkFileKind::of_byte(data[q + 3])
            && h.header_kind == SqpkHeaderKind::of_byte(data[q + 4]) && h.target_file == target_at(
            data,
            q + 6,
        ) && h.header_data@ == data.subrange(q + 14, q + 14 + minus(size, 14)) && h.offset
            == offset
    } else if cmd == 0x49 {
        c matches SqpkChunk::Index(x) && x.index_type == (if data[q + 3] & 0x0F == 0 {
            IndexType::Index
        } else {
            IndexType::Index2
        }) && x.is_synonym == (data[q + 3] & 0x10 != 0) && x.target_file == target_at(data, q + 6)
            && x.index_data@.len() == minus(size, 14) / 16 && (forall|k: int|
            0 <= k < x.index_data@.len() ==> #[trigger] x.index_data@[k] == (SqpkIndexData {
                file_hash: be_at(data, q + 14 + 16 * k, 8) as u64,
                block_offset: be_at(data, q + 14 + 16 * k + 8, 4) as u32,
                block_number: be_at(data, q + 14 + 16 * k + 12, 4) as u32,
            })) && x.offset == offset
    } else if cmd == 0x46 {
        c matches SqpkChunk::File(f) && f.operation == SqpkFileOperation::of_byte(data[q + 3])
            && f.expansion_id == data[q + 5] && f.file_path@ == fixed_text(
            data.subrange(q + 10, q + 10 + be_at(data, q + 6, 4)),
        ) && f.file_data@ == data.subrange(
            q + 10 + be_at(data, q + 6, 4),
            q + 10 + be_at(data, q + 6, 4) + minus(size, 10 + be_at(data, q + 6, 4)),
        ) && f.offset == offset
    } else if cmd == 0x58 {
        c matches SqpkChunk::PatchInfo(x) && x.status == data[q + 3] && x.version == data[q + 4]
            && x.install_size == be_at(data, q + 7, 8) && x.offset == offset
    } else if cmd == 0x54 {
        c matches SqpkChunk::TargetInfo(t) && t.platform == Platform::of_byte(data[q + 3])
            && t.region == be_at(data, q + 4, 2) && t.is_debug == (data[q + 6] != 0) && t.version
            == be_at(data, q + 7, 2) && t.deleted_data_size == be_at(data, q + 10, 8)
            && t.seek_count == be_at(data, q + 18, 8) && t.offset == offset
    } else {
        c matches SqpkChunk::Unknown { command, offset: o } && command@ == utf8_lossy(
            data.subrange(p + 4, p + 5),
        ) && o == offset
    }
}

/// Whether `c` is the chunk that stands at `offset`.
pub open spec fn chunk_is(c: ZiPatchChunk, data: Seq<u8>, offset: int) -> bool {
    let size = be_at(data, offset, 4);
    let p = offset + 8;
    match tag_at(data, offset + 4) {
        Tag::Fhdr => c matches ZiPatchChunk::FileHeader(h) && h.version == be_at(data, p, 2)
            && h.patch_type@ == fixed_text(data.subrange(p + 4, p + 8)) && h.entry_files == be_at(
            data,
            p + 8,
            4,
        ) && h.offset == offset,
        Tag::Aply => c matches ZiPatchChunk::ApplyOption(a) && a.option == ApplyOption::of_code(
            be_at(data, p, 4) as u32,
        ) && a.value == be_at(data, p + 4, 4) && a.offset == offset,
        Tag::Adir => c matches ZiPatchChunk::AddDirectory(d) && d.path@ == fixed_text(
            data.subrange(p, p + minus(size, 4)),
        ) && d.offset == offset,
        Tag::Deld => c matches ZiPatchChunk::DeleteDirectory(d) && d.path@ == fixed_text(
            data.subrange(p, p + minus(size, 4)),
        ) && d.offset == offset,
        Tag::Apfs => c matches ZiPatchChunk::ApplyFreeSpace(a) && a.alloc_size == be_at(
            data,
            p,
            8,
        ) && a.offset == offset,
        Tag::Sqpk => c matches ZiPatchChunk::Sqpk(s) && sqpk_is(s, data, offset),
        Tag::Eof => c is EndOfFile,
        Tag::Other => c matches ZiPatchChunk::Unknown { chunk_type, offset: o, size: s }
            && chunk_type@ == fixed_text(data.subrange(offset + 4, offset + 8)) && o == offset && s
            == size,
    }
}

} // verus!
