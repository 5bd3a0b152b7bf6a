//! Applying a patch: what each chunk asks to be done to the installation.
//!
//! The paths of a patch come from outside and are not trusted: one that
//! names a parent directory fails the patch before anything is done.

use vstd::prelude::*;
use crate::error::Error;
use crate::search::{contains, contains_str};
use crate::text::{
    chars_of, concat2, join_path, joined, replace_char, replaced, skip_while, strip_leading,
};
use crate::zipatch::{
    ApplyOption, IndexType, Platform, SqpackFileTarget, SqpkChunk, SqpkFileKind, SqpkFileOperation,
    SqpkIndexData, ZiPatchChunk,
};

verus! {

/// One change to the installation.
#[derive(Debug, Clone)]
pub enum PatchOp {
    /// Create the directory and the directories above it.
    CreateDir { path: String },
    /// Delete the directory with all it holds; nothing to do where it is
    /// not there.
    RemoveDir { path: String },
    /// Write `data` at `offset`, then clear `clear_after` bytes behind it.
    WriteBlock { file: String, offset: u64, data: Vec<u8>, clear_after: u64 },
    /// Fill `length` bytes from `offset` with zeros.
    ClearBlock { file: String, offset: u64, length: u64 },
    /// Grow the file so that it holds `length` bytes from `offset`.
    ExpandFile { file: String, offset: u64, length: u64 },
    /// Write `data` at the start of the file.
    WriteHeader { file: String, data: Vec<u8> },
    /// Add the entries to the index, replacing those with the same hash.
    UpdateIndex { file: String, entries: Vec<SqpkIndexData>, is_synonym: bool },
    /// Write the file anew with `data`.
    WriteFile { file: String, data: Vec<u8> },
    /// Delete the file; nothing to do where it is not there.
    RemoveFile { file: String },
    /// Delete the files of the expansion.
    RemoveExpansionFiles { expansion_id: u8 },
}

/// What the chunks read so far have set.
#[derive(Debug, Clone, Copy, PartialEq, Eq, Structural)]
pub struct ApplyState {
    pub platform: Platform,
    pub ignore_missing: bool,
    pub ignore_old_mismatch: bool,
}

/// A path of a patch in host form: backslashes turned into slashes, the
/// leading slashes removed.
pub open spec fn patch_relative(raw: Seq<char>) -> Seq<char> {
    skip_while(replace_char(raw, '\\', '/'), |c: char| c == '/')
}

/// Whether a path of a patch names a parent directory.
pub open spec fn leaves_root(raw: Seq<char>) -> bool {
    contains(patch_relative(raw), ".."@)
}

/// The place on the host that a path of a patch names, under `game_path`.
/// A path that names a parent directory is refused.
pub fn safe_path(game_path: &str, raw: &str) -> (r: Result<String, Error>)
    ensures
        leaves_root(raw@) ==> (r matches Err(Error::ZiPatchApply(m)) && m@
            == "path leaves the game directory: "@ + raw@),
        !leaves_root(raw@) ==> (r matches Ok(p) && p@ == join_path(
            game_path@,
            patch_relative(raw@),
        )),
{
    let v = chars_of(raw);
    let slashed = replaced(v.as_slice(), '\\', '/');
    let relative = strip_leading(slashed.as_slice(), '/');
    if contains_str(relative.as_slice(), "..") {
        return Err(Error::ZiPatchApply(concat2("path leaves the game directory: ", raw)));
    }
    Ok(joined(game_path, relative.as_slice()))
}

/// A path that `safe_path` accepts lies under the game root: it begins with
/// the root, and what follows the root names no parent directory.
pub proof fn lemma_safe_path_stays_under_root(root: Seq<char>, raw: Seq<char>)
    requires
        !leaves_root(raw),
    ensures
        ({
            let p = join_path(root, patch_relative(raw));
            &&& crate::search::starts_with(p, root)
            &&& !contains(p.skip(root.len() as int), ".."@)
        }),
{
    crate::search::lemma_join_stays_under(root, patch_relative(raw));
}

/// The place of a SqPack file under the game root.
pub open spec fn sqpack_path(root: Seq<char>, relative: Seq<char>) -> Seq<char> {
    join_path(root, "game/"@ + relative)
}

fn sqpack_file(game_path: &str, relative: &str) -> (p: String)
    ensures
        p@ == sqpack_path(game_path@, relative@),
{
    let mut rel = chars_of("game/");
    crate::text::append_str(&mut rel, relative);
    joined(game_path, rel.as_slice())
}

/// The file a header command rewrites: a data file or an index file.
pub open spec fn header_file(root: Seq<char>, kind: SqpkFileKind, target: SqpackFileTarget, platform: Platform) -> Seq<char> {
    match kind {
        SqpkFileKind::Index => sqpack_path(
            root,
            target.index_path_text(platform, IndexType::Index),
        ),
        _ => sqpack_path(root, target.dat_path_text(platform)),
    }
}

/// Whether `ops` is what the SQPK command `c` asks for.
pub open spec fn sqpk_ops_are(ops: Seq<PatchOp>, c: SqpkChunk, platform: Platform, root: Seq<char>) -> bool {
    match c {
        SqpkChunk::AddData(a) => ops.len() == 1 && (ops[0] matches PatchOp::WriteBlock {
            file,
            offset,
            data,
            clear_after,
        } && file@ == sqpack_path(root, a.target_file.dat_path_text(platform)) && offset
            == a.block_offset && data@ == a.block_data@ && clear_after == a.block_delete_number),
        SqpkChunk::DeleteData(d) => ops.len() == 1 && (ops[0] matches PatchOp::ClearBlock {
            file,
            offset,
            length,
        } && file@ == sqpack_path(root, d.target_file.dat_path_text(platform)) && offset
            == d.block_offset && length == d.block_number),
        SqpkChunk::ExpandData(d) => ops.len() == 1 && (ops[0] matches PatchOp::ExpandFile {
            file,
            offset,
            length,
        } && file@ == sqpack_path(root, d.target_file.dat_path_text(platform)) && offset
            == d.block_offset && length == d.block_number),
        SqpkChunk::Header(h) => ops.len() == 1 && (ops[0] matches PatchOp::WriteHeader {
            file,
            data,
        } && file@ == header_file(root, h.file_kind, h.target_file, platform) && data@
            == h.header_data@),
        SqpkChunk::Index(x) => ops.len() == 1 && (ops[0] matches PatchOp::UpdateIndex {
            file,
            entries,
            is_synonym,
        } && file@ == sqpack_path(root, x.target_file.index_path_text(platform, x.index_type))
            && entries@ == x.index_data@ && is_synonym == x.is_synonym),
        SqpkChunk::File(f) => match f.operation {
            SqpkFileOperation::AddFile => ops.len() == 1 && (ops[0] matches PatchOp::WriteFile {
                file,
                data,
            } && file@ == join_path(root, patch_relative(f.file_path@)) && data@ == f.file_data@),
            SqpkFileOperation::DeleteFile => ops.len() == 1 && (
            ops[0] matches PatchOp::RemoveFile { file } && file@ == join_path(
                root,
                patch_relative(f.file_path@),
            )),
            SqpkFileOperation::MakeDir => ops.len() == 1 && (
            ops[0] matches PatchOp::CreateDir { path } && path@ == join_path(
                root,
                patch_relative(f.file_path@),
            )),
            SqpkFileOperation::RemoveAll => ops.len() == 1 && (
            ops[0] matches PatchOp::RemoveExpansionFiles { expansion_id } && expansion_id
                == f.expansion_id),
            SqpkFileOperation::Unknown(_) => ops.len() == 0,
        },
        _ => ops.len() == 0,
    }
}

/// Whether the chunk carries a path that names a parent directory.
pub open spec fn chunk_leaves_root(chunk: ZiPatchChunk) -> bool {
    match chunk {
        ZiPatchChunk::AddDirectory(d) => leaves_root(d.path@),
        ZiPatchChunk::DeleteDirectory(d) => leaves_root(d.path@),
        ZiPatchChunk::Sqpk(SqpkChunk::File(f)) => match f.operation {
            SqpkFileOperation::AddFile => leaves_root(f.file_path@),
            SqpkFileOperation::DeleteFile => leaves_root(f.file_path@),
            SqpkFileOperation::MakeDir => leaves_root(f.file_path@),
            _ => false,
        },
        _ => false,
    }
}

/// The path that a chunk carries, where it carries one that is looked at.
pub open spec fn chunk_path(chunk: ZiPatchChunk) -> Seq<char> {
    match chunk {
        ZiPatchChunk::AddDirectory(d) => d.path@,
        ZiPatchChunk::DeleteDirectory(d) => d.path@,
        ZiPatchChunk::Sqpk(SqpkChunk::File(f)) => f.file_path@,
        _ => Seq::empty(),
    }
}

/// Whether `ops` is what the chunk asks for.
pub open spec fn ops_are(ops: Seq<PatchOp>, chunk: ZiPatchChunk, platform: Platform, root: Seq<char>) -> bool {
    match chunk {
        ZiPatchChunk::AddDirectory(d) => ops.len() == 1 && (ops[0] matches PatchOp::CreateDir {
            path,
        } && path@ == join_path(root, patch_relative(d.path@))),
        ZiPatchChunk::DeleteDirectory(d) => ops.len() == 1 && (
        ops[0] matches PatchOp::RemoveDir { path } && path@ == join_path(
            root,
            patch_relative(d.path@),
        )),
        ZiPatchChunk::Sqpk(c) => sqpk_ops_are(ops, c, platform, root),
        _ => ops.len() == 0,
    }
}

/// The state after a chunk: an option chunk sets its option when its value
/// is not 0, a target chunk sets the platform; other chunks change nothing.
pub open spec fn state_after(state: ApplyState, chunk: ZiPatchChunk) -> ApplyState {
    match chunk {
        ZiPatchChunk::ApplyOption(a) => match a.option {
            ApplyOption::IgnoreMissing => ApplyState { ignore_missing: a.value != 0, ..state },
            ApplyOption::IgnoreOldMismatch => ApplyState {
                ignore_old_mismatch: a.value != 0,
                ..state
            },
            ApplyOption::Unknown(_) => state,
        },
        ZiPatchChunk::Sqpk(SqpkChunk::TargetInfo(t)) => ApplyState { platform: t.platform, ..state },
        _ => state,
    }
}

impl ApplyState {
    /// The state before the first chunk: Win32, no option set.
    pub fn new() -> (s: Self)
        ensures
            s == (ApplyState {
                platform: Platform::Win32,
                ignore_missing: false,
                ignore_old_mismatch: false,
            }),
    {
        ApplyState { platform: Platform::Win32, ignore_missing: false, ignore_old_mismatch: false }
    }

    fn plan_sqpk(&self, game_path: &str, c: &SqpkChunk) -> (r: Result<Vec<PatchOp>, Error>)
        ensures
            chunk_leaves_root(ZiPatchChunk::Sqpk(*c)) ==> (r matches Err(Error::ZiPatchApply(m))
                && m@ == "path leaves the game directory: "@ + chunk_path(ZiPatchChunk::Sqpk(*c))),
            !chunk_leaves_root(ZiPatchChunk::Sqpk(*c)) ==> (r matches Ok(ops) && sqpk_ops_are(
                ops@,
                *c,
                self.platform,
                game_path@,
            )),
    {
        let mut ops: Vec<PatchOp> = Vec::new();
        match c {
            SqpkChunk::AddData(a) => {
                let rel = a.target_file.dat_path(self.platform);
                ops.push(
                    PatchOp::WriteBlock {
                        file: sqpack_file(game_path, rel.as_str()),
                        offset: a.block_offset,
                        data: a.block_data.clone(),
                        clear_after: a.block_delete_number,
                    },
                );
            },
            SqpkChunk::DeleteData(d) => {
                let rel = d.target_file.dat_path(self.platform);
                ops.push(
                    PatchOp::ClearBlock {
                        file: sqpack_file(game_path, rel.as_str()),
                        offset: d.block_offset,
                        length: d.block_number,
                    },
                );
            },
            SqpkChunk::ExpandData(d) => {
                let rel = d.target_file.dat_path(self.platform);
                ops.push(
                    PatchOp::ExpandFile {
                        file: sqpack_file(game_path, rel.as_str()),
                        offset: d.block_offset,
                        length: d.block_number,
                    },
                );
            },
            SqpkChunk::Header(h) => {
                let rel = match h.file_kind {
                    SqpkFileKind::Index => h.target_file.index_path(
                        self.platform,
                        IndexType::Index,
                    ),
                    _ => h.target_file.dat_path(self.platform),
                };
                ops.push(
                    PatchOp::WriteHeader {
                        file: sqpack_file(game_path, rel.as_str()),
                        data: h.header_data.clone(),
                    },
                );
            },
            SqpkChunk::Index(x) => {
                let rel = x.target_file.index_path(self.platform, x.index_type);
                ops.push(
                    PatchOp::UpdateIndex {
                        file: sqpack_file(game_path, rel.as_str()),
                        entries: x.index_data.clone(),
                        is_synonym: x.is_synonym,
                    },
                );
            },
            SqpkChunk::File(f) => match f.operation {
                SqpkFileOperation::AddFile => {
                    let file = safe_path(game_path, f.file_path.as_str())?;
                    ops.push(PatchOp::WriteFile { file, data: f.file_data.clone() });
                },
                SqpkFileOperation::DeleteFile => {
                    let file = safe_path(game_path, f.file_path.as_str())?;
                    ops.push(PatchOp::RemoveFile { file });
                },
                SqpkFileOperation::MakeDir => {
                    let path = safe_path(game_path, f.file_path.as_str())?;
                    ops.push(PatchOp::CreateDir { path });
                },
                SqpkFileOperation::RemoveAll => {
                    ops.push(PatchOp::RemoveExpansionFiles { expansion_id: f.expansion_id });
                },
                SqpkFileOperation::Unknown(_) => {},
            },
            _ => {},
        }
        Ok(ops)
    }

    /// What the chunk asks to be done under `game_path`, and the state
    /// after it. A chunk with a path that names a parent directory fails
    /// and changes nothing.
    pub fn plan_chunk(&mut self, game_path: &str, chunk: &ZiPatchChunk) -> (r: Result<
        Vec<PatchOp>,
        Error,
    >)
        ensures
            chunk_leaves_root(*chunk) ==> (r matches Err(Error::ZiPatchApply(m)) && m@
                == "path leaves the game directory: "@ + chunk_path(*chunk)) && *final(self)
                == *old(self),
            !chunk_leaves_root(*chunk) ==> (r matches Ok(ops) && ops_are(
                ops@,
                *chunk,
                old(self).platform,
                game_path@,
            )) && *final(self) == state_after(*old(self), *chunk),
    {
        let mut ops: Vec<PatchOp> = Vec::new();
        match chunk {
            ZiPatchChunk::ApplyOption(a) => {
                match a.option {
                    ApplyOption::IgnoreMissing => {
                        self.ignore_missing = a.value != 0;
                    },
                    ApplyOption::IgnoreOldMismatch => {
                        self.ignore_old_mismatch = a.value != 0;
                    },
                    ApplyOption::Unknown(_) => {},
                }
                Ok(ops)
            },
            ZiPatchChunk::AddDirectory(d) => {
                let path = safe_path(game_path, d.path.as_str())?;
                ops.push(PatchOp::CreateDir { path });
                Ok(ops)
            },
            ZiPatchChunk::DeleteDirectory(d) => {
                let path = safe_path(game_path, d.path.as_str())?;
                ops.push(PatchOp::RemoveDir { path });
                Ok(ops)
            },
            ZiPatchChunk::Sqpk(c) => {
                let planned = self.plan_sqpk(game_path, c)?;
                if let SqpkChunk::TargetInfo(t) = c {
                    self.platform = t.platform;
                }
                Ok(planned)
            },
            _ => Ok(ops),
        }
    }
}

} // verus!
