//! The chunks of a ZiPatch file.
//!
//! A patch file is a magic header of 12 bytes and a row of chunks, each a
//! size, a type of four characters, a payload and a CRC-32, closed by a
//! chunk of type `EOF_`.

use vstd::prelude::*;
use vstd::std_specs::convert::FromSpecImpl;
use crate::numbers::{append_decimal, append_hexadecimal, decimal, hexadecimal, padded};
use crate::text::{append_str, chars_of, string_of};

verus! {

/// The 12 bytes every patch file begins with.
pub const ZIPATCH_MAGIC: [u8; 12] = [
    0x91,
    0x5A,
    0x49,
    0x50,
    0x41,
    0x54,
    0x43,
    0x48,
    0x0D,
    0x0A,
    0x1A,
    0x0A,
];

/// The platform a patch is for.
#[derive(Debug, Clone, Copy, PartialEq, Eq, Structural)]
pub enum Platform {
    Win32,
    Ps3,
    Ps4,
}

impl Platform {
    pub open spec fn display_text(self) -> Seq<char> {
        match self {
            Platform::Win32 => "win32"@,
            Platform::Ps3 => "ps3"@,
            Platform::Ps4 => "ps4"@,
        }
    }

    pub fn as_str(&self) -> (s: &'static str)
        ensures
            s@ == self.display_text(),
    {
        match self {
            Platform::Win32 => "win32",
            Platform::Ps3 => "ps3",
            Platform::Ps4 => "ps4",
        }
    }

    pub fn to_string(&self) -> (s: String)
        ensures
            s@ == self.display_text(),
    {
        String::from_str(self.as_str())
    }

    /// The platform a byte of a patch names; unknown bytes mean Win32.
    pub open spec fn of_byte(b: u8) -> Platform {
        if b == 1 {
            Platform::Ps3
        } else if b == 2 {
            Platform::Ps4
        } else {
            Platform::Win32
        }
    }

    pub fn from_byte(b: u8) -> (p: Platform)
        ensures
            p == Platform::of_byte(b),
    {
        if b == 1 {
            Platform::Ps3
        } else if b == 2 {
            Platform::Ps4
        } else {
            Platform::Win32
        }
    }
}

impl Default for Platform {
    fn default() -> (p: Self)
        ensures
            p == Platform::Win32,
    {
        Platform::Win32
    }
}

/// FHDR: the header of the patch.
#[derive(Debug, Clone)]
pub struct FileHeaderChunk {
    pub version: u16,
    /// `DIFF` or `HIST`.
    pub patch_type: String,
    pub entry_files: u32,
    /// Where in the file the chunk begins.
    pub offset: u64,
}

/// An option of APLY.
#[derive(Debug, Clone, Copy, PartialEq, Eq, Structural)]
pub enum ApplyOption {
    IgnoreMissing,
    IgnoreOldMismatch,
    Unknown(u32),
}

impl ApplyOption {
    pub open spec fn of_code(value: u32) -> ApplyOption {
        if value == 1 {
            ApplyOption::IgnoreMissing
        } else if value == 2 {
            ApplyOption::IgnoreOldMismatch
        } else {
            ApplyOption::Unknown(value)
        }
    }
}

impl From<u32> for ApplyOption {
    fn from(value: u32) -> (r: Self) {
        if value == 1 {
            ApplyOption::IgnoreMissing
        } else if value == 2 {
            ApplyOption::IgnoreOldMismatch
        } else {
            ApplyOption::Unknown(value)
        }
    }
}

impl FromSpecImpl<u32> for ApplyOption {
    open spec fn obeys_from_spec() -> bool {
        true
    }

    open spec fn from_spec(value: u32) -> Self {
        ApplyOption::of_code(value)
    }
}

/// APLY: an option for applying the patch.
#[derive(Debug, Clone)]
pub struct ApplyOptionChunk {
    pub option: ApplyOption,
    pub value: u32,
    pub offset: u64,
}

/// ADIR: a directory to create under the game root.
#[derive(Debug, Clone)]
pub struct AddDirectoryChunk {
    pub path: String,
    pub offset: u64,
}

/// DELD: a directory to delete under the game root, with all it holds.
#[derive(Debug, Clone)]
pub struct DeleteDirectoryChunk {
    pub path: String,
    pub offset: u64,
}

/// APFS: free space to set aside. Kept for the record; nothing is done.
#[derive(Debug, Clone)]
pub struct ApplyFreeSpaceChunk {
    pub alloc_size: u64,
    pub offset: u64,
}

/// The SqPack file a command works on.
#[derive(Debug, Clone, Copy, PartialEq, Eq, Structural)]
pub struct SqpackFileTarget {
    pub main_id: u16,
    pub sub_id: u16,
    pub file_id: u32,
}

/// Which of the two index files.
#[derive(Debug, Clone, Copy, PartialEq, Eq, Structural)]
pub enum IndexType {
    Index,
    Index2,
}

impl SqpackFileTarget {
    /// The expansion: the high byte of the sub id.
    pub open spec fn expansion(self) -> u8 {
        (self.sub_id / 256) as u8
    }

    /// The folder of the expansion; unknown expansions use the base game's.
    pub open spec fn folder_text(self) -> Seq<char> {
        let e = self.expansion();
        if e == 1 {
            "ex1"@
        } else if e == 2 {
            "ex2"@
        } else if e == 3 {
            "ex3"@
        } else if e == 4 {
            "ex4"@
        } else if e == 5 {
            "ex5"@
        } else {
            "ffxiv"@
        }
    }

    /// The name all files of this target begin with: main id and sub id in
    /// hexadecimal, at least 2 and 4 digits.
    pub open spec fn stem_text(self) -> Seq<char> {
        padded(hexadecimal(self.main_id as nat), 2, '0') + padded(
            hexadecimal(self.sub_id as nat),
            4,
            '0',
        )
    }

    pub open spec fn dat_path_text(self, platform: Platform) -> Seq<char> {
        "sqpack/"@ + self.folder_text() + "/"@ + self.stem_text() + "."@ + platform.display_text()
            + ".dat"@ + decimal(self.file_id as nat)
    }

    pub open spec fn index_path_text(self, platform: Platform, index_type: IndexType) -> Seq<char> {
        "sqpack/"@ + self.folder_text() + "/"@ + self.stem_text() + "."@ + platform.display_text()
            + "."@ + (match index_type {
            IndexType::Index => "index"@,
            IndexType::Index2 => "index2"@,
        })
    }

    pub open spec fn display_text(self) -> Seq<char> {
        self.stem_text() + ".dat"@ + decimal(self.file_id as nat)
    }

    pub fn expansion_id(&self) -> (e: u8)
        ensures
            e == self.expansion(),
    {
        (self.sub_id / 256) as u8
    }

    pub fn expansion_folder(&self) -> (s: &'static str)
        ensures
            s@ == self.folder_text(),
    {
        match self.expansion_id() {
            1 => "ex1",
            2 => "ex2",
            3 => "ex3",
            4 => "ex4",
            5 => "ex5",
            _ => "ffxiv",
        }
    }

    fn append_stem(&self, out: &mut Vec<char>)
        ensures
            final(out)@ == old(out)@ + self.stem_text(),
    {
        append_hexadecimal(out, self.main_id as u64, 2);
        append_hexadecimal(out, self.sub_id as u64, 4);
        assert(out@ =~= old(out)@ + self.stem_text());
    }

    /// Place of the data file of this target, relative to the game folder.
    pub fn dat_path(&self, platform: Platform) -> (s: String)
        ensures
            s@ == self.dat_path_text(platform),
    {
        let mut out = chars_of("sqpack/");
        append_str(&mut out, self.expansion_folder());
        append_str(&mut out, "/");
        self.append_stem(&mut out);
        append_str(&mut out, ".");
        append_str(&mut out, platform.as_str());
        append_str(&mut out, ".dat");
        append_decimal(&mut out, self.file_id as u64, 0);
        assert(out@ =~= self.dat_path_text(platform));
        string_of(out.as_slice())
    }

    /// Place of an index file of this target, relative to the game folder.
    pub fn index_path(&self, platform: Platform, index_type: IndexType) -> (s: String)
        ensures
            s@ == self.index_path_text(platform, index_type),
    {
        let mut out = chars_of("sqpack/");
        append_str(&mut out, self.expansion_folder());
        append_str(&mut out, "/");
        self.append_stem(&mut out);
        append_str(&mut out, ".");
        append_str(&mut out, platform.as_str());
        append_str(&mut out, ".");
        match index_type {
            IndexType::Index => {
                append_str(&mut out, "index");
            },
            IndexType::Index2 => {
                append_str(&mut out, "index2");
            },
        }
        assert(out@ =~= self.index_path_text(platform, index_type));
        string_of(out.as_slice())
    }

    pub fn to_string(&self) -> (s: String)
        ensures
            s@ == self.display_text(),
    {
        let mut out: Vec<char> = Vec::new();
        self.append_stem(&mut out);
        append_str(&mut out, ".dat");
        append_decimal(&mut out, self.file_id as u64, 0);
        assert(out@ =~= self.display_text());
        string_of(out.as_slice())
    }
}

/// SQPK `A`: data to write into a data file.
#[derive(Debug, Clone)]
pub struct SqpkAddData {
    pub target_file: SqpackFileTarget,
    /// Where to write, in bytes.
    pub block_offset: u64,
    /// How many bytes to write.
    pub block_number: u64,
    /// How many bytes to clear after what was written.
    pub block_delete_number: u64,
    pub block_data: Vec<u8>,
    /// Where in the patch file the data stands.
    pub data_source_offset: u64,
    pub offset: u64,
}

/// SQPK `D`: a range of a data file to clear.
#[derive(Debug, Clone)]
pub struct SqpkDeleteData {
    pub target_file: SqpackFileTarget,
    pub block_offset: u64,
    pub block_number: u64,
    pub offset: u64,
}

/// SQPK `E`: a range by which a data file grows.
#[derive(Debug, Clone)]
pub struct SqpkExpandData {
    pub target_file: SqpackFileTarget,
    pub block_offset: u64,
    pub block_number: u64,
    pub offset: u64,
}

/// The kind of file a header belongs to.
#[derive(Debug, Clone, Copy, PartialEq, Eq, Structural)]
pub enum SqpkFileKind {
    Dat,
    Index,
    Unknown(u8),
}

impl SqpkFileKind {
    pub open spec fn of_byte(value: u8) -> SqpkFileKind {
        if value == 0x44 {
            SqpkFileKind::Dat
        } else if value == 0x49 {
            SqpkFileKind::Index
        } else {
            SqpkFileKind::Unknown(value)
        }
    }
}

impl From<u8> for SqpkFileKind {
    fn from(value: u8) -> (r: Self) {
        if value == 0x44 {
            SqpkFileKind::Dat
        } else if value == 0x49 {
            SqpkFileKind::Index
        } else {
            SqpkFileKind::Unknown(value)
        }
    }
}

impl FromSpecImpl<u8> for SqpkFileKind {
    open spec fn obeys_from_spec() -> bool {
        true
    }

    open spec fn from_spec(value: u8) -> Self {
        SqpkFileKind::of_byte(value)
    }
}

/// Which header of a file is rewritten.
#[derive(Debug, Clone, Copy, PartialEq, Eq, Structural)]
pub enum SqpkHeaderKind {
    Version,
    Index,
    Data,
    Unknown(u8),
}

impl SqpkHeaderKind {
    pub open spec fn of_byte(value: u8) -> SqpkHeaderKind {
        if value == 0x56 {
            SqpkHeaderKind::Version
        } else if value == 0x49 {
            SqpkHeaderKind::Index
        } else if value == 0x44 {
            SqpkHeaderKind::Data
        } else {
            SqpkHeaderKind::Unknown(value)
        }
    }
}

impl From<u8> for SqpkHeaderKind {
    fn from(value: u8) -> (r: Self) {
        if value == 0x56 {
            SqpkHeaderKind::Version
        } else if value == 0x49 {
            SqpkHeaderKind::Index
        } else if value == 0x44 {
            SqpkHeaderKind::Data
        } else {
            SqpkHeaderKind::Unknown(value)
        }
    }
}

impl FromSpecImpl<u8> for SqpkHeaderKind {
    open spec fn obeys_from_spec() -> bool {
        true
    }

    open spec fn from_spec(value: u8) -> Self {
        SqpkHeaderKind::of_byte(value)
    }
}

/// SQPK `H`: a header to rewrite.
#[derive(Debug, Clone)]
pub struct SqpkHeader {
    pub file_kind: SqpkFileKind,
    pub header_kind: SqpkHeaderKind,
    pub target_file: SqpackFileTarget,
    pub header_data: Vec<u8>,
    pub offset: u64,
}

/// One entry of an index.
#[derive(Debug, Clone, Copy, PartialEq, Eq, Structural)]
pub struct SqpkIndexData {
    pub file_hash: u64,
    pub block_offset: u32,
    pub block_number: u32,
}

/// SQPK `I`: entries of an index to add or replace.
#[derive(Debug, Clone)]
pub struct SqpkIndex {
    pub index_type: IndexType,
    pub is_synonym: bool,
    pub target_file: SqpackFileTarget,
    pub index_data: Vec<SqpkIndexData>,
    pub offset: u64,
}

/// What a file command does.
#[derive(Debug, Clone, Copy, PartialEq, Eq, Structural)]
pub enum SqpkFileOperation {
    AddFile,
    RemoveAll,
    DeleteFile,
    MakeDir,
    Unknown(u8),
}

impl SqpkFileOperation {
    pub open spec fn of_byte(value: u8) -> SqpkFileOperation {
        if value == 0x41 {
            SqpkFileOperation::AddFile
        } else if value == 0x52 {
            SqpkFileOperation::RemoveAll
        } else if value == 0x44 {
            SqpkFileOperation::DeleteFile
        } else if value == 0x4D {
            SqpkFileOperation::MakeDir
        } else {
            SqpkFileOperation::Unknown(value)
        }
    }
}

impl From<u8> for SqpkFileOperation {
    fn from(value: u8) -> (r: Self) {
        if value == 0x41 {
            SqpkFileOperation::AddFile
        } else if value == 0x52 {
            SqpkFileOperation::RemoveAll
        } else if value == 0x44 {
            SqpkFileOperation::DeleteFile
        } else if value == 0x4D {
            SqpkFileOperation::MakeDir
        } else {
            SqpkFileOperation::Unknown(value)
        }
    }
}

impl FromSpecImpl<u8> for SqpkFileOperation {
    open spec fn obeys_from_spec() -> bool {
        true
    }

    open spec fn from_spec(value: u8) -> Self {
        SqpkFileOperation::of_byte(value)
    }
}

/// SQPK `F`: a file or directory to add or remove.
#[derive(Debug, Clone)]
pub struct SqpkFile {
    pub operation: SqpkFileOperation,
    pub expansion_id: u8,
    pub file_path: String,
    pub file_data: Vec<u8>,
    pub offset: u64,
}

/// SQPK `X`: facts about the patch.
#[derive(Debug, Clone)]
pub struct SqpkPatchInfo {
    pub status: u8,
    pub version: u8,
    pub install_size: u64,
    pub offset: u64,
}

/// SQPK `T`: what the patch is for.
#[derive(Debug, Clone)]
pub struct SqpkTargetInfo {
    pub platform: Platform,
    pub region: u16,
    pub is_debug: bool,
    pub version: u16,
    pub deleted_data_size: u64,
    pub seek_count: u64,
    pub offset: u64,
}

/// An SQPK chunk: one command on the SqPack files.
#[derive(Debug, Clone)]
pub enum SqpkChunk {
    AddData(SqpkAddData),
    DeleteData(SqpkDeleteData),
    ExpandData(SqpkExpandData),
    Header(SqpkHeader),
    Index(SqpkIndex),
    File(SqpkFile),
    PatchInfo(SqpkPatchInfo),
    TargetInfo(SqpkTargetInfo),
    /// A command this version does not know; kept and passed over.
    Unknown { command: String, offset: u64 },
}

impl SqpkChunk {
    /// The letter of the command.
    pub open spec fn command_text(self) -> Seq<char> {
        match self {
            SqpkChunk::AddData(_) => "A"@,
            SqpkChunk::DeleteData(_) => "D"@,
            SqpkChunk::ExpandData(_) => "E"@,
            SqpkChunk::Header(_) => "H"@,
            SqpkChunk::Index(_) => "I"@,
            SqpkChunk::File(_) => "F"@,
            SqpkChunk::PatchInfo(_) => "X"@,
            SqpkChunk::TargetInfo(_) => "T"@,
            SqpkChunk::Unknown { command, .. } => command@,
        }
    }

    pub fn command(&self) -> (s: &str)
        ensures
            s@ == self.command_text(),
    {
        match self {
            SqpkChunk::AddData(_) => "A",
            SqpkChunk::DeleteData(_) => "D",
            SqpkChunk::ExpandData(_) => "E",
            SqpkChunk::Header(_) => "H",
            SqpkChunk::Index(_) => "I",
            SqpkChunk::File(_) => "F",
            SqpkChunk::PatchInfo(_) => "X",
            SqpkChunk::TargetInfo(_) => "T",
            SqpkChunk::Unknown { command, .. } => command.as_str(),
        }
    }
}

/// One chunk of a patch file.
#[derive(Debug, Clone)]
pub enum ZiPatchChunk {
    FileHeader(FileHeaderChunk),
    ApplyOption(ApplyOptionChunk),
    AddDirectory(AddDirectoryChunk),
    DeleteDirectory(DeleteDirectoryChunk),
    ApplyFreeSpace(ApplyFreeSpaceChunk),
    Sqpk(SqpkChunk),
    EndOfFile,
    /// A chunk type this version does not know; kept and passed over.
    Unknown { chunk_type: String, offset: u64, size: u32 },
}

impl ZiPatchChunk {
    /// The four characters of the chunk's type.
    pub open spec fn type_text(self) -> Seq<char> {
        match self {
            ZiPatchChunk::FileHeader(_) => "FHDR"@,
            ZiPatchChunk::ApplyOption(_) => "APLY"@,
            ZiPatchChunk::AddDirectory(_) => "ADIR"@,
            ZiPatchChunk::DeleteDirectory(_) => "DELD"@,
            ZiPatchChunk::ApplyFreeSpace(_) => "APFS"@,
            ZiPatchChunk::Sqpk(_) => "SQPK"@,
            ZiPatchChunk::EndOfFile => "EOF_"@,
            ZiPatchChunk::Unknown { chunk_type, .. } => chunk_type@,
        }
    }

    pub fn chunk_type(&self) -> (s: &str)
        ensures
            s@ == self.type_text(),
    {
        match self {
            ZiPatchChunk::FileHeader(_) => "FHDR",
            ZiPatchChunk::ApplyOption(_) => "APLY",
            ZiPatchChunk::AddDirectory(_) => "ADIR",
            ZiPatchChunk::DeleteDirectory(_) => "DELD",
            ZiPatchChunk::ApplyFreeSpace(_) => "APFS",
            ZiPatchChunk::Sqpk(_) => "SQPK",
            ZiPatchChunk::EndOfFile => "EOF_",
            ZiPatchChunk::Unknown { chunk_type, .. } => chunk_type.as_str(),
        }
    }
}

} // verus!
