//! Checking the installation against a manifest of expected digests, and
//! planning the repair.
//!
//! The paths of a manifest come from outside and are not trusted: one that
//! names a parent directory is dropped before any file is touched.

use vstd::prelude::*;
use crate::entities::{FileIntegrityResult, IntegrityProgress, IntegrityStatus};
use crate::error::Error;
use crate::search::{contains, contains_str, starts_with};
use crate::text::{
    chars_of, concat2, join_path, joined, lowercase_of, remove_spaces, replace_char, replaced,
    skip_while, string_of, strip_leading, to_lowercase, without_spaces,
};

verus! {

/// One line of a manifest: a path in Windows form and the digest expected
/// of the file there.
#[derive(Debug, Clone)]
pub struct ManifestEntry {
    pub path: String,
    pub hash: String,
}

/// Expected digests of the files of one game version.
#[derive(Debug, Clone)]
pub struct IntegrityManifest {
    pub hashes: Vec<ManifestEntry>,
    pub game_version: String,
    pub last_game_version: Option<String>,
}

/// A digest as it is compared: without white space, in lower case.
pub open spec fn normalized_hash(hash: Seq<char>) -> Seq<char> {
    lowercase_of(without_spaces(hash))
}

/// The digest `hash` without white space and in lower case.
pub fn normalize_manifest_hash(hash: &str) -> (r: String)
    ensures
        r@ == normalized_hash(hash@),
{
    let v = chars_of(hash);
    let stripped = remove_spaces(v.as_slice());
    let s = string_of(stripped.as_slice());
    to_lowercase(s.as_str())
}

/// The path of a manifest in host form: leading backslashes removed, the
/// others turned into slashes.
pub open spec fn host_relative(manifest_path: Seq<char>) -> Seq<char> {
    replace_char(skip_while(manifest_path, |c: char| c == '\\'), '\\', '/')
}

/// Whether a manifest path names a parent directory.
pub open spec fn is_traversal(manifest_path: Seq<char>) -> bool {
    contains(host_relative(manifest_path), ".."@)
}

/// The place on the host of a file that a manifest names, under
/// `game_path`. A path that names a parent directory is refused.
pub fn normalize_path(game_path: &str, manifest_path: &str) -> (r: Result<String, Error>)
    ensures
        is_traversal(manifest_path@) ==> (r matches Err(Error::Other(m)) && m@
            == "invalid manifest path (traversal attempt): "@ + manifest_path@),
        !is_traversal(manifest_path@) ==> (r matches Ok(p) && p@ == join_path(
            game_path@,
            host_relative(manifest_path@),
        )),
{
    let v = chars_of(manifest_path);
    let stripped = strip_leading(v.as_slice(), '\\');
    let relative = replaced(stripped.as_slice(), '\\', '/');
    if contains_str(relative.as_slice(), "..") {
        return Err(
            Error::Other(concat2("invalid manifest path (traversal attempt): ", manifest_path)),
        );
    }
    Ok(joined(game_path, relative.as_slice()))
}

/// A path that `normalize_path` accepts lies under the game root: it begins
/// with the root, and what follows the root names no parent directory.
pub proof fn lemma_accepted_path_stays_under_root(root: Seq<char>, manifest_path: Seq<char>)
    requires
        !is_traversal(manifest_path),
    ensures
        ({
            let p = join_path(root, host_relative(manifest_path));
            &&& starts_with(p, root)
            &&& !contains(p.skip(root.len() as int), ".."@)
        }),
{
    crate::search::lemma_join_stays_under(root, host_relative(manifest_path));
}

/// A file to read for the check.
#[derive(Debug, Clone)]
pub struct CheckTarget {
    /// Path as the manifest writes it.
    pub manifest_path: String,
    /// Digest as the manifest writes it.
    pub expected_hash: String,
    /// Place of the file on the host.
    pub host_path: String,
}

/// The characters of a target.
pub struct TargetView {
    pub manifest_path: Seq<char>,
    pub expected_hash: Seq<char>,
    pub host_path: Seq<char>,
}

impl View for CheckTarget {
    type V = TargetView;

    open spec fn view(&self) -> TargetView {
        TargetView {
            manifest_path: self.manifest_path@,
            expected_hash: self.expected_hash@,
            host_path: self.host_path@,
        }
    }
}

/// The files to read for a manifest: one for each entry whose path is
/// accepted, in the order of the entries.
pub open spec fn targets_of(root: Seq<char>, entries: Seq<ManifestEntry>) -> Seq<TargetView>
    decreases entries.len(),
{
    if entries.len() == 0 {
        Seq::empty()
    } else {
        let rest = targets_of(root, entries.drop_last());
        let e = entries.last();
        if is_traversal(e.path@) {
            rest
        } else {
            rest.push(
                TargetView {
                    manifest_path: e.path@,
                    expected_hash: e.hash@,
                    host_path: join_path(root, host_relative(e.path@)),
                },
            )
        }
    }
}

/// The files to read for the check of `manifest` under `game_path`.
/// Entries whose path names a parent directory are left out.
pub fn files_to_check(game_path: &str, manifest: &IntegrityManifest) -> (targets: Vec<
    CheckTarget,
>)
    ensures
        targets@.map_values(|t: CheckTarget| t@) == targets_of(game_path@, manifest.hashes@),
        forall|i: int|
            0 <= i < targets.len() ==> !is_traversal((#[trigger] targets[i]).manifest_path@),
{
    let mut targets: Vec<CheckTarget> = Vec::new();
    let mut i: usize = 0;
    while i < manifest.hashes.len()
        invariant
            i <= manifest.hashes.len(),
            targets@.map_values(|t: CheckTarget| t@) =~= targets_of(
                game_path@,
                manifest.hashes@.take(i as int),
            ),
            forall|k: int|
                0 <= k < targets.len() ==> !is_traversal((#[trigger] targets[k]).manifest_path@),
        decreases manifest.hashes.len() - i,
    {
        let entry = &manifest.hashes[i];
        assert(manifest.hashes@.take(i + 1).drop_last() == manifest.hashes@.take(i as int));
        match normalize_path(game_path, entry.path.as_str()) {
            Ok(host_path) => {
                targets.push(
                    CheckTarget {
                        manifest_path: entry.path.clone(),
                        expected_hash: entry.hash.clone(),
                        host_path,
                    },
                );
            },
            Err(_) => {},
        }
        i += 1;
    }
    assert(manifest.hashes@.take(manifest.hashes.len() as int) == manifest.hashes@);
    targets
}

/// What reading a file gave.
#[derive(Debug, Clone)]
pub enum FileObservation {
    /// There is no such file.
    Missing,
    /// The file is there and cannot be read.
    Unreadable,
    /// The digest of the file's bytes, in hexadecimal.
    Digest(String),
}

/// The status of a file: Valid where the digest read equals the digest
/// expected, both without white space and in lower case.
pub open spec fn status_of(expected: Seq<char>, observed: FileObservation) -> IntegrityStatus {
    match observed {
        FileObservation::Missing => IntegrityStatus::Missing,
        FileObservation::Unreadable => IntegrityStatus::Unreadable,
        FileObservation::Digest(d) => if normalized_hash(d@) == normalized_hash(expected) {
            IntegrityStatus::Valid
        } else {
            IntegrityStatus::Mismatch
        },
    }
}

impl CheckTarget {
    /// The result for this file, given what reading it gave.
    pub fn classify(&self, observed: FileObservation) -> (r: FileIntegrityResult)
        ensures
            r.relative_path@ == self.manifest_path@,
            r.expected_hash@ == normalized_hash(self.expected_hash@),
            r.status == status_of(self.expected_hash@, observed),
            match observed {
                FileObservation::Digest(d) => r.actual_hash matches Some(a) && a@ == d@,
                _ => r.actual_hash is None,
            },
    {
        let expected = normalize_manifest_hash(self.expected_hash.as_str());
        match observed {
            FileObservation::Missing => FileIntegrityResult {
                relative_path: self.manifest_path.clone(),
                expected_hash: expected,
                actual_hash: None,
                status: IntegrityStatus::Missing,
            },
            FileObservation::Unreadable => FileIntegrityResult {
                relative_path: self.manifest_path.clone(),
                expected_hash: expected,
                actual_hash: None,
                status: IntegrityStatus::Unreadable,
            },
            FileObservation::Digest(d) => {
                let actual = normalize_manifest_hash(d.as_str());
                let status = if crate::text::same_str(actual.as_str(), expected.as_str()) {
                    IntegrityStatus::Valid
                } else {
                    IntegrityStatus::Mismatch
                };
                FileIntegrityResult {
                    relative_path: self.manifest_path.clone(),
                    expected_hash: expected,
                    actual_hash: Some(d),
                    status,
                }
            },
        }
    }
}

/// The outcome of a check: its results, unless the check was cancelled.
pub fn finish_check(results: Vec<FileIntegrityResult>, cancelled: bool) -> (r: Result<
    Vec<FileIntegrityResult>,
    Error,
>)
    ensures
        cancelled ==> (r matches Err(Error::Cancelled)),
        !cancelled ==> r == Ok::<Vec<FileIntegrityResult>, Error>(results),
{
    if cancelled {
        Err(Error::Cancelled)
    } else {
        Ok(results)
    }
}

impl IntegrityProgress {
    /// Progress before the first file of a check over `total_files` files
    /// of `total_bytes` bytes.
    pub fn start(total_files: u32, total_bytes: u64) -> (p: Self)
        ensures
            p.files_checked == 0,
            p.bytes_processed == 0,
            p.total_files == total_files,
            p.total_bytes == total_bytes,
            p.current_file@.len() == 0,
    {
        IntegrityProgress {
            current_file: String::new(),
            files_checked: 0,
            total_files,
            bytes_processed: 0,
            total_bytes,
        }
    }

    /// Progress after one more file of `size` bytes. The counters wrap
    /// around at their width.
    pub fn advance(&self, file: &str, size: u64) -> (p: Self)
        ensures
            p.current_file@ == file@,
            p.files_checked as int == (self.files_checked + 1) % 0x1_0000_0000,
            p.bytes_processed as int == (self.bytes_processed + size) % 0x1_0000_0000_0000_0000,
            p.total_files == self.total_files,
            p.total_bytes == self.total_bytes,
    {
        IntegrityProgress {
            current_file: String::from_str(file),
            files_checked: self.files_checked.wrapping_add(1),
            total_files: self.total_files,
            bytes_processed: self.bytes_processed.wrapping_add(size),
            total_bytes: self.total_bytes,
        }
    }
}

} // verus!

verus! {

/// A result as it is shown: the status as text.
#[derive(Debug, Clone)]
pub struct FileIntegrityResultDto {
    pub relative_path: String,
    pub status: String,
    pub expected_hash: String,
    pub actual_hash: Option<String>,
}

/// The outcome of a whole check: how many files of each status, and the
/// files that are not valid.
#[derive(Debug, Clone)]
pub struct IntegrityResultDto {
    pub total_files: u32,
    pub valid_count: u32,
    pub mismatch_count: u32,
    pub missing_count: u32,
    pub unreadable_count: u32,
    pub problems: Vec<FileIntegrityResultDto>,
}

/// A file to repair, as the caller names it.
#[derive(Debug, Clone)]
pub struct FileToRepairDto {
    pub relative_path: String,
    pub expected_hash: String,
}

/// How a repair went.
#[derive(Debug, Clone, Copy, PartialEq, Eq, Structural)]
pub struct RepairResultDto {
    pub success_count: u32,
    pub failure_count: u32,
}

/// The state of a check as it is shown.
#[derive(Debug, Clone)]
pub struct IntegrityStatusDto {
    pub is_checking: bool,
    pub current_file: Option<String>,
    pub files_checked: u32,
    pub total_files: u32,
    pub bytes_processed: u64,
    pub total_bytes: u64,
}

/// The name of a status.
pub fn status_to_string(status: IntegrityStatus) -> (s: String)
    ensures
        s@ == status.display_text(),
{
    status.to_string()
}

/// Number of results with the given status.
pub open spec fn count_status(results: Seq<FileIntegrityResult>, status: IntegrityStatus) -> nat
    decreases results.len(),
{
    if results.len() == 0 {
        0
    } else {
        count_status(results.drop_last(), status) + if results.last().status == status {
            1nat
        } else {
            0nat
        }
    }
}

/// The results that are not valid, in order.
pub open spec fn problems_of(results: Seq<FileIntegrityResult>) -> Seq<FileIntegrityResult>
    decreases results.len(),
{
    if results.len() == 0 {
        Seq::empty()
    } else if results.last().status == IntegrityStatus::Valid {
        problems_of(results.drop_last())
    } else {
        problems_of(results.drop_last()).push(results.last())
    }
}

/// Whether `d` shows the result `r`.
pub open spec fn shows(d: FileIntegrityResultDto, r: FileIntegrityResult) -> bool {
    &&& d.relative_path@ == r.relative_path@
    &&& d.status@ == r.status.display_text()
    &&& d.expected_hash@ == r.expected_hash@
    &&& crate::text::opt_text(d.actual_hash) == crate::text::opt_text(r.actual_hash)
}

/// A count as a 32-bit number, capped at the largest one.
pub open spec fn capped(n: nat) -> u32 {
    if n > u32::MAX {
        u32::MAX
    } else {
        n as u32
    }
}

pub proof fn lemma_count_bound(results: Seq<FileIntegrityResult>, status: IntegrityStatus)
    ensures
        count_status(results, status) <= results.len(),
    decreases results.len(),
{
    if results.len() > 0 {
        lemma_count_bound(results.drop_last(), status);
    }
}

fn cap(n: usize) -> (r: u32)
    ensures
        r == capped(n as nat),
{
    if n > u32::MAX as usize {
        u32::MAX
    } else {
        n as u32
    }
}

/// The outcome of a check from its results.
pub fn summarize(results: &Vec<FileIntegrityResult>) -> (d: IntegrityResultDto)
    ensures
        d.total_files == capped(results@.len()),
        d.valid_count == capped(count_status(results@, IntegrityStatus::Valid)),
        d.mismatch_count == capped(count_status(results@, IntegrityStatus::Mismatch)),
        d.missing_count == capped(count_status(results@, IntegrityStatus::Missing)),
        d.unreadable_count == capped(count_status(results@, IntegrityStatus::Unreadable)),
        d.problems@.len() == problems_of(results@).len(),
        forall|k: int|
            0 <= k < d.problems@.len() ==> shows(#[trigger] d.problems@[k], problems_of(results@)[k]),
{
    let mut valid: usize = 0;
    let mut mismatch: usize = 0;
    let mut missing: usize = 0;
    let mut unreadable: usize = 0;
    let mut problems: Vec<FileIntegrityResultDto> = Vec::new();
    let mut i: usize = 0;
    while i < results.len()
        invariant
            i <= results.len(),
            valid == count_status(results@.take(i as int), IntegrityStatus::Valid),
            mismatch == count_status(results@.take(i as int), IntegrityStatus::Mismatch),
            missing == count_status(results@.take(i as int), IntegrityStatus::Missing),
            unreadable == count_status(results@.take(i as int), IntegrityStatus::Unreadable),
            problems@.len() == problems_of(results@.take(i as int)).len(),
            forall|k: int|
                0 <= k < problems@.len() ==> shows(
                    #[trigger] problems@[k],
                    problems_of(results@.take(i as int))[k],
                ),
        decreases results.len() - i,
    {
        let r = &results[i];
        proof {
            assert(results@.take(i + 1).drop_last() == results@.take(i as int));
            lemma_count_bound(results@.take(i as int), IntegrityStatus::Valid);
            lemma_count_bound(results@.take(i as int), IntegrityStatus::Mismatch);
            lemma_count_bound(results@.take(i as int), IntegrityStatus::Missing);
            lemma_count_bound(results@.take(i as int), IntegrityStatus::Unreadable);
        }
        match r.status {
            IntegrityStatus::Valid => {
                valid += 1;
            },
            IntegrityStatus::Mismatch => {
                mismatch += 1;
            },
            IntegrityStatus::Missing => {
                missing += 1;
            },
            IntegrityStatus::Unreadable => {
                unreadable += 1;
            },
        }
        if r.status != IntegrityStatus::Valid {
            problems.push(
                FileIntegrityResultDto {
                    relative_path: r.relative_path.clone(),
                    status: status_to_string(r.status),
                    expected_hash: r.expected_hash.clone(),
                    actual_hash: crate::text::clone_opt(&r.actual_hash),
                },
            );
        }
        i += 1;
    }
    assert(results@.take(results.len() as int) == results@);
    IntegrityResultDto {
        total_files: cap(results.len()),
        valid_count: cap(valid),
        mismatch_count: cap(mismatch),
        missing_count: cap(missing),
        unreadable_count: cap(unreadable),
        problems,
    }
}

/// The places of the files to delete for a repair: one for each result that
/// is not valid and whose path is accepted, in order.
pub open spec fn repair_targets(root: Seq<char>, results: Seq<FileIntegrityResult>) -> Seq<
    Seq<char>,
>
    decreases results.len(),
{
    if results.len() == 0 {
        Seq::empty()
    } else {
        let rest = repair_targets(root, results.drop_last());
        let r = results.last();
        if r.status == IntegrityStatus::Valid || is_traversal(r.relative_path@) {
            rest
        } else {
            rest.push(join_path(root, host_relative(r.relative_path@)))
        }
    }
}

/// The files to delete so that the next update restores them.
pub fn repair_plan(game_path: &str, results: &Vec<FileIntegrityResult>) -> (paths: Vec<String>)
    ensures
        crate::text::strings(paths@) == repair_targets(game_path@, results@),
{
    let mut paths: Vec<String> = Vec::new();
    let mut i: usize = 0;
    while i < results.len()
        invariant
            i <= results.len(),
            crate::text::strings(paths@) =~= repair_targets(game_path@, results@.take(i as int)),
        decreases results.len() - i,
    {
        let r = &results[i];
        assert(results@.take(i + 1).drop_last() == results@.take(i as int));
        if r.status != IntegrityStatus::Valid {
            match normalize_path(game_path, r.relative_path.as_str()) {
                Ok(p) => {
                    paths.push(p);
                },
                Err(_) => {},
            }
        }
        i += 1;
    }
    assert(results@.take(results.len() as int) == results@);
    paths
}

/// Number of `true` in `flags`.
pub open spec fn count_true(flags: Seq<bool>) -> nat
    decreases flags.len(),
{
    if flags.len() == 0 {
        0
    } else {
        count_true(flags.drop_last()) + if flags.last() {
            1nat
        } else {
            0nat
        }
    }
}

/// How a repair went, from whether each file is gone: a file that was
/// deleted or was not there counts as a success.
pub fn repair_outcome(gone: &Vec<bool>) -> (r: RepairResultDto)
    ensures
        r.success_count == capped(count_true(gone@)),
        r.failure_count == capped((gone@.len() - count_true(gone@)) as nat),
{
    let mut ok: usize = 0;
    let mut i: usize = 0;
    while i < gone.len()
        invariant
            i <= gone.len(),
            ok == count_true(gone@.take(i as int)),
            ok <= i,
        decreases gone.len() - i,
    {
        assert(gone@.take(i + 1).drop_last() == gone@.take(i as int));
        if gone[i] {
            ok += 1;
        }
        i += 1;
    }
    assert(gone@.take(gone.len() as int) == gone@);
    RepairResultDto { success_count: cap(ok), failure_count: cap(gone.len() - ok) }
}

/// What the launcher remembers of a running check.
#[derive(Debug, Clone)]
pub struct IntegrityState {
    pub is_checking: bool,
    pub cancel_requested: bool,
    pub current_file: Option<String>,
    pub files_checked: u32,
    pub total_files: u32,
    pub bytes_processed: u64,
    pub total_bytes: u64,
}

impl Default for IntegrityState {
    fn default() -> (s: Self)
        ensures
            !s.is_checking,
            !s.cancel_requested,
            s.current_file is None,
            s.files_checked == 0,
            s.total_files == 0,
            s.bytes_processed == 0,
            s.total_bytes == 0,
    {
        IntegrityState {
            is_checking: false,
            cancel_requested: false,
            current_file: None,
            files_checked: 0,
            total_files: 0,
            bytes_processed: 0,
            total_bytes: 0,
        }
    }
}

impl IntegrityState {
    /// Whether `self` is the state of a check just started over
    /// `total_files` files.
    pub open spec fn just_started(self, total_files: u32) -> bool {
        &&& self.is_checking
        &&& !self.cancel_requested
        &&& self.current_file is None
        &&& self.files_checked == 0
        &&& self.total_files == total_files
        &&& self.bytes_processed == 0
        &&& self.total_bytes == 0
    }

    /// Starts a check over `total_files` files. Only one check runs at a
    /// time: while one runs, nothing changes and the request is refused.
    pub fn begin(&mut self, total_files: u32) -> (r: Result<(), String>)
        ensures
            old(self).is_checking ==> *final(self) == *old(self),
            old(self).is_checking ==> (r matches Err(m) && m@
                == "Integrity check already in progress"@),
            !old(self).is_checking ==> r is Ok && final(self).just_started(total_files),
    {
        if self.is_checking {
            return Err(String::from_str("Integrity check already in progress"));
        }
        self.is_checking = true;
        self.cancel_requested = false;
        self.current_file = None;
        self.files_checked = 0;
        self.total_files = total_files;
        self.bytes_processed = 0;
        self.total_bytes = 0;
        Ok(())
    }

    /// Takes over the numbers of a progress report.
    pub fn record(&mut self, progress: &IntegrityProgress)
        ensures
            final(self).is_checking == old(self).is_checking,
            final(self).cancel_requested == old(self).cancel_requested,
            final(self).current_file matches Some(f) && f@ == progress.current_file@,
            final(self).files_checked == progress.files_checked,
            final(self).total_files == progress.total_files,
            final(self).bytes_processed == progress.bytes_processed,
            final(self).total_bytes == progress.total_bytes,
    {
        self.current_file = Some(progress.current_file.clone());
        self.files_checked = progress.files_checked;
        self.total_files = progress.total_files;
        self.bytes_processed = progress.bytes_processed;
        self.total_bytes = progress.total_bytes;
    }

    /// Ends the check.
    pub fn finish(&mut self)
        ensures
            *final(self) == (IntegrityState { is_checking: false, ..*old(self) }),
    {
        self.is_checking = false;
    }

    /// Asks the running check to stop. Refused where none runs.
    pub fn request_cancel(&mut self) -> (r: Result<(), String>)
        ensures
            !old(self).is_checking ==> *final(self) == *old(self),
            !old(self).is_checking ==> (r matches Err(m) && m@
                == "No integrity check in progress"@),
            old(self).is_checking ==> r is Ok && *final(self) == (IntegrityState {
                cancel_requested: true,
                ..*old(self)
            }),
    {
        if !self.is_checking {
            return Err(String::from_str("No integrity check in progress"));
        }
        self.cancel_requested = true;
        Ok(())
    }

    /// The state as it is shown.
    pub fn status(&self) -> (d: IntegrityStatusDto)
        ensures
            d.is_checking == self.is_checking,
            crate::text::opt_text(d.current_file) == crate::text::opt_text(self.current_file),
            d.files_checked == self.files_checked,
            d.total_files == self.total_files,
            d.bytes_processed == self.bytes_processed,
            d.total_bytes == self.total_bytes,
    {
        IntegrityStatusDto {
            is_checking: self.is_checking,
            current_file: crate::text::clone_opt(&self.current_file),
            files_checked: self.files_checked,
            total_files: self.total_files,
            bytes_processed: self.bytes_processed,
            total_bytes: self.total_bytes,
        }
    }
}

} // verus!
