//! The version files of an installation: reading them, the reports sent to
//! the patch servers, and what a batch of patches leaves in them.

use vstd::prelude::*;
use crate::digest::{hex_text, sha1_hex, sha1_of};
use crate::entities::Repository;
use crate::error::Error;
use crate::numbers::{decimal, decimal_chars};
use crate::text::{append_chars, append_str, chars_of, join_path, joined, opt_text, string_of};
use crate::version::{parse_outcome, GameVersion};

verus! {

/// The boot executables whose digests the boot check sends, in order.
pub open spec fn boot_file_name(i: int) -> Seq<char> {
    if i == 0 {
        "ffxivboot.exe"@
    } else if i == 1 {
        "ffxivboot64.exe"@
    } else if i == 2 {
        "ffxivlauncher.exe"@
    } else if i == 3 {
        "ffxivlauncher64.exe"@
    } else if i == 4 {
        "ffxivupdater.exe"@
    } else {
        "ffxivupdater64.exe"@
    }
}

/// Name of the boot executable numbered `i`, from 0 to 5.
pub fn boot_file(i: usize) -> (name: &'static str)
    ensures
        name@ == boot_file_name(i as int),
{
    if i == 0 {
        "ffxivboot.exe"
    } else if i == 1 {
        "ffxivboot64.exe"
    } else if i == 2 {
        "ffxivlauncher.exe"
    } else if i == 3 {
        "ffxivlauncher64.exe"
    } else if i == 4 {
        "ffxivupdater.exe"
    } else {
        "ffxivupdater64.exe"
    }
}

/// The line of one boot executable: name, length and digest.
pub open spec fn boot_line(i: int, data: Seq<u8>) -> Seq<char> {
    boot_file_name(i) + "/"@ + decimal(data.len()) + "/"@ + hex_text(sha1_of(data))
}

/// The digest line of the first `n` boot executables: the lines of those
/// that are present, joined by commas.
pub open spec fn boot_digest(files: Seq<Option<Vec<u8>>>, n: int) -> Seq<char>
    decreases n,
{
    if n <= 0 {
        Seq::empty()
    } else {
        let before = boot_digest(files, n - 1);
        if n - 1 < files.len() && files[n - 1] is Some {
            let line = boot_line(n - 1, files[n - 1].unwrap()@);
            if before.len() == 0 {
                line
            } else {
                before + ","@ + line
            }
        } else {
            before
        }
    }
}

/// The digest line that the boot check sends. `files[i]` holds the bytes of
/// the boot executable numbered `i` where that file is there; files that
/// are missing leave no trace.
pub fn boot_version_hash(files: &Vec<Option<Vec<u8>>>) -> (line: String)
    ensures
        line@ == boot_digest(files@, 6),
{
    let mut out: Vec<char> = Vec::new();
    let mut i: usize = 0;
    while i < 6
        invariant
            i <= 6,
            out@ == boot_digest(files@, i as int),
        decreases 6 - i,
    {
        if i < files.len() {
            if let Some(data) = &files[i] {
                let ghost before = out@;
                if out.len() > 0 {
                    append_str(&mut out, ",");
                }
                append_str(&mut out, boot_file(i));
                append_str(&mut out, "/");
                let n = decimal_chars(data.len() as u64);
                append_chars(&mut out, n.as_slice());
                append_str(&mut out, "/");
                let digest = sha1_hex(data.as_slice());
                append_str(&mut out, digest.as_str());
                assert(out@ =~= if before.len() == 0 {
                    boot_line(i as int, data@)
                } else {
                    before + ","@ + boot_line(i as int, data@)
                });
            }
        }
        i += 1;
    }
    string_of(out.as_slice())
}

/// What the version files of an installation hold: the text of each file
/// that is there.
#[derive(Debug, Clone)]
pub struct VersionFiles {
    pub boot: Option<String>,
    pub ffxiv: Option<String>,
    pub ex1: Option<String>,
    pub ex2: Option<String>,
    pub ex3: Option<String>,
    pub ex4: Option<String>,
    pub ex5: Option<String>,
}

impl VersionFiles {
    /// The text of the version file of `repo`, if the file is there.
    pub open spec fn content(self, repo: Repository) -> Option<String> {
        match repo {
            Repository::Boot => self.boot,
            Repository::Ffxiv => self.ffxiv,
            Repository::Ex1 => self.ex1,
            Repository::Ex2 => self.ex2,
            Repository::Ex3 => self.ex3,
            Repository::Ex4 => self.ex4,
            Repository::Ex5 => self.ex5,
        }
    }

    pub fn get(&self, repo: Repository) -> (r: &Option<String>)
        ensures
            *r == self.content(repo),
    {
        match repo {
            Repository::Boot => &self.boot,
            Repository::Ffxiv => &self.ffxiv,
            Repository::Ex1 => &self.ex1,
            Repository::Ex2 => &self.ex2,
            Repository::Ex3 => &self.ex3,
            Repository::Ex4 => &self.ex4,
            Repository::Ex5 => &self.ex5,
        }
    }

    /// No version file at all.
    pub fn empty() -> (f: Self)
        ensures
            forall|r: Repository| f.content(r) is None,
    {
        VersionFiles {
            boot: None,
            ffxiv: None,
            ex1: None,
            ex2: None,
            ex3: None,
            ex4: None,
            ex5: None,
        }
    }

    /// The files after `version` is written for `repo`: that file holds
    /// `version`, the others what they held.
    pub fn set(&mut self, repo: Repository, version: &str)
        ensures
            final(self).content(repo) matches Some(v) && v@ == version@,
            forall|r: Repository| r != repo ==> final(self).content(r) == old(self).content(r),
    {
        let v = Some(String::from_str(version));
        match repo {
            Repository::Boot => {
                self.boot = v;
            },
            Repository::Ffxiv => {
                self.ffxiv = v;
            },
            Repository::Ex1 => {
                self.ex1 = v;
            },
            Repository::Ex2 => {
                self.ex2 = v;
            },
            Repository::Ex3 => {
                self.ex3 = v;
            },
            Repository::Ex4 => {
                self.ex4 = v;
            },
            Repository::Ex5 => {
                self.ex5 = v;
            },
        }
    }
}

/// Whether `r` is the version that the version file of `repo` gives: the
/// file must be there and its text must be a version.
pub open spec fn is_version_read(
    r: Result<GameVersion, Error>,
    game_path: Seq<char>,
    repo: Repository,
    content: Option<Seq<char>>,
) -> bool {
    match content {
        None => r matches Err(Error::VersionFileNotFound(p)) && p@ == join_path(
            game_path,
            repo.file_path_text(),
        ),
        Some(text) => match parse_outcome(text) {
            Ok(n) => r matches Ok(v) && v.numbers() == n && v.version_string@ == crate::text::trim(
                text,
            ),
            Err(msg) => r matches Err(Error::InvalidVersionFormat(m)) && m@ == msg,
        },
    }
}

/// The version of `repo` in an installation under `game_path`.
pub fn get_version(game_path: &str, files: &VersionFiles, repo: Repository) -> (r: Result<
    GameVersion,
    Error,
>)
    ensures
        is_version_read(r, game_path@, repo, opt_text(files.content(repo))),
{
    match files.get(repo) {
        None => {
            let rel = chars_of(repo.version_file_path());
            Err(Error::VersionFileNotFound(joined(game_path, rel.as_slice())))
        },
        Some(text) => GameVersion::parse(text.as_str()),
    }
}

/// Short name of a game repository in the version report.
pub open spec fn report_name(repo: Repository) -> Seq<char> {
    match repo {
        Repository::Boot => "boot"@,
        Repository::Ffxiv => "ffxiv"@,
        Repository::Ex1 => "ex1"@,
        Repository::Ex2 => "ex2"@,
        Repository::Ex3 => "ex3"@,
        Repository::Ex4 => "ex4"@,
        Repository::Ex5 => "ex5"@,
    }
}

/// Whether the version file of `repo` is there and holds a version.
pub open spec fn readable(files: VersionFiles, repo: Repository) -> bool {
    files.content(repo) matches Some(text) && parse_outcome(text@) is Ok
}

/// The report of the first `n` game repositories, all of them readable:
/// one line `name/version` for each, joined by line feeds.
pub open spec fn report_text(files: VersionFiles, n: int) -> Seq<char>
    decreases n,
{
    if n <= 0 {
        Seq::empty()
    } else {
        let line = report_line_text(files, Repository::of_expansion(n - 1).unwrap());
        if n == 1 {
            line
        } else {
            report_text(files, n - 1) + "\n"@ + line
        }
    }
}

/// Number of game repositories up to the expansion `max_expansion`.
pub open spec fn report_len(max_expansion: u32) -> int {
    if max_expansion > 5 {
        6
    } else {
        max_expansion + 1
    }
}

/// The line of `repo` in the version report.
pub open spec fn report_line_text(files: VersionFiles, repo: Repository) -> Seq<char> {
    report_name(repo) + "/"@ + crate::text::trim(files.content(repo).unwrap()@)
}

/// Whether `e` is the failure of reading the version of `repo`.
pub open spec fn is_version_failure(e: Error, game_path: Seq<char>, files: VersionFiles, repo: Repository) -> bool {
    is_version_read(Err::<GameVersion, Error>(e), game_path, repo, opt_text(files.content(repo)))
}

fn report_line(game_path: &str, files: &VersionFiles, repo: Repository) -> (r: Result<
    Vec<char>,
    Error,
>)
    ensures
        readable(*files, repo) ==> (r matches Ok(line) && line@ == report_line_text(*files, repo)),
        !readable(*files, repo) ==> (r matches Err(e) && is_version_failure(
            e,
            game_path@,
            *files,
            repo,
        )),
{
    let version = match get_version(game_path, files, repo) {
        Ok(v) => v,
        Err(e) => {
            return Err(e);
        },
    };
    let name = match repo {
        Repository::Ffxiv => "ffxiv",
        Repository::Ex1 => "ex1",
        Repository::Ex2 => "ex2",
        Repository::Ex3 => "ex3",
        Repository::Ex4 => "ex4",
        Repository::Ex5 => "ex5",
        Repository::Boot => "boot",
    };
    let mut line = chars_of(name);
    append_str(&mut line, "/");
    append_str(&mut line, version.as_str());
    Ok(line)
}

/// Number of the first of the first `n` game repositories whose version
/// file cannot be read, or `n` where all can.
pub open spec fn first_unreadable(files: VersionFiles, n: int) -> int
    decreases n,
{
    if n <= 0 {
        0
    } else {
        let k = first_unreadable(files, n - 1);
        if k < n - 1 {
            k
        } else if readable(files, Repository::of_expansion(n - 1).unwrap()) {
            n
        } else {
            n - 1
        }
    }
}

proof fn lemma_first_unreadable_stays(files: VersionFiles, k: int, n: int)
    requires
        0 <= k < n,
        first_unreadable(files, k) == k,
        !readable(files, Repository::of_expansion(k).unwrap()),
    ensures
        first_unreadable(files, n) == k,
    decreases n - k,
{
    if n > k + 1 {
        lemma_first_unreadable_stays(files, k, n - 1);
    }
}

/// Whether `r` is the version report of the game repositories up to
/// `max_expansion`: the report where all their version files can be read,
/// else the failure of reading the first that cannot.
pub open spec fn is_version_report(
    r: Result<String, Error>,
    game_path: Seq<char>,
    files: VersionFiles,
    max_expansion: u32,
) -> bool {
    let n = report_len(max_expansion);
    let k = first_unreadable(files, n);
    if k == n {
        r matches Ok(s) && s@ == report_text(files, n)
    } else {
        r matches Err(e) && is_version_failure(
            e,
            game_path,
            files,
            Repository::of_expansion(k).unwrap(),
        )
    }
}

/// The version report sent with a session registration: the versions of
/// the base game and of the expansions up to `max_expansion`, capped at 5.
pub fn get_version_report(game_path: &str, files: &VersionFiles, max_expansion: u32) -> (r: Result<
    String,
    Error,
>)
    ensures
        is_version_report(r, game_path@, *files, max_expansion),
{
    let repos = Repository::game_repos_up_to(max_expansion);
    let mut out: Vec<char> = Vec::new();
    let mut i: usize = 0;
    while i < repos.len()
        invariant
            i <= repos.len(),
            repos@.len() == report_len(max_expansion),
            forall|k: int|
                0 <= k < repos@.len() ==> #[trigger] repos@[k] == Repository::of_expansion(
                    k,
                ).unwrap(),
            out@ == report_text(*files, i as int),
            first_unreadable(*files, i as int) == i,
        decreases repos.len() - i,
    {
        let repo = repos[i];
        let line = match report_line(game_path, files, repo) {
            Ok(line) => line,
            Err(e) => {
                proof {
                    lemma_first_unreadable_stays(*files, i as int, repos@.len() as int);
                }
                return Err(e);
            },
        };
        if i > 0 {
            append_str(&mut out, "\n");
        }
        append_chars(&mut out, line.as_slice());
        assert(report_text(*files, i + 1) == if i == 0 {
            report_line_text(*files, repo)
        } else {
            report_text(*files, i as int) + "\n"@ + report_line_text(*files, repo)
        });
        assert(out@ =~= report_text(*files, i + 1));
        i += 1;
    }
    Ok(string_of(out.as_slice()))
}

/// Whether an installation is complete enough to update: the three
/// directories are there, and the version files of boot and base game hold
/// versions.
pub fn validate_game_installation(
    boot_dir: bool,
    game_dir: bool,
    sqpack_dir: bool,
    files: &VersionFiles,
) -> (ok: bool)
    ensures
        ok == (boot_dir && game_dir && sqpack_dir && readable(*files, Repository::Boot) && readable(
            *files,
            Repository::Ffxiv,
        )),
{
    if !boot_dir || !game_dir || !sqpack_dir {
        return false;
    }
    if get_version("", files, Repository::Boot).is_err() {
        return false;
    }
    if get_version("", files, Repository::Ffxiv).is_err() {
        return false;
    }
    true
}

impl Repository {
    /// Place of the copy that is kept of a version file before it is
    /// written anew.
    pub open spec fn backup_path_text(self) -> Seq<char> {
        match self {
            Repository::Boot => "boot/ffxivboot.bck"@,
            Repository::Ffxiv => "game/ffxivgame.bck"@,
            Repository::Ex1 => "game/sqpack/ex1/ex1.bck"@,
            Repository::Ex2 => "game/sqpack/ex2/ex2.bck"@,
            Repository::Ex3 => "game/sqpack/ex3/ex3.bck"@,
            Repository::Ex4 => "game/sqpack/ex4/ex4.bck"@,
            Repository::Ex5 => "game/sqpack/ex5/ex5.bck"@,
        }
    }

    pub fn backup_file_path(&self) -> (s: &'static str)
        ensures
            s@ == self.backup_path_text(),
    {
        match self {
            Repository::Boot => "boot/ffxivboot.bck",
            Repository::Ffxiv => "game/ffxivgame.bck",
            Repository::Ex1 => "game/sqpack/ex1/ex1.bck",
            Repository::Ex2 => "game/sqpack/ex2/ex2.bck",
            Repository::Ex3 => "game/sqpack/ex3/ex3.bck",
            Repository::Ex4 => "game/sqpack/ex4/ex4.bck",
            Repository::Ex5 => "game/sqpack/ex5/ex5.bck",
        }
    }
}

/// What writing a version does to the files on disk.
#[derive(Debug, Clone)]
pub struct VersionWrite {
    /// The version file.
    pub path: String,
    /// Where the old file is copied first, if there is an old file.
    pub backup: Option<String>,
    /// What the version file holds afterwards.
    pub content: String,
}

/// The write that records `version` for `repo`: the old file, if there is
/// one, is copied beside itself before the new text replaces it.
pub fn plan_version_write(game_path: &str, repo: Repository, version: &str, exists: bool) -> (w:
    VersionWrite)
    ensures
        w.path@ == join_path(game_path@, repo.file_path_text()),
        w.content@ == version@,
        exists ==> (w.backup matches Some(b) && b@ == join_path(
            game_path@,
            repo.backup_path_text(),
        )),
        !exists ==> w.backup is None,
{
    let rel = chars_of(repo.version_file_path());
    let backup = if exists {
        let b = chars_of(repo.backup_file_path());
        Some(joined(game_path, b.as_slice()))
    } else {
        None
    };
    VersionWrite {
        path: joined(game_path, rel.as_slice()),
        backup,
        content: String::from_str(version),
    }
}

/// The versions on record after those of `batch` were written in order.
pub open spec fn versions_after(
    store: Map<Repository, Seq<char>>,
    batch: Seq<(Repository, Seq<char>)>,
) -> Map<Repository, Seq<char>>
    decreases batch.len(),
{
    if batch.len() == 0 {
        store
    } else {
        versions_after(store, batch.drop_last()).insert(batch.last().0, batch.last().1)
    }
}

/// After a batch is applied, each repository reads the version of the last
/// patch of the batch for that repository.
pub proof fn lemma_last_patch_decides(
    store: Map<Repository, Seq<char>>,
    batch: Seq<(Repository, Seq<char>)>,
    k: int,
)
    requires
        0 <= k < batch.len(),
        forall|j: int| k < j < batch.len() ==> (#[trigger] batch[j]).0 != batch[k].0,
    ensures
        versions_after(store, batch).dom().contains(batch[k].0),
        versions_after(store, batch)[batch[k].0] == batch[k].1,
    decreases batch.len(),
{
    if k < batch.len() - 1 {
        let rest = batch.drop_last();
        assert forall|j: int| k < j < rest.len() implies (#[trigger] rest[j]).0 != rest[k].0 by {
            assert(rest[j] == batch[j]);
        }
        lemma_last_patch_decides(store, rest, k);
        assert(batch.last().0 != batch[k].0);
    }
}

/// A repository that no patch of the batch is for reads what it read
/// before.
pub proof fn lemma_untouched_repository(
    store: Map<Repository, Seq<char>>,
    batch: Seq<(Repository, Seq<char>)>,
    repo: Repository,
)
    requires
        forall|j: int| 0 <= j < batch.len() ==> (#[trigger] batch[j]).0 != repo,
        store.dom().contains(repo),
    ensures
        versions_after(store, batch).dom().contains(repo),
        versions_after(store, batch)[repo] == store[repo],
    decreases batch.len(),
{
    if batch.len() > 0 {
        let rest = batch.drop_last();
        assert forall|j: int| 0 <= j < rest.len() implies (#[trigger] rest[j]).0 != repo by {
            assert(rest[j] == batch[j]);
        }
        lemma_untouched_repository(store, rest, repo);
    }
}

} // verus!
