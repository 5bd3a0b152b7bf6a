//! The patch servers: the addresses asked, the patch lists they answer
//! with, and what each answer means.

use vstd::prelude::*;
use crate::entities::{PatchEntry, Repository};
use crate::error::Error;
use crate::numbers::{decimal, decimal_chars, parse_u64_up_to, parse_unsigned};
use crate::search::{contains, contains_str, split, split_chars};
use crate::text::{
    chars_of, concat2, concat3, opt_text, string_of, strings, texts, trim, trimmed,
};

verus! {

pub const BOOT_VERSION_URL: &'static str =
    "http://patch-bootver.ffxiv.com/http/win32/ffxivneo_release_boot";

pub const GAME_VERSION_URL: &'static str =
    "https://patch-gamever.ffxiv.com/http/win32/ffxivneo_release_game";

/// A patch entry with its texts as sequences of characters.
pub struct PatchEntryView {
    pub version_id: Seq<char>,
    pub url: Seq<char>,
    pub length: u64,
    pub hash_type: Option<Seq<char>>,
    pub hash_block_size: Option<u64>,
    pub hashes: Option<Seq<Seq<char>>>,
    pub repository: Repository,
}

impl View for PatchEntry {
    type V = PatchEntryView;

    open spec fn view(&self) -> PatchEntryView {
        PatchEntryView {
            version_id: self.version_id@,
            url: self.url@,
            length: self.length,
            hash_type: opt_text(self.hash_type),
            hash_block_size: self.hash_block_size,
            hashes: match self.hashes {
                Some(h) => Some(strings(h@)),
                None => None,
            },
            repository: self.repository,
        }
    }
}

/// The views of a list of patch entries.
pub open spec fn entries(list: Seq<PatchEntry>) -> Seq<PatchEntryView> {
    list.map_values(|p: PatchEntry| p@)
}

/// Address of the boot check for the boot version `version`.
pub fn boot_version_url(version: &str) -> (url: String)
    ensures
        url@ == BOOT_VERSION_URL@ + "/"@ + version@,
{
    concat3(BOOT_VERSION_URL, "/", version)
}

/// Address of the session registration for a base version and a session.
pub fn game_version_url(base_version: &str, session_id: &str) -> (url: String)
    ensures
        url@ == GAME_VERSION_URL@ + "/"@ + base_version@ + "/"@ + session_id@,
{
    let mut url = concat3(GAME_VERSION_URL, "/", base_version);
    url.append("/");
    url.append(session_id);
    url
}

/// The repository that a download address belongs to: the expansion named
/// in its path, else the base game.
pub open spec fn repository_of_url(url: Seq<char>) -> Repository {
    if contains(url, "/ex1/"@) {
        Repository::Ex1
    } else if contains(url, "/ex2/"@) {
        Repository::Ex2
    } else if contains(url, "/ex3/"@) {
        Repository::Ex3
    } else if contains(url, "/ex4/"@) {
        Repository::Ex4
    } else if contains(url, "/ex5/"@) {
        Repository::Ex5
    } else {
        Repository::Ffxiv
    }
}

/// The repository that a download address belongs to.
pub fn infer_repository(url: &[char]) -> (r: Repository)
    ensures
        r == repository_of_url(url@),
{
    if contains_str(url, "/ex1/") {
        Repository::Ex1
    } else if contains_str(url, "/ex2/") {
        Repository::Ex2
    } else if contains_str(url, "/ex3/") {
        Repository::Ex3
    } else if contains_str(url, "/ex4/") {
        Repository::Ex4
    } else if contains_str(url, "/ex5/") {
        Repository::Ex5
    } else {
        Repository::Ffxiv
    }
}

/// What one line of a patch list denotes.
pub enum LineOutcome {
    /// Blank, or fewer than three fields: the line is dropped.
    Dropped,
    /// The length is no number; the field as written.
    BadLength(Seq<char>),
    Entry(PatchEntryView),
}

/// Reads one line: tab-separated version, address, length, and optionally
/// hash type, block size and block hashes. White space around the line is
/// ignored. The entry belongs to `repository`, or where none is given to
/// the repository of its address.
pub open spec fn line_outcome(raw: Seq<char>, repository: Option<Repository>) -> LineOutcome {
    let line = trim(raw);
    let f = split(line, '\t');
    if line.len() == 0 || f.len() < 3 {
        LineOutcome::Dropped
    } else if parse_unsigned(f[2], u64::MAX as nat) is None {
        LineOutcome::BadLength(f[2])
    } else {
        LineOutcome::Entry(
            PatchEntryView {
                version_id: f[0],
                url: f[1],
                length: parse_unsigned(f[2], u64::MAX as nat).unwrap() as u64,
                hash_type: if f.len() >= 5 {
                    Some(f[3])
                } else {
                    None
                },
                hash_block_size: if f.len() >= 5 {
                    match parse_unsigned(f[4], u64::MAX as nat) {
                        Some(n) => Some(n as u64),
                        None => None,
                    }
                } else {
                    None
                },
                hashes: if f.len() > 5 {
                    Some(f.skip(5))
                } else {
                    None
                },
                repository: match repository {
                    Some(r) => r,
                    None => repository_of_url(f[1]),
                },
            },
        )
    }
}

/// Reads lines in order: the entries of the lines up to the first line
/// whose length is no number, which fails the whole list.
pub open spec fn read_lines(lines: Seq<Seq<char>>, repository: Option<Repository>) -> Result<
    Seq<PatchEntryView>,
    Seq<char>,
>
    decreases lines.len(),
{
    if lines.len() == 0 {
        Ok(Seq::empty())
    } else {
        match read_lines(lines.drop_last(), repository) {
            Err(field) => Err(field),
            Ok(before) => match line_outcome(lines.last(), repository) {
                LineOutcome::Dropped => Ok(before),
                LineOutcome::BadLength(field) => Err(field),
                LineOutcome::Entry(e) => Ok(before.push(e)),
            },
        }
    }
}

/// What a patch list denotes: its entries, or the field that failed it.
pub open spec fn read_patch_list(body: Seq<char>, repository: Option<Repository>) -> Result<
    Seq<PatchEntryView>,
    Seq<char>,
> {
    read_lines(split(body, '\n'), repository)
}

/// Whether `r` is what the patch list `body` denotes.
pub open spec fn is_patch_list(
    r: Result<Vec<PatchEntry>, Error>,
    body: Seq<char>,
    repository: Option<Repository>,
) -> bool {
    match read_patch_list(body, repository) {
        Ok(list) => r matches Ok(v) && entries(v@) == list,
        Err(field) => r matches Err(Error::PatchServer(m)) && m@ == "Invalid patch size: "@ + field,
    }
}

/// The outcome of reading one line.
enum ReadLine {
    Dropped,
    BadLength(Vec<char>),
    Entry(PatchEntry),
}

fn read_line(raw: &[char], repository: Option<Repository>) -> (r: ReadLine)
    ensures
        match line_outcome(raw@, repository) {
            LineOutcome::Dropped => r is Dropped,
            LineOutcome::BadLength(field) => r matches ReadLine::BadLength(f) && f@ == field,
            LineOutcome::Entry(e) => r matches ReadLine::Entry(p) && p@ == e,
        },
{
    let line = trimmed(raw);
    if line.len() == 0 {
        return ReadLine::Dropped;
    }
    let f = split_chars(line.as_slice(), '\t');
    if f.len() < 3 {
        return ReadLine::Dropped;
    }
    let length = match parse_u64_up_to(f[2].as_slice(), u64::MAX) {
        Some(n) => n,
        None => {
            return ReadLine::BadLength(f[2].clone());
        },
    };
    let mut hash_type: Option<String> = None;
    let mut hash_block_size: Option<u64> = None;
    let mut hashes: Option<Vec<String>> = None;
    if f.len() >= 5 {
        hash_type = Some(string_of(f[3].as_slice()));
        hash_block_size = parse_u64_up_to(f[4].as_slice(), u64::MAX);
        if f.len() > 5 {
            let mut list: Vec<String> = Vec::new();
            let mut k: usize = 5;
            while k < f.len()
                invariant
                    5 <= k <= f.len(),
                    strings(list@) =~= texts(f@).subrange(5, k as int),
                decreases f.len() - k,
            {
                let ghost before = strings(list@);
                let item = string_of(f[k].as_slice());
                list.push(item);
                assert(strings(list@) =~= before.push(item@));
                assert(texts(f@).subrange(5, k + 1) =~= texts(f@).subrange(5, k as int).push(
                    f@[k as int]@,
                ));
                k += 1;
            }
            assert(texts(f@).subrange(5, f.len() as int) =~= texts(f@).skip(5));
            hashes = Some(list);
        }
    }
    let repo = match repository {
        Some(r) => r,
        None => infer_repository(f[1].as_slice()),
    };
    ReadLine::Entry(
        PatchEntry {
            version_id: string_of(f[0].as_slice()),
            url: string_of(f[1].as_slice()),
            length,
            hash_type,
            hash_block_size,
            hashes,
            repository: repo,
        },
    )
}

fn read_list(body: &str, repository: Option<Repository>) -> (r: Result<Vec<PatchEntry>, Error>)
    ensures
        is_patch_list(r, body@, repository),
{
    let v = chars_of(body);
    let lines = split_chars(v.as_slice(), '\n');
    let mut patches: Vec<PatchEntry> = Vec::new();
    let mut i: usize = 0;
    assert(entries(patches@) =~= Seq::<PatchEntryView>::empty());
    while i < lines.len()
        invariant
            i <= lines.len(),
            texts(lines@) == split(body@, '\n'),
            read_lines(texts(lines@).take(i as int), repository) == Ok::<
                Seq<PatchEntryView>,
                Seq<char>,
            >(entries(patches@)),
        decreases lines.len() - i,
    {
        assert(texts(lines@).take(i + 1).drop_last() == texts(lines@).take(i as int));
        assert(texts(lines@).take(i + 1).last() == lines@[i as int]@);
        match read_line(lines[i].as_slice(), repository) {
            ReadLine::Dropped => {},
            ReadLine::BadLength(field) => {
                proof {
                    lemma_read_lines_fails(texts(lines@), i + 1, repository);
                    assert(texts(lines@).take(lines.len() as int) == texts(lines@));
                }
                let shown = string_of(field.as_slice());
                return Err(Error::PatchServer(concat2("Invalid patch size: ", shown.as_str())));
            },
            ReadLine::Entry(p) => {
                let ghost before = entries(patches@);
                patches.push(p);
                assert(entries(patches@) =~= before.push(p@));
            },
        }
        i += 1;
    }
    assert(texts(lines@).take(lines.len() as int) == texts(lines@));
    Ok(patches)
}

/// Once a prefix of the lines fails, the whole list fails the same way.
pub proof fn lemma_read_lines_fails(lines: Seq<Seq<char>>, k: int, repository: Option<Repository>)
    requires
        0 <= k <= lines.len(),
        read_lines(lines.take(k), repository) is Err,
    ensures
        read_lines(lines, repository) == read_lines(lines.take(k), repository),
    decreases lines.len() - k,
{
    if k == lines.len() {
        assert(lines.take(k) == lines);
    } else {
        assert(lines.drop_last().take(k) == lines.take(k));
        lemma_read_lines_fails(lines.drop_last(), k, repository);
    }
}

/// Reads a patch list whose entries all belong to `repository`.
pub fn parse_patch_list(body: &str, repository: Repository) -> (r: Result<Vec<PatchEntry>, Error>)
    ensures
        is_patch_list(r, body@, Some(repository)),
{
    read_list(body, Some(repository))
}

/// Reads a patch list of the game, where each entry belongs to the
/// repository of its address.
pub fn parse_game_patch_list(body: &str) -> (r: Result<Vec<PatchEntry>, Error>)
    ensures
        is_patch_list(r, body@, None),
{
    read_list(body, None)
}

} // verus!

verus! {

/// Whether a status code reports success.
pub open spec fn is_success(status: u16) -> bool {
    200 <= status <= 299
}

/// Whether `r` is what the answer to a boot check means: 204 is an empty
/// list, any other success carries a patch list of the boot repository,
/// anything else is a failure that names the status.
pub open spec fn is_boot_answer(r: Result<Vec<PatchEntry>, Error>, status: u16, body: Seq<char>) -> bool {
    if status == 204 {
        r matches Ok(v) && v@.len() == 0
    } else if !is_success(status) {
        r matches Err(Error::PatchServer(m)) && m@ == "Boot version check failed with status: "@
            + decimal(status as nat)
    } else {
        is_patch_list(r, body, Some(Repository::Boot))
    }
}

/// What the answer to a boot check means.
pub fn boot_patches_from(status: u16, body: &str) -> (r: Result<Vec<PatchEntry>, Error>)
    ensures
        is_boot_answer(r, status, body@),
{
    if status == 204 {
        return Ok(Vec::new());
    }
    if status < 200 || status > 299 {
        let n = decimal_chars(status as u64);
        let shown = string_of(n.as_slice());
        return Err(
            Error::PatchServer(concat2("Boot version check failed with status: ", shown.as_str())),
        );
    }
    parse_patch_list(body, Repository::Boot)
}

/// The handle for later downloads: the one the server issued, else the
/// session id.
pub open spec fn unique_id_of(session_id: Seq<char>, issued: Option<Seq<char>>) -> Seq<char> {
    match issued {
        Some(id) => id,
        None => session_id,
    }
}

/// Whether `r` is what the answer to a session registration means. In this
/// order: status 200 or 204 with a content length of 0 is an empty list;
/// 409 is a conflict; any other status outside 200..=299 is a failure; a
/// blank body is an empty list; else the body is a patch list of the game.
pub open spec fn is_session_answer(
    r: Result<(String, Vec<PatchEntry>), Error>,
    session_id: Seq<char>,
    status: u16,
    issued: Option<Seq<char>>,
    content_length: Option<u64>,
    body: Seq<char>,
) -> bool {
    let uid = unique_id_of(session_id, issued);
    if (status == 204 || status == 200) && content_length == Some(0u64) {
        r matches Ok(p) && p.0@ == uid && p.1@.len() == 0
    } else if status == 409 {
        r matches Err(Error::PatchServer(m)) && m@
            == "Game version conflict - server may be under maintenance"@
    } else if !is_success(status) {
        r matches Err(Error::PatchServer(m)) && m@ == "Session registration failed with status: "@
            + decimal(status as nat)
    } else if trim(body).len() == 0 {
        r matches Ok(p) && p.0@ == uid && p.1@.len() == 0
    } else {
        match read_patch_list(body, None) {
            Ok(list) => r matches Ok(p) && p.0@ == uid && entries(p.1@) == list,
            Err(field) => r matches Err(Error::PatchServer(m)) && m@ == "Invalid patch size: "@
                + field,
        }
    }
}

/// What the answer to a session registration means: the handle for later
/// downloads and the patches to apply.
pub fn session_from_response(
    session_id: &str,
    status: u16,
    issued_unique_id: Option<&str>,
    content_length: Option<u64>,
    body: &str,
) -> (r: Result<(String, Vec<PatchEntry>), Error>)
    ensures
        is_session_answer(
            r,
            session_id@,
            status,
            match issued_unique_id {
                Some(id) => Some(id@),
                None => None,
            },
            content_length,
            body@,
        ),
{
    let unique_id = match issued_unique_id {
        Some(id) => String::from_str(id),
        None => String::from_str(session_id),
    };
    if status == 204 || status == 200 {
        if let Some(n) = content_length {
            if n == 0 {
                return Ok((unique_id, Vec::new()));
            }
        }
    }
    if status == 409 {
        return Err(
            Error::PatchServer(
                String::from_str("Game version conflict - server may be under maintenance"),
            ),
        );
    }
    if status < 200 || status > 299 {
        let n = decimal_chars(status as u64);
        let shown = string_of(n.as_slice());
        return Err(
            Error::PatchServer(
                concat2("Session registration failed with status: ", shown.as_str()),
            ),
        );
    }
    let b = chars_of(body);
    let t = trimmed(b.as_slice());
    if t.len() == 0 {
        return Ok((unique_id, Vec::new()));
    }
    match parse_game_patch_list(body) {
        Ok(patches) => Ok((unique_id, patches)),
        Err(e) => Err(e),
    }
}

/// Most attempts made at a request that the server fails.
pub const MAX_RETRIES: u32 = 3;

/// How long to wait before the next attempt: 1 s after the first failure,
/// 2 s after the second; after the third there is no next attempt.
pub open spec fn backoff(attempt: u32) -> Option<u64> {
    if attempt == 0 {
        Some(1u64)
    } else if attempt == 1 {
        Some(2u64)
    } else {
        None
    }
}

/// Whether a status code reports a failure of the server.
pub fn is_server_error(status: u16) -> (r: bool)
    ensures
        r == (500 <= status <= 599),
{
    500 <= status && status <= 599
}

/// The seconds to wait before trying again after the attempt numbered
/// `attempt` (from 0) failed, or nothing where that was the last attempt.
pub fn retry_delay(attempt: u32) -> (r: Option<u64>)
    ensures
        r == backoff(attempt),
        r is Some <==> attempt + 1 < MAX_RETRIES,
{
    if attempt == 0 {
        Some(1)
    } else if attempt == 1 {
        Some(2)
    } else {
        None
    }
}

/// The total size of a list of patches, capped at the largest number.
pub open spec fn total_length(list: Seq<PatchEntry>) -> nat
    decreases list.len(),
{
    if list.len() == 0 {
        0
    } else {
        total_length(list.drop_last()) + list.last().length as nat
    }
}

/// The bytes to download for `patches`, capped at the largest number.
pub fn total_download_size(patches: &[PatchEntry]) -> (n: u64)
    ensures
        n == if total_length(patches@) > u64::MAX {
            u64::MAX as nat
        } else {
            total_length(patches@)
        },
{
    let mut n: u64 = 0;
    let mut i: usize = 0;
    while i < patches.len()
        invariant
            i <= patches.len(),
            n == if total_length(patches@.take(i as int)) > u64::MAX {
                u64::MAX as nat
            } else {
                total_length(patches@.take(i as int))
            },
        decreases patches.len() - i,
    {
        assert(patches@.take(i + 1).drop_last() == patches@.take(i as int));
        n = n.saturating_add(patches[i].length);
        i += 1;
    }
    assert(patches@.take(patches.len() as int) == patches@);
    n
}

} // verus!
