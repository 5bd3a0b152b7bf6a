//! The records the launcher core passes around: repositories, patch
//! entries, progress, integrity results, runners, news.

use vstd::prelude::*;
use crate::text::chars_of;

verus! {

/// A part of the installation with a version file and a patch stream of its
/// own. The declaration order is the order in which a batch is applied.
#[derive(Debug, Clone, Copy, PartialEq, Eq, Hash, Structural)]
pub enum Repository {
    Boot,
    Ffxiv,
    Ex1,
    Ex2,
    Ex3,
    Ex4,
    Ex5,
}

impl Repository {
    /// Identifier of this repository in patch-server addresses.
    pub open spec fn patch_id_text(self) -> Seq<char> {
        match self {
            Repository::Boot => "ffxivneo_release_boot"@,
            Repository::Ffxiv => "ffxivneo_release_game"@,
            Repository::Ex1 => "ex1"@,
            Repository::Ex2 => "ex2"@,
            Repository::Ex3 => "ex3"@,
            Repository::Ex4 => "ex4"@,
            Repository::Ex5 => "ex5"@,
        }
    }

    /// Name of this repository's version file.
    pub open spec fn file_name_text(self) -> Seq<char> {
        match self {
            Repository::Boot => "ffxivboot.ver"@,
            Repository::Ffxiv => "ffxivgame.ver"@,
            Repository::Ex1 => "ex1.ver"@,
            Repository::Ex2 => "ex2.ver"@,
            Repository::Ex3 => "ex3.ver"@,
            Repository::Ex4 => "ex4.ver"@,
            Repository::Ex5 => "ex5.ver"@,
        }
    }

    /// Place of this repository's version file under the game root.
    pub open spec fn file_path_text(self) -> Seq<char> {
        match self {
            Repository::Boot => "boot/ffxivboot.ver"@,
            Repository::Ffxiv => "game/ffxivgame.ver"@,
            Repository::Ex1 => "game/sqpack/ex1/ex1.ver"@,
            Repository::Ex2 => "game/sqpack/ex2/ex2.ver"@,
            Repository::Ex3 => "game/sqpack/ex3/ex3.ver"@,
            Repository::Ex4 => "game/sqpack/ex4/ex4.ver"@,
            Repository::Ex5 => "game/sqpack/ex5/ex5.ver"@,
        }
    }

    /// Name of this repository as shown to the player.
    pub open spec fn display_text(self) -> Seq<char> {
        match self {
            Repository::Boot => "Boot"@,
            Repository::Ffxiv => "FFXIV"@,
            Repository::Ex1 => "Heavensward"@,
            Repository::Ex2 => "Stormblood"@,
            Repository::Ex3 => "Shadowbringers"@,
            Repository::Ex4 => "Endwalker"@,
            Repository::Ex5 => "Dawntrail"@,
        }
    }

    /// The repository of an expansion number: 0 is the base game.
    pub open spec fn of_expansion(expansion: int) -> Option<Repository> {
        if expansion == 0 {
            Some(Repository::Ffxiv)
        } else if expansion == 1 {
            Some(Repository::Ex1)
        } else if expansion == 2 {
            Some(Repository::Ex2)
        } else if expansion == 3 {
            Some(Repository::Ex3)
        } else if expansion == 4 {
            Some(Repository::Ex4)
        } else if expansion == 5 {
            Some(Repository::Ex5)
        } else {
            None
        }
    }

    /// The base game and the expansions up to `max_expansion`, capped at 5.
    pub open spec fn game_repos(max_expansion: int) -> Seq<Repository> {
        let top = if max_expansion > 5 {
            5
        } else {
            max_expansion
        };
        Seq::new((top + 1) as nat, |i: int| Repository::of_expansion(i).unwrap())
    }

    pub fn patch_id(&self) -> (s: &'static str)
        ensures
            s@ == self.patch_id_text(),
    {
        match self {
            Repository::Boot => "ffxivneo_release_boot",
            Repository::Ffxiv => "ffxivneo_release_game",
            Repository::Ex1 => "ex1",
            Repository::Ex2 => "ex2",
            Repository::Ex3 => "ex3",
            Repository::Ex4 => "ex4",
            Repository::Ex5 => "ex5",
        }
    }

    pub fn version_file_name(&self) -> (s: &'static str)
        ensures
            s@ == self.file_name_text(),
    {
        match self {
            Repository::Boot => "ffxivboot.ver",
            Repository::Ffxiv => "ffxivgame.ver",
            Repository::Ex1 => "ex1.ver",
            Repository::Ex2 => "ex2.ver",
            Repository::Ex3 => "ex3.ver",
            Repository::Ex4 => "ex4.ver",
            Repository::Ex5 => "ex5.ver",
        }
    }

    pub fn version_file_path(&self) -> (s: &'static str)
        ensures
            s@ == self.file_path_text(),
    {
        match self {
            Repository::Boot => "boot/ffxivboot.ver",
            Repository::Ffxiv => "game/ffxivgame.ver",
            Repository::Ex1 => "game/sqpack/ex1/ex1.ver",
            Repository::Ex2 => "game/sqpack/ex2/ex2.ver",
            Repository::Ex3 => "game/sqpack/ex3/ex3.ver",
            Repository::Ex4 => "game/sqpack/ex4/ex4.ver",
            Repository::Ex5 => "game/sqpack/ex5/ex5.ver",
        }
    }

    pub fn from_expansion(expansion: u32) -> (r: Option<Self>)
        ensures
            r == Repository::of_expansion(expansion as int),
    {
        match expansion {
            0 => Some(Repository::Ffxiv),
            1 => Some(Repository::Ex1),
            2 => Some(Repository::Ex2),
            3 => Some(Repository::Ex3),
            4 => Some(Repository::Ex4),
            5 => Some(Repository::Ex5),
            _ => None,
        }
    }

    pub fn game_repos_up_to(max_expansion: u32) -> (repos: Vec<Self>)
        ensures
            repos@ == Repository::game_repos(max_expansion as int),
    {
        let top: u32 = if max_expansion > 5 {
            5
        } else {
            max_expansion
        };
        let mut repos: Vec<Repository> = Vec::new();
        repos.push(Repository::Ffxiv);
        let mut exp: u32 = 1;
        while exp <= top
            invariant
                1 <= exp <= top + 1,
                top <= 5,
                repos@ =~= Seq::new(exp as nat, |i: int| Repository::of_expansion(i).unwrap()),
            decreases top + 1 - exp,
        {
            if let Some(repo) = Repository::from_expansion(exp) {
                repos.push(repo);
            }
            exp += 1;
        }
        repos
    }

    pub fn to_string(&self) -> (s: String)
        ensures
            s@ == self.display_text(),
    {
        match self {
            Repository::Boot => String::from_str("Boot"),
            Repository::Ffxiv => String::from_str("FFXIV"),
            Repository::Ex1 => String::from_str("Heavensward"),
            Repository::Ex2 => String::from_str("Stormblood"),
            Repository::Ex3 => String::from_str("Shadowbringers"),
            Repository::Ex4 => String::from_str("Endwalker"),
            Repository::Ex5 => String::from_str("Dawntrail"),
        }
    }
}

/// What follows the last `c` in `s`; all of `s` where there is no `c`.
pub open spec fn after_last(s: Seq<char>, c: char) -> Seq<char>
    decreases s.len(),
{
    if s.len() == 0 {
        s
    } else if s.last() == c {
        Seq::empty()
    } else {
        after_last(s.drop_last(), c).push(s.last())
    }
}

/// If no `c` stands at or after `k`, and one stands just before `k` unless
/// `k` is 0, then `after_last` is what starts at `k`.
pub proof fn lemma_after_last(s: Seq<char>, c: char, k: int)
    requires
        0 <= k <= s.len(),
        forall|i: int| k <= i < s.len() ==> #[trigger] s[i] != c,
        k == 0 || s[k - 1] == c,
    ensures
        after_last(s, c) == s.skip(k),
    decreases s.len() - k,
{
    if s.len() == 0 {
        assert(s.skip(0) == s);
    } else if k == s.len() {
        assert(s.skip(k) =~= Seq::empty());
    } else {
        let t = s.drop_last();
        assert forall|i: int| k <= i < t.len() implies #[trigger] t[i] != c by {
            assert(t[i] == s[i]);
        }
        if k > 0 {
            assert(t[k - 1] == s[k - 1]);
        }
        lemma_after_last(t, c, k);
        assert(t.skip(k).push(s.last()) =~= s.skip(k));
    }
}

/// One line of a patch list.
#[derive(Debug, Clone)]
pub struct PatchEntry {
    /// Version the patch brings its repository to.
    pub version_id: String,
    /// Where the patch file is downloaded from.
    pub url: String,
    /// Size of the patch file in bytes.
    pub length: u64,
    pub hash_type: Option<String>,
    /// Size of the blocks the hashes are taken over.
    pub hash_block_size: Option<u64>,
    /// Hexadecimal digest of each block, in order.
    pub hashes: Option<Vec<String>>,
    pub repository: Repository,
}

impl PatchEntry {
    /// The last segment of the download address.
    pub fn filename(&self) -> (r: Option<&str>)
        ensures
            r matches Some(name) && name@ == after_last(self.url@, '/'),
    {
        let v = chars_of(self.url.as_str());
        let mut k: usize = v.len();
        while k > 0 && v[k - 1] != '/'
            invariant
                k <= v.len(),
                forall|i: int| k <= i < v.len() ==> #[trigger] v@[i] != '/',
            decreases k,
        {
            k -= 1;
        }
        proof {
            lemma_after_last(v@, '/', k as int);
        }
        Some(self.url.as_str().substring_char(k, v.len()))
    }
}

/// Where a patch stands on its way into the installation.
#[derive(Debug, Clone, Copy, PartialEq, Eq, Structural)]
pub enum PatchState {
    Pending,
    Downloading,
    Verifying,
    Installing,
    Completed,
    Failed,
}

impl PatchState {
    pub open spec fn display_text(self) -> Seq<char> {
        match self {
            PatchState::Pending => "Pending"@,
            PatchState::Downloading => "Downloading"@,
            PatchState::Verifying => "Verifying"@,
            PatchState::Installing => "Installing"@,
            PatchState::Completed => "Completed"@,
            PatchState::Failed => "Failed"@,
        }
    }

    pub fn to_string(&self) -> (s: String)
        ensures
            s@ == self.display_text(),
    {
        match self {
            PatchState::Pending => String::from_str("Pending"),
            PatchState::Downloading => String::from_str("Downloading"),
            PatchState::Verifying => String::from_str("Verifying"),
            PatchState::Installing => String::from_str("Installing"),
            PatchState::Completed => String::from_str("Completed"),
            PatchState::Failed => String::from_str("Failed"),
        }
    }

    /// Completed and Failed are final: no state follows them.
    pub open spec fn is_terminal(self) -> bool {
        self == PatchState::Completed || self == PatchState::Failed
    }

    /// Position of a state on the way from Pending to Completed.
    pub open spec fn rank(self) -> nat {
        match self {
            PatchState::Pending => 0,
            PatchState::Downloading => 1,
            PatchState::Verifying => 2,
            PatchState::Installing => 3,
            PatchState::Completed => 4,
            PatchState::Failed => 4,
        }
    }

    /// Whether a patch in state `self` may pass to `next`: forward along the
    /// way, or to Failed, and never out of a final state.
    pub open spec fn may_become(self, next: PatchState) -> bool {
        !self.is_terminal() && (next == PatchState::Failed || self.rank() < next.rank())
    }

    pub fn can_become(&self, next: PatchState) -> (r: bool)
        ensures
            r == self.may_become(next),
    {
        let from: u8 = match self {
            PatchState::Pending => 0,
            PatchState::Downloading => 1,
            PatchState::Verifying => 2,
            PatchState::Installing => 3,
            PatchState::Completed => 4,
            PatchState::Failed => 4,
        };
        let to: u8 = match next {
            PatchState::Pending => 0,
            PatchState::Downloading => 1,
            PatchState::Verifying => 2,
            PatchState::Installing => 3,
            PatchState::Completed => 4,
            PatchState::Failed => 5,
        };
        from < 4 && from < to
    }
}

/// Live state of one patch. The download speed is kept by the caller.
#[derive(Debug, Clone)]
pub struct PatchProgress {
    pub patch: PatchEntry,
    pub state: PatchState,
    pub bytes_downloaded: u64,
    pub bytes_total: u64,
}

/// What the check of one file found.
#[derive(Debug, Clone, Copy, PartialEq, Eq, Structural)]
pub enum IntegrityStatus {
    Valid,
    Mismatch,
    Missing,
    Unreadable,
}

impl IntegrityStatus {
    pub open spec fn display_text(self) -> Seq<char> {
        match self {
            IntegrityStatus::Valid => "Valid"@,
            IntegrityStatus::Mismatch => "Mismatch"@,
            IntegrityStatus::Missing => "Missing"@,
            IntegrityStatus::Unreadable => "Unreadable"@,
        }
    }

    pub fn to_string(&self) -> (s: String)
        ensures
            s@ == self.display_text(),
    {
        match self {
            IntegrityStatus::Valid => String::from_str("Valid"),
            IntegrityStatus::Mismatch => String::from_str("Mismatch"),
            IntegrityStatus::Missing => String::from_str("Missing"),
            IntegrityStatus::Unreadable => String::from_str("Unreadable"),
        }
    }
}

/// Result of checking one file against the manifest.
#[derive(Debug, Clone)]
pub struct FileIntegrityResult {
    /// Path as the manifest writes it.
    pub relative_path: String,
    /// Digest the manifest expects, normalized.
    pub expected_hash: String,
    /// Digest of the file on disk, where it could be read.
    pub actual_hash: Option<String>,
    pub status: IntegrityStatus,
}

/// Progress of an integrity check.
#[derive(Debug, Clone)]
pub struct IntegrityProgress {
    pub current_file: String,
    pub files_checked: u32,
    pub total_files: u32,
    pub bytes_processed: u64,
    pub total_bytes: u64,
}

/// Where a Wine runner comes from.
#[derive(Debug, Clone, Copy, PartialEq, Eq, Structural)]
pub enum RunnerType {
    System,
    Proton,
    Lutris,
    GavelocManaged,
    Custom,
}

impl RunnerType {
    pub open spec fn display_text(self) -> Seq<char> {
        match self {
            RunnerType::System => "System"@,
            RunnerType::Proton => "Proton"@,
            RunnerType::Lutris => "Lutris"@,
            RunnerType::GavelocManaged => "Gaveloc"@,
            RunnerType::Custom => "Custom"@,
        }
    }

    pub fn to_string(&self) -> (s: String)
        ensures
            s@ == self.display_text(),
    {
        match self {
            RunnerType::System => String::from_str("System"),
            RunnerType::Proton => String::from_str("Proton"),
            RunnerType::Lutris => String::from_str("Lutris"),
            RunnerType::GavelocManaged => String::from_str("Gaveloc"),
            RunnerType::Custom => String::from_str("Custom"),
        }
    }
}

impl Default for RunnerType {
    fn default() -> (r: Self)
        ensures
            r == RunnerType::Custom,
    {
        RunnerType::Custom
    }
}

/// A Wine or Proton build that can run the game. The path is kept as text.
#[derive(Debug, Clone)]
pub struct WineRunner {
    pub path: String,
    pub name: String,
    pub runner_type: RunnerType,
    pub is_valid: bool,
}

/// One headline.
#[derive(Debug, Clone)]
pub struct NewsItem {
    pub date: String,
    pub title: String,
    pub url: String,
    pub id: String,
    pub tag: String,
}

/// The headlines of the launcher's news page.
#[derive(Debug, Clone)]
pub struct Headlines {
    pub news: Vec<NewsItem>,
    pub topics: Vec<NewsItem>,
    pub pinned: Vec<NewsItem>,
}

/// A promotional banner.
#[derive(Debug, Clone)]
pub struct Banner {
    pub image_url: String,
    pub link_url: String,
}

/// A news article.
#[derive(Debug, Clone)]
pub struct NewsArticle {
    pub title: String,
    pub content_html: String,
    pub date: String,
    pub url: String,
}

/// What a successful login returns.
#[derive(Debug, Clone)]
pub struct OauthLoginResult {
    pub session_id: String,
    pub region: i32,
    pub terms_accepted: bool,
    pub playable: bool,
    pub max_expansion: u32,
}

/// How a login attempt ended.
#[derive(Debug, Clone, Copy, PartialEq, Eq, Structural)]
pub enum LoginState {
    /// Logged in and up to date.
    LoggedIn,
    NeedsPatchGame,
    NeedsPatchBoot,
    NoService,
    NoTerms,
}

/// Result of the whole login flow.
#[derive(Debug, Clone)]
pub struct LoginResult {
    pub state: LoginState,
    pub oauth: Option<OauthLoginResult>,
    pub unique_id: Option<String>,
}

} // verus!
