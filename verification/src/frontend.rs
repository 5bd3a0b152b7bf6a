//! What the front end is shown: plain records made from the records of the
//! core.

use vstd::prelude::*;
use crate::account::Account;
use crate::entities::{OauthLoginResult, PatchEntry, PatchState, Repository, WineRunner};
use crate::error::Error;
use crate::patch::total_length;
use crate::session::CachedSession;
use crate::text::{opt_text, trim};

use crate::version_store::{get_version, readable, VersionFiles};

verus! {

/// The answer to a check of whether the core is there.
pub fn health_check() -> (s: String)
    ensures
        s@ == "OK"@,
{
    String::from_str("OK")
}

/// An account as it is shown.
#[derive(Debug, Clone)]
pub struct AccountDto {
    pub id: String,
    pub username: String,
    pub is_steam: bool,
    pub is_free_trial: bool,
    pub use_otp: bool,
    pub last_login: Option<i64>,
}

/// What the front end sends to add or change an account.
#[derive(Debug, Clone)]
pub struct CreateAccountRequest {
    pub username: String,
    pub is_steam: bool,
    pub is_free_trial: bool,
    pub use_otp: bool,
}

impl From<Account> for AccountDto {
    fn from(account: Account) -> (d: Self)
        ensures
            d.id@ == account.id@,
            d.username == account.username,
            d.is_steam == account.is_steam,
            d.is_free_trial == account.is_free_trial,
            d.use_otp == account.use_otp,
            d.last_login == account.last_login,
    {
        AccountDto {
            id: account.id.to_string(),
            username: account.username,
            is_steam: account.is_steam,
            is_free_trial: account.is_free_trial,
            use_otp: account.use_otp,
            last_login: account.last_login,
        }
    }
}

impl vstd::std_specs::convert::FromSpecImpl<Account> for AccountDto {
    open spec fn obeys_from_spec() -> bool {
        false
    }

    open spec fn from_spec(account: Account) -> Self {
        arbitrary()
    }
}

/// The account that a request describes. Where the account is on record
/// already, the time of its last login is kept.
pub fn account_from_request(request: CreateAccountRequest, existing: Option<&Account>) -> (a:
    Account)
    ensures
        a.wf(),
        a.username == request.username,
        a.is_steam == request.is_steam,
        a.is_free_trial == request.is_free_trial,
        a.use_otp == request.use_otp,
        a.last_login == (match existing {
            Some(e) => e.last_login,
            None => None,
        }),
{
    let mut a = Account::new(request.username);
    a.is_steam = request.is_steam;
    a.is_free_trial = request.is_free_trial;
    a.use_otp = request.use_otp;
    a.last_login = match existing {
        Some(e) => e.last_login,
        None => None,
    };
    a
}

/// How a login ended, as it is shown.
#[derive(Debug, Clone)]
pub struct LoginResultDto {
    pub success: bool,
    pub session_id: Option<String>,
    pub region: Option<i32>,
    pub max_expansion: Option<u32>,
    pub playable: Option<bool>,
    pub error: Option<String>,
    pub error_type: Option<String>,
}

/// What is shown of a login: its values where it succeeded, else the
/// message of the failure and its kind.
pub fn login_result_dto(result: Result<OauthLoginResult, Error>) -> (d: LoginResultDto)
    ensures
        match result {
            Ok(r) => d.success && opt_text(d.session_id) == Some(r.session_id@) && d.region
                == Some(r.region) && d.max_expansion == Some(r.max_expansion) && d.playable == Some(
                r.playable,
            ) && d.error is None && d.error_type is None,
            Err(e) => !d.success && d.session_id is None && d.region is None && d.max_expansion
                is None && d.playable is None && opt_text(d.error) == Some(e.message())
                && opt_text(d.error_type) == Some(crate::oauth::error_class(e.message())),
        },
{
    match result {
        Ok(r) => LoginResultDto {
            success: true,
            session_id: Some(r.session_id),
            region: Some(r.region),
            max_expansion: Some(r.max_expansion),
            playable: Some(r.playable),
            error: None,
            error_type: None,
        },
        Err(e) => {
            let text = e.to_string();
            let class = String::from_str(crate::oauth::classify_error(text.as_str()));
            LoginResultDto {
                success: false,
                session_id: None,
                region: None,
                max_expansion: None,
                playable: None,
                error: Some(text),
                error_type: Some(class),
            }
        },
    }
}

/// A cached session as it is shown: its values only while it is valid.
#[derive(Debug, Clone)]
pub struct CachedSessionDto {
    pub valid: bool,
    pub unique_id: Option<String>,
    pub region: Option<i32>,
    pub max_expansion: Option<u32>,
    pub remaining_secs: Option<i64>,
}

/// What is shown of the cached session of an account at the time `now`.
pub fn cached_session_dto(session: Option<CachedSession>, now: i64) -> (d: CachedSessionDto)
    ensures
        match session {
            Some(s) => if s.valid_at(now) {
                d.valid && opt_text(d.unique_id) == Some(s.unique_id@) && d.region == Some(s.region)
                    && d.max_expansion == Some(s.max_expansion) && (
                d.remaining_secs matches Some(n) && n == s.remaining_at(now))
            } else {
                !d.valid && d.unique_id is None && d.region is None && d.max_expansion is None
                    && d.remaining_secs is None
            },
            None => !d.valid && d.unique_id is None && d.region is None && d.max_expansion is None
                && d.remaining_secs is None,
        },
{
    match session {
        Some(s) => {
            if s.is_valid_at(now) {
                let left = s.remaining_secs_at(now);
                CachedSessionDto {
                    valid: true,
                    unique_id: Some(s.unique_id),
                    region: Some(s.region),
                    max_expansion: Some(s.max_expansion),
                    remaining_secs: Some(left),
                }
            } else {
                CachedSessionDto {
                    valid: false,
                    unique_id: None,
                    region: None,
                    max_expansion: None,
                    remaining_secs: None,
                }
            }
        },
        None => CachedSessionDto {
            valid: false,
            unique_id: None,
            region: None,
            max_expansion: None,
            remaining_secs: None,
        },
    }
}

/// Whether an account has a session and whether it is valid.
#[derive(Debug, Clone, Copy, PartialEq, Eq, Structural)]
pub struct SessionStatusDto {
    pub has_session: bool,
    pub is_valid: bool,
    pub remaining_secs: Option<i64>,
}

/// The status of the session of an account at the time `now`.
pub fn session_status(session: &Option<CachedSession>, now: i64) -> (d: SessionStatusDto)
    ensures
        match *session {
            Some(s) => d.has_session && d.is_valid == s.valid_at(now) && (if s.valid_at(now) {
                d.remaining_secs matches Some(n) && n == s.remaining_at(now)
            } else {
                d.remaining_secs is None
            }),
            None => d == (SessionStatusDto {
                has_session: false,
                is_valid: false,
                remaining_secs: None,
            }),
        },
{
    match session {
        Some(s) => {
            let valid = s.is_valid_at(now);
            SessionStatusDto {
                has_session: true,
                is_valid: valid,
                remaining_secs: if valid {
                    Some(s.remaining_secs_at(now))
                } else {
                    None
                },
            }
        },
        None => SessionStatusDto { has_session: false, is_valid: false, remaining_secs: None },
    }
}

/// The session to work with, or the reason there is none: no session, or
/// one that has expired.
pub fn require_session(session: Option<CachedSession>, now: i64) -> (r: Result<
    CachedSession,
    String,
>)
    ensures
        match session {
            Some(s) => if s.valid_at(now) {
                r == Ok::<CachedSession, String>(s)
            } else {
                r matches Err(m) && m@ == "Session expired. Please log in again."@
            },
            None => r matches Err(m) && m@ == "Not logged in. Please log in first."@,
        },
{
    match session {
        Some(s) => if s.is_valid_at(now) {
            Ok(s)
        } else {
            Err(String::from_str("Session expired. Please log in again."))
        },
        None => Err(String::from_str("Not logged in. Please log in first.")),
    }
}

/// Whether the game runs, and as which process.
#[derive(Debug, Clone, Copy, PartialEq, Eq, Structural)]
pub struct LaunchStatusDto {
    pub is_running: bool,
    pub pid: Option<u32>,
}

/// The launch status: the process on record if it still runs, else the
/// process found by name, else none.
pub fn launch_status(recorded: Option<u32>, recorded_runs: bool, found: Option<u32>) -> (d:
    LaunchStatusDto)
    ensures
        d == (if recorded is Some && recorded_runs {
            LaunchStatusDto { is_running: true, pid: recorded }
        } else if found is Some {
            LaunchStatusDto { is_running: true, pid: found }
        } else {
            LaunchStatusDto { is_running: false, pid: None }
        }),
{
    if recorded.is_some() && recorded_runs {
        LaunchStatusDto { is_running: true, pid: recorded }
    } else if found.is_some() {
        LaunchStatusDto { is_running: true, pid: found }
    } else {
        LaunchStatusDto { is_running: false, pid: None }
    }
}

/// What stands in the way of a launch, and what the player should know.
#[derive(Debug, Clone)]
pub struct PreflightResultDto {
    pub can_launch: bool,
    pub issues: Vec<String>,
    pub warnings: Vec<String>,
}

/// What the search for runners gave.
#[derive(Debug, Clone, Copy, PartialEq, Eq, Structural)]
pub enum RunnerSearch {
    /// A runner is set in the settings; none was searched.
    Configured,
    /// This many runners were found.
    Found(usize),
    Failed,
}

/// What the look at the session gave.
#[derive(Debug, Clone, Copy, PartialEq, Eq, Structural)]
pub enum SessionCheck {
    Valid,
    Expired,
    Missing,
    Failed,
}

/// What was seen before a launch.
#[derive(Debug, Clone, Copy, PartialEq, Eq, Structural)]
pub struct PreflightFacts {
    pub game_path_set: bool,
    pub game_exe_exists: bool,
    pub runners: RunnerSearch,
    pub session: SessionCheck,
    pub prefix_exists: bool,
}

/// The issues of a launch, in the order they are looked for. Without a
/// game path nothing else is looked at.
pub open spec fn preflight_issues(f: PreflightFacts) -> Seq<Seq<char>> {
    if !f.game_path_set {
        seq!["Game path not configured"@]
    } else {
        (if f.game_exe_exists {
            Seq::<Seq<char>>::empty()
        } else {
            seq!["Game executable not found (ffxiv_dx11.exe)"@]
        }) + (match f.runners {
            RunnerSearch::Found(n) => if n == 0 {
                seq!["No Wine/Proton runner detected"@]
            } else {
                Seq::empty()
            },
            RunnerSearch::Failed => seq!["Failed to detect Wine/Proton runners"@],
            RunnerSearch::Configured => Seq::empty(),
        }) + (match f.session {
            SessionCheck::Valid => Seq::<Seq<char>>::empty(),
            SessionCheck::Expired => seq!["Session expired - please login again"@],
            SessionCheck::Missing => seq!["Not logged in - valid session required"@],
            SessionCheck::Failed => seq!["Failed to check session status"@],
        })
    }
}

/// The warnings of a launch.
pub open spec fn preflight_warnings(f: PreflightFacts) -> Seq<Seq<char>> {
    if f.game_path_set && !f.prefix_exists {
        seq!["Wine prefix does not exist - will be created on first launch"@]
    } else {
        Seq::empty()
    }
}

/// Whether the game can be launched, and what stands in the way.
pub fn preflight_check(facts: PreflightFacts) -> (d: PreflightResultDto)
    ensures
        crate::text::strings(d.issues@) == preflight_issues(facts),
        crate::text::strings(d.warnings@) == preflight_warnings(facts),
        d.can_launch == (preflight_issues(facts).len() == 0),
{
    let mut issues: Vec<String> = Vec::new();
    let mut warnings: Vec<String> = Vec::new();
    if !facts.game_path_set {
        issues.push(String::from_str("Game path not configured"));
        assert(crate::text::strings(issues@) =~= preflight_issues(facts));
        assert(crate::text::strings(warnings@) =~= preflight_warnings(facts));
        return PreflightResultDto { can_launch: false, issues, warnings };
    }
    if !facts.game_exe_exists {
        issues.push(String::from_str("Game executable not found (ffxiv_dx11.exe)"));
    }
    match facts.runners {
        RunnerSearch::Found(n) => {
            if n == 0 {
                issues.push(String::from_str("No Wine/Proton runner detected"));
            }
        },
        RunnerSearch::Failed => {
            issues.push(String::from_str("Failed to detect Wine/Proton runners"));
        },
        RunnerSearch::Configured => {},
    }
    match facts.session {
        SessionCheck::Valid => {},
        SessionCheck::Expired => {
            issues.push(String::from_str("Session expired - please login again"));
        },
        SessionCheck::Missing => {
            issues.push(String::from_str("Not logged in - valid session required"));
        },
        SessionCheck::Failed => {
            issues.push(String::from_str("Failed to check session status"));
        },
    }
    if !facts.prefix_exists {
        warnings.push(
            String::from_str("Wine prefix does not exist - will be created on first launch"),
        );
    }
    assert(crate::text::strings(issues@) =~= preflight_issues(facts));
    assert(crate::text::strings(warnings@) =~= preflight_warnings(facts));
    let can_launch = issues.len() == 0;
    PreflightResultDto { can_launch, issues, warnings }
}

/// Where a patch run stands, as it is shown.
#[derive(Debug, Clone, Copy, PartialEq, Eq, Structural)]
pub enum PatchPhase {
    Idle,
    Downloading,
    Verifying,
    Applying,
    Completed,
    Failed,
    Cancelled,
}

impl PatchPhase {
    /// The phase that shows a state of a patch.
    pub open spec fn of_state(state: PatchState) -> PatchPhase {
        match state {
            PatchState::Pending => PatchPhase::Applying,
            PatchState::Downloading => PatchPhase::Downloading,
            PatchState::Verifying => PatchPhase::Verifying,
            PatchState::Installing => PatchPhase::Applying,
            PatchState::Completed => PatchPhase::Completed,
            PatchState::Failed => PatchPhase::Failed,
        }
    }

    pub fn from_state(state: PatchState) -> (p: PatchPhase)
        ensures
            p == PatchPhase::of_state(state),
    {
        match state {
            PatchState::Pending => PatchPhase::Applying,
            PatchState::Downloading => PatchPhase::Downloading,
            PatchState::Verifying => PatchPhase::Verifying,
            PatchState::Installing => PatchPhase::Applying,
            PatchState::Completed => PatchPhase::Completed,
            PatchState::Failed => PatchPhase::Failed,
        }
    }
}

/// Sent when a patch was applied.
#[derive(Debug, Clone)]
pub struct PatchCompletedEvent {
    pub index: usize,
    pub version_id: String,
    pub repository: String,
}

/// Sent when a patch run failed.
#[derive(Debug, Clone)]
pub struct PatchErrorEvent {
    pub message: String,
    pub recoverable: bool,
}

/// Short name of a repository.
pub open spec fn short_name(repo: Repository) -> Seq<char> {
    match repo {
        Repository::Boot => "Boot"@,
        Repository::Ffxiv => "FFXIV"@,
        Repository::Ex1 => "Ex1"@,
        Repository::Ex2 => "Ex2"@,
        Repository::Ex3 => "Ex3"@,
        Repository::Ex4 => "Ex4"@,
        Repository::Ex5 => "Ex5"@,
    }
}

/// Short name of a repository.
pub fn repository_name(repo: Repository) -> (s: &'static str)
    ensures
        s@ == short_name(repo),
{
    match repo {
        Repository::Boot => "Boot",
        Repository::Ffxiv => "FFXIV",
        Repository::Ex1 => "Ex1",
        Repository::Ex2 => "Ex2",
        Repository::Ex3 => "Ex3",
        Repository::Ex4 => "Ex4",
        Repository::Ex5 => "Ex5",
    }
}

/// Name of an expansion as shown to the player.
pub open spec fn expansion_name(expansion: u32) -> Seq<char> {
    if expansion == 1 {
        "Heavensward"@
    } else if expansion == 2 {
        "Stormblood"@
    } else if expansion == 3 {
        "Shadowbringers"@
    } else if expansion == 4 {
        "Endwalker"@
    } else if expansion == 5 {
        "Dawntrail"@
    } else {
        "Unknown"@
    }
}

/// Name of an expansion as shown to the player.
pub fn expansion_display_name(expansion: u32) -> (s: &'static str)
    ensures
        s@ == expansion_name(expansion),
{
    match expansion {
        1 => "Heavensward",
        2 => "Stormblood",
        3 => "Shadowbringers",
        4 => "Endwalker",
        5 => "Dawntrail",
        _ => "Unknown",
    }
}

/// A runner as it is shown.
#[derive(Debug, Clone)]
pub struct WineRunnerDto {
    pub path: String,
    pub name: String,
    pub runner_type: String,
    pub is_valid: bool,
}

impl From<WineRunner> for WineRunnerDto {
    fn from(runner: WineRunner) -> (d: Self)
        ensures
            d.path == runner.path,
            d.name == runner.name,
            d.runner_type@ == runner.runner_type.display_text(),
            d.is_valid == runner.is_valid,
    {
        WineRunnerDto {
            runner_type: runner.runner_type.to_string(),
            path: runner.path,
            name: runner.name,
            is_valid: runner.is_valid,
        }
    }
}

impl vstd::std_specs::convert::FromSpecImpl<WineRunner> for WineRunnerDto {
    open spec fn obeys_from_spec() -> bool {
        false
    }

    open spec fn from_spec(runner: WineRunner) -> Self {
        arbitrary()
    }
}

/// The version of an expansion as it is shown.
#[derive(Debug, Clone)]
pub struct ExpansionVersionDto {
    pub name: String,
    pub version: Option<String>,
    pub installed: bool,
}

/// The versions of an installation as they are shown.
#[derive(Debug, Clone)]
pub struct GameVersionsDto {
    pub boot: Option<String>,
    pub game: Option<String>,
    pub expansions: Vec<ExpansionVersionDto>,
    pub game_path_valid: bool,
}

/// The version that the version file of `repo` shows: its text without
/// white space around it, where the file is there and holds a version.
pub open spec fn shown_version(files: VersionFiles, repo: Repository) -> Option<Seq<char>> {
    if readable(files, repo) {
        Some(trim(files.content(repo).unwrap()@))
    } else {
        None
    }
}

fn version_text(files: &VersionFiles, repo: Repository) -> (r: Option<String>)
    ensures
        opt_text(r) == shown_version(*files, repo),
{
    match get_version("", files, repo) {
        Ok(v) => Some(v.to_string()),
        Err(_) => None,
    }
}

/// The versions of an installation as they are shown. Of an installation
/// that is not valid nothing is shown.
pub fn game_versions(valid: bool, files: &VersionFiles) -> (d: GameVersionsDto)
    ensures
        d.game_path_valid == valid,
        !valid ==> d.boot is None && d.game is None && d.expansions@.len() == 0,
        valid ==> opt_text(d.boot) == shown_version(*files, Repository::Boot) && opt_text(d.game)
            == shown_version(*files, Repository::Ffxiv) && d.expansions@.len() == 5 && (forall|
            k: int,
        |
            0 <= k < 5 ==> {
                let e = #[trigger] d.expansions@[k];
                let repo = Repository::of_expansion(k + 1).unwrap();
                &&& e.name@ == expansion_name((k + 1) as u32)
                &&& opt_text(e.version) == shown_version(*files, repo)
                &&& e.installed == readable(*files, repo)
            }),
{
    if !valid {
        return GameVersionsDto {
            boot: None,
            game: None,
            expansions: Vec::new(),
            game_path_valid: false,
        };
    }
    let boot = version_text(files, Repository::Boot);
    let game = version_text(files, Repository::Ffxiv);
    let mut expansions: Vec<ExpansionVersionDto> = Vec::new();
    let mut exp: u32 = 1;
    while exp <= 5
        invariant
            1 <= exp <= 6,
            expansions@.len() == exp - 1,
            forall|k: int|
                0 <= k < exp - 1 ==> {
                    let e = #[trigger] expansions@[k];
                    let repo = Repository::of_expansion(k + 1).unwrap();
                    &&& e.name@ == expansion_name((k + 1) as u32)
                    &&& opt_text(e.version) == shown_version(*files, repo)
                    &&& e.installed == readable(*files, repo)
                },
        decreases 6 - exp,
    {
        let repo = match Repository::from_expansion(exp) {
            Some(r) => r,
            None => Repository::Ffxiv,
        };
        let version = version_text(files, repo);
        let installed = version.is_some();
        expansions.push(
            ExpansionVersionDto {
                name: String::from_str(expansion_display_name(exp)),
                installed,
                version,
            },
        );
        exp += 1;
    }
    GameVersionsDto { boot, game, expansions, game_path_valid: true }
}

/// A patch as it is shown.
#[derive(Debug, Clone)]
pub struct PatchEntryDto {
    pub version_id: String,
    pub url: String,
    pub size_bytes: u64,
    pub repository: String,
}

/// The outcome of a check for updates as it is shown.
#[derive(Debug, Clone)]
pub struct UpdateCheckResultDto {
    pub has_updates: bool,
    pub patches: Vec<PatchEntryDto>,
    pub total_size_bytes: u64,
    pub error: Option<String>,
}

/// The outcome of a check that could not be made.
pub fn update_check_failed(message: &str) -> (d: UpdateCheckResultDto)
    ensures
        !d.has_updates,
        d.patches@.len() == 0,
        d.total_size_bytes == 0,
        opt_text(d.error) == Some(message@),
{
    UpdateCheckResultDto {
        has_updates: false,
        patches: Vec::new(),
        total_size_bytes: 0,
        error: Some(String::from_str(message)),
    }
}

/// The outcome of a check that listed `patches`.
pub fn update_check_dto(patches: &Vec<PatchEntry>) -> (d: UpdateCheckResultDto)
    ensures
        d.has_updates == (patches@.len() > 0),
        d.error is None,
        d.total_size_bytes == if total_length(patches@) > u64::MAX {
            u64::MAX as nat
        } else {
            total_length(patches@)
        },
        d.patches@.len() == patches@.len(),
        forall|k: int|
            0 <= k < patches@.len() ==> {
                let e = #[trigger] d.patches@[k];
                &&& e.version_id@ == patches@[k].version_id@
                &&& e.url@ == patches@[k].url@
                &&& e.size_bytes == patches@[k].length
                &&& e.repository@ == short_name(patches@[k].repository)
            },
{
    let mut list: Vec<PatchEntryDto> = Vec::new();
    let mut i: usize = 0;
    while i < patches.len()
        invariant
            i <= patches.len(),
            list@.len() == i,
            forall|k: int|
                0 <= k < i ==> {
                    let e = #[trigger] list@[k];
                    &&& e.version_id@ == patches@[k].version_id@
                    &&& e.url@ == patches@[k].url@
                    &&& e.size_bytes == patches@[k].length
                    &&& e.repository@ == short_name(patches@[k].repository)
                },
        decreases patches.len() - i,
    {
        let p = &patches[i];
        list.push(
            PatchEntryDto {
                version_id: p.version_id.clone(),
                url: p.url.clone(),
                size_bytes: p.length,
                repository: String::from_str(repository_name(p.repository)),
            },
        );
        i += 1;
    }
    UpdateCheckResultDto {
        has_updates: patches.len() > 0,
        patches: list,
        total_size_bytes: crate::patch::total_download_size(patches.as_slice()),
        error: None,
    }
}

/// Outcome of a check for updates of boot files and game.
#[derive(Debug, Clone)]
pub struct UpdateCheckResult {
    pub boot_patches: Vec<PatchEntry>,
    pub game_patches: Vec<PatchEntry>,
    pub unique_id: String,
    pub total_download_size: u64,
}

impl UpdateCheckResult {
    pub fn needs_update(&self) -> (r: bool)
        ensures
            r == (self.boot_patches@.len() > 0 || self.game_patches@.len() > 0),
    {
        self.boot_patches.len() > 0 || self.game_patches.len() > 0
    }

    pub fn needs_boot_update(&self) -> (r: bool)
        ensures
            r == (self.boot_patches@.len() > 0),
    {
        self.boot_patches.len() > 0
    }

    pub fn needs_game_update(&self) -> (r: bool)
        ensures
            r == (self.game_patches@.len() > 0),
    {
        self.game_patches.len() > 0
    }

    /// Number of patches, capped at the largest number.
    pub fn total_patches(&self) -> (n: usize)
        ensures
            n == if self.boot_patches@.len() + self.game_patches@.len() > usize::MAX {
                usize::MAX as nat
            } else {
                self.boot_patches@.len() + self.game_patches@.len()
            },
    {
        self.boot_patches.len().saturating_add(self.game_patches.len())
    }

    /// The outcome for the patches that the two checks listed.
    pub fn new(boot_patches: Vec<PatchEntry>, game_patches: Vec<PatchEntry>, unique_id: String) -> (r:
        Self)
        ensures
            r.boot_patches == boot_patches,
            r.game_patches == game_patches,
            r.unique_id == unique_id,
            r.total_download_size == ({
                let sum = crate::patch::total_length(boot_patches@) + crate::patch::total_length(
                    game_patches@,
                );
                if sum > u64::MAX {
                    u64::MAX as nat
                } else {
                    sum
                }
            }),
    {
        let a = crate::patch::total_download_size(boot_patches.as_slice());
        let b = crate::patch::total_download_size(game_patches.as_slice());
        UpdateCheckResult {
            total_download_size: a.saturating_add(b),
            boot_patches,
            game_patches,
            unique_id,
        }
    }
}

} // verus!
