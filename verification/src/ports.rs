//! The services the core is built on. The core decides; these do the work
//! on disk, on the network and in the keychain. Paths are passed as text.

use vstd::prelude::*;
use crate::account::{Account, AccountId, Credentials};
use crate::config::{GameSettings, Region, Settings, WineSettings};
use crate::entities::{
    Banner, FileIntegrityResult, Headlines, NewsArticle, OauthLoginResult, PatchEntry,
    PatchProgress, WineRunner,
};
use crate::entities::Repository;
use crate::error::Error;
use crate::integrity::IntegrityManifest;
use crate::session::CachedSession;
use crate::version::GameVersion;
use crate::zipatch::ZiPatchChunk;

verus! {

/// The news shown in the launcher.
pub trait NewsRepository {
    fn get_headlines(&self, language: &str) -> Result<Headlines, Error>;

    fn get_banners(&self, language: &str) -> Result<Vec<Banner>, Error>;

    fn get_article(&self, url: &str) -> Result<NewsArticle, Error>;
}

/// The version files of an installation.
pub trait VersionRepository {
    /// The version in the version file of `repo`.
    fn get_version(&self, game_path: &str, repo: Repository) -> Result<GameVersion, Error>;

    /// Writes the version file of `repo`, keeping a copy of the old file.
    fn set_version(&self, game_path: &str, repo: Repository, version: &str) -> Result<(), Error>;

    /// The digest line of the boot executables.
    fn get_boot_version_hash(&self, game_path: &str) -> Result<String, Error>;

    /// The version report of the game repositories up to `max_expansion`.
    fn get_version_report(&self, game_path: &str, max_expansion: u32) -> Result<String, Error>;

    /// Whether the installation is complete enough to update.
    fn validate_game_installation(&self, game_path: &str) -> Result<bool, Error>;
}

/// The patch servers.
pub trait PatchServer {
    /// The boot patches to apply on top of `boot_version`.
    fn check_boot_version(&self, game_path: &str, boot_version: &GameVersion) -> Result<
        Vec<PatchEntry>,
        Error,
    >;

    /// Registers the session; gives the handle for downloads and the game
    /// patches to apply.
    fn register_session(&self, session_id: &str, game_path: &str, max_expansion: u32) -> Result<
        (String, Vec<PatchEntry>),
        Error,
    >;
}

/// The download of patch files.
pub trait PatchDownloader {
    /// Downloads the file of `patch` to `dest_path`.
    fn download_patch(&self, patch: &PatchEntry, dest_path: &str, unique_id: Option<&str>) -> Result<
        (),
        Error,
    >;

    /// Whether the file at `file_path` is the patch that `patch` describes.
    fn verify_patch(&self, patch: &PatchEntry, file_path: &str) -> Result<bool, Error>;
}

/// The application of patch files.
pub trait ZiPatchApplier {
    fn apply_patch(&self, patch_path: &str, game_path: &str) -> Result<(), Error>;

    fn parse_patch(&self, patch_path: &str) -> Result<Vec<ZiPatchChunk>, Error>;
}

/// The check of the installation against a manifest.
pub trait IntegrityChecker {
    fn fetch_manifest(&self, game_version: &str) -> Result<IntegrityManifest, Error>;

    fn check_integrity(&self, game_path: &str, manifest: &IntegrityManifest) -> Result<
        Vec<FileIntegrityResult>,
        Error,
    >;

    fn repair_file(&self, game_path: &str, relative_path: &str, expected_hash: &str) -> Result<
        (),
        Error,
    >;

    /// Repairs the files; gives the numbers of successes and of failures.
    fn repair_files(&self, game_path: &str, files: &Vec<FileIntegrityResult>) -> Result<
        (u32, u32),
        Error,
    >;
}

/// The connection to the patch worker.
pub trait PatcherIpc {
    fn start_patch(&self, patches: Vec<PatchEntry>, game_path: &str) -> Result<(), Error>;

    /// The next progress of the worker; nothing where there is none yet or
    /// where the worker is done.
    fn receive_progress(&self) -> Result<Option<PatchProgress>, Error>;

    fn cancel(&self) -> Result<(), Error>;

    fn is_running(&self) -> bool;
}

pub trait RunnerDetector {
    fn detect_runners(&self) -> Result<Vec<WineRunner>, Error>;

    fn validate_runner(&self, path: String) -> Result<WineRunner, Error>;
}

pub trait RunnerManager {
    fn install_latest_ge_proton(&self) -> Result<WineRunner, Error>;
}

pub trait PrefixManager {
    /// Whether the prefix is set up.
    fn is_initialized(&self, prefix_path: &str) -> bool;

    fn initialize(&self, prefix_path: &str, runner: &WineRunner) -> Result<(), Error>;
}

/// What a launch needs.
pub struct LaunchConfig<'a> {
    pub runner: &'a WineRunner,
    pub prefix_path: &'a str,
    pub game_path: &'a str,
    pub args: &'a str,
    pub wine_settings: &'a WineSettings,
    pub game_settings: &'a GameSettings,
}

pub trait ProcessLauncher {
    fn launch(&self, config: LaunchConfig<'_>) -> Result<(), Error>;
}

/// The keychain: passwords and sessions by account.
pub trait CredentialStore {
    fn store_password(&self, account_id: &AccountId, password: &str) -> Result<(), Error>;

    /// The password of the account; nothing where none is kept.
    fn get_password(&self, account_id: &AccountId) -> Result<Option<String>, Error>;

    fn delete_password(&self, account_id: &AccountId) -> Result<(), Error>;

    fn store_session(&self, account_id: &AccountId, session: &CachedSession) -> Result<(), Error>;

    /// The session of the account; nothing where none is kept.
    fn get_session(&self, account_id: &AccountId) -> Result<Option<CachedSession>, Error>;

    fn delete_session(&self, account_id: &AccountId) -> Result<(), Error>;

    fn has_credentials(&self, account_id: &AccountId) -> Result<bool, Error>;
}

/// The accounts on record.
pub trait AccountRepository {
    fn list_accounts(&self) -> Result<Vec<Account>, Error>;

    fn get_account(&self, id: &AccountId) -> Result<Option<Account>, Error>;

    fn save_account(&self, account: &Account) -> Result<(), Error>;

    fn delete_account(&self, id: &AccountId) -> Result<(), Error>;

    fn get_default_account(&self) -> Result<Option<Account>, Error>;

    fn set_default_account(&self, id: &AccountId) -> Result<(), Error>;
}

/// The settings on disk.
pub trait ConfigRepository {
    fn load_settings(&self) -> Result<Settings, Error>;

    fn save_settings(&self, settings: &Settings) -> Result<(), Error>;

    /// Whether the settings file is there.
    fn is_present(&self) -> bool;
}

/// The account server.
pub trait Authenticator {
    fn login(&self, credentials: &Credentials, region: Region, is_free_trial: bool) -> Result<
        OauthLoginResult,
        Error,
    >;
}

} // verus!
