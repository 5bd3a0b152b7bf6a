//! Where the files of the launcher stand.

use vstd::prelude::*;
use crate::entities::Repository;
use crate::text::{chars_of, join_path, joined};

verus! {

/// The accounts file in a configuration directory.
#[derive(Debug, Clone)]
pub struct FileAccountRepository {
    pub store_path: String,
}

impl FileAccountRepository {
    pub fn new(config_dir: &str) -> (r: Self)
        ensures
            r.store_path@ == join_path(config_dir@, "accounts.json"@),
    {
        let name = chars_of("accounts.json");
        FileAccountRepository { store_path: joined(config_dir, name.as_slice()) }
    }
}

/// The settings file in a configuration directory.
#[derive(Debug, Clone)]
pub struct FileConfigRepository {
    config_path: String,
}

impl FileConfigRepository {
    pub closed spec fn path(self) -> Seq<char> {
        self.config_path@
    }

    pub fn new(config_dir: &str) -> (r: Self)
        ensures
            r.path() == join_path(config_dir@, "config.toml"@),
    {
        let name = chars_of("config.toml");
        FileConfigRepository { config_path: joined(config_dir, name.as_slice()) }
    }

    /// The place of the settings file.
    pub fn config_path(&self) -> (p: &String)
        ensures
            p@ == self.path(),
    {
        &self.config_path
    }
}

/// The version files of installations.
#[derive(Debug, Clone, Copy)]
pub struct FileVersionRepository;

impl Default for FileVersionRepository {
    fn default() -> Self {
        FileVersionRepository
    }
}

impl FileVersionRepository {
    pub fn new() -> Self {
        FileVersionRepository
    }

    /// The place of the version file of `repo` under `game_path`.
    pub fn version_file_path(game_path: &str, repo: Repository) -> (p: String)
        ensures
            p@ == join_path(game_path@, repo.file_path_text()),
    {
        let rel = chars_of(repo.version_file_path());
        joined(game_path, rel.as_slice())
    }
}

} // verus!
