//! Telling whether a directory holds an installation of the game.

use vstd::prelude::*;
use crate::text::{chars_of, join_path, joined};

verus! {

/// Whether a path is an installation, and why not.
#[derive(Debug, Clone)]
pub struct ValidationResult {
    pub valid: bool,
    pub message: String,
}

/// What was seen at a path.
#[derive(Debug, Clone, Copy, PartialEq, Eq, Structural)]
pub struct GamePathFacts {
    /// Something is there.
    pub exists: bool,
    /// It is a directory.
    pub is_dir: bool,
    /// It holds `boot`.
    pub has_boot_dir: bool,
    /// It holds `game`.
    pub has_game_dir: bool,
    /// It holds `boot/ffxivboot.ver`.
    pub has_boot_version: bool,
}

/// The verdict on a path: the first thing that is missing, or none.
pub open spec fn verdict(f: GamePathFacts) -> Seq<char> {
    if !f.exists {
        "Path does not exist"@
    } else if !f.is_dir {
        "Path is not a directory"@
    } else if !f.has_boot_dir {
        "Missing 'boot' directory - not a valid FFXIV installation"@
    } else if !f.has_game_dir {
        "Missing 'game' directory - not a valid FFXIV installation"@
    } else if !f.has_boot_version {
        "Missing boot version file - game may need to be installed first"@
    } else {
        "Valid FFXIV installation found"@
    }
}

/// Whether a directory looks like an installation.
pub fn is_valid_game_path(facts: GamePathFacts) -> (r: bool)
    ensures
        r == (facts.exists && facts.is_dir && facts.has_boot_dir && facts.has_game_dir
            && facts.has_boot_version),
{
    facts.exists && facts.is_dir && facts.has_boot_dir && facts.has_game_dir
        && facts.has_boot_version
}

/// Whether a directory is an installation, with the reason where not.
pub fn validate_game_path(facts: GamePathFacts) -> (r: ValidationResult)
    ensures
        r.valid == (facts.exists && facts.is_dir && facts.has_boot_dir && facts.has_game_dir
            && facts.has_boot_version),
        r.message@ == verdict(facts),
{
    if !facts.exists {
        ValidationResult { valid: false, message: String::from_str("Path does not exist") }
    } else if !facts.is_dir {
        ValidationResult { valid: false, message: String::from_str("Path is not a directory") }
    } else if !facts.has_boot_dir {
        ValidationResult {
            valid: false,
            message: String::from_str("Missing 'boot' directory - not a valid FFXIV installation"),
        }
    } else if !facts.has_game_dir {
        ValidationResult {
            valid: false,
            message: String::from_str("Missing 'game' directory - not a valid FFXIV installation"),
        }
    } else if !facts.has_boot_version {
        ValidationResult {
            valid: false,
            message: String::from_str(
                "Missing boot version file - game may need to be installed first",
            ),
        }
    } else {
        ValidationResult {
            valid: true,
            message: String::from_str("Valid FFXIV installation found"),
        }
    }
}

/// The places under the home directory where an installation is looked
/// for, in order.
pub open spec fn install_place(i: int) -> Seq<char> {
    if i == 0 {
        ".local/share/Steam/steamapps/common/FINAL FANTASY XIV Online"@
    } else if i == 1 {
        ".local/share/Steam/steamapps/common/FINAL FANTASY XIV - A Realm Reborn"@
    } else if i == 2 {
        "Games/final-fantasy-xiv-online"@
    } else if i == 3 {
        "Games/ffxiv"@
    } else {
        ".xlcore/ffxiv"@
    }
}

/// The places under `home` where an installation is looked for.
pub fn install_candidates(home: &str) -> (c: Vec<String>)
    ensures
        c@.len() == 5,
        forall|i: int| 0 <= i < 5 ==> (#[trigger] c@[i])@ == join_path(home@, install_place(i)),
{
    let mut c: Vec<String> = Vec::new();
    let steam = chars_of(".local/share/Steam/steamapps/common/FINAL FANTASY XIV Online");
    c.push(joined(home, steam.as_slice()));
    let realm = chars_of(".local/share/Steam/steamapps/common/FINAL FANTASY XIV - A Realm Reborn");
    c.push(joined(home, realm.as_slice()));
    let lutris = chars_of("Games/final-fantasy-xiv-online");
    c.push(joined(home, lutris.as_slice()));
    let manual = chars_of("Games/ffxiv");
    c.push(joined(home, manual.as_slice()));
    let xlcore = chars_of(".xlcore/ffxiv");
    c.push(joined(home, xlcore.as_slice()));
    c
}

/// Where a new installation goes: `Games/ffxiv` under the home directory,
/// or under the current directory where there is no home directory.
pub fn get_default_install_path(home: Option<&str>) -> (p: String)
    ensures
        p@ == (match home {
            Some(h) => join_path(h@, "Games/ffxiv"@),
            None => "Games/ffxiv"@,
        }),
{
    match home {
        Some(h) => {
            let rel = chars_of("Games/ffxiv");
            joined(h, rel.as_slice())
        },
        None => String::from_str("Games/ffxiv"),
    }
}

/// Whether a Wine prefix is set up: its three registry files and its drive
/// are there.
pub fn prefix_exists(system_reg: bool, user_reg: bool, userdef_reg: bool, drive_c: bool) -> (r:
    bool)
    ensures
        r == (system_reg && user_reg && userdef_reg && drive_c),
{
    system_reg && user_reg && userdef_reg && drive_c
}

/// Keeper of Wine prefixes.
#[derive(Debug, Clone, Copy)]
pub struct LinuxPrefixManager;

impl LinuxPrefixManager {
    pub fn new() -> Self {
        LinuxPrefixManager
    }
}

impl Default for LinuxPrefixManager {
    fn default() -> Self {
        LinuxPrefixManager
    }
}

} // verus!
