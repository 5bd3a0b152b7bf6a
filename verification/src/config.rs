//! Launcher settings and the identifiers the game client expects for them.

use vstd::prelude::*;

verus! {

/// Service region of an account.
#[derive(Debug, Clone, Copy, PartialEq, Eq, Structural)]
pub enum Region {
    Japan,
    NorthAmerica,
    Europe,
}

impl Region {
    /// Number the game client uses for this region.
    pub open spec fn id(self) -> u32 {
        match self {
            Region::Japan => 1,
            Region::NorthAmerica => 2,
            Region::Europe => 3,
        }
    }

    pub fn as_id(self) -> (id: u32)
        ensures
            id == self.id(),
    {
        match self {
            Region::Japan => 1,
            Region::NorthAmerica => 2,
            Region::Europe => 3,
        }
    }
}

impl Default for Region {
    fn default() -> (r: Self)
        ensures
            r == Region::Europe,
    {
        Region::Europe
    }
}

/// Language of the game client.
#[derive(Debug, Clone, Copy, PartialEq, Eq, Structural)]
pub enum Language {
    Japanese,
    English,
    German,
    French,
}

impl Language {
    /// Number the game client uses for this language.
    pub open spec fn id(self) -> u32 {
        match self {
            Language::Japanese => 0,
            Language::English => 1,
            Language::German => 2,
            Language::French => 3,
        }
    }

    pub fn as_id(self) -> (id: u32)
        ensures
            id == self.id(),
    {
        match self {
            Language::Japanese => 0,
            Language::English => 1,
            Language::German => 2,
            Language::French => 3,
        }
    }
}

impl Default for Language {
    fn default() -> (r: Self)
        ensures
            r == Language::English,
    {
        Language::English
    }
}

/// Options of the gamescope compositor.
#[derive(Debug, Clone)]
pub struct GamescopeSettings {
    pub width: Option<u32>,
    pub height: Option<u32>,
    pub refresh_rate: Option<u32>,
    pub fullscreen: bool,
    pub borderless: bool,
    pub extra_args: Option<String>,
}

impl Default for GamescopeSettings {
    fn default() -> (s: Self)
        ensures
            s.width is None,
            s.height is None,
            s.refresh_rate is None,
            !s.fullscreen,
            !s.borderless,
            s.extra_args is None,
    {
        GamescopeSettings {
            width: None,
            height: None,
            refresh_rate: None,
            fullscreen: false,
            borderless: false,
            extra_args: None,
        }
    }
}

/// Settings of the game. The path is kept as text.
#[derive(Debug, Clone)]
pub struct GameSettings {
    pub path: Option<String>,
    pub region: Region,
    pub language: Language,
    pub gamemode: bool,
    pub mangohud: bool,
    pub gamescope: bool,
    pub gamescope_settings: GamescopeSettings,
}

impl Default for GameSettings {
    fn default() -> (s: Self)
        ensures
            s.path is None,
            s.region == Region::Europe,
            s.language == Language::English,
            s.gamemode,
            !s.mangohud,
            !s.gamescope,
    {
        GameSettings {
            path: None,
            region: Region::Europe,
            language: Language::English,
            gamemode: true,
            mangohud: false,
            gamescope: false,
            gamescope_settings: GamescopeSettings::default(),
        }
    }
}

/// Settings of Wine. Paths are kept as text.
#[derive(Debug, Clone)]
pub struct WineSettings {
    pub runner_path: Option<String>,
    pub prefix_path: Option<String>,
    pub esync: bool,
    pub fsync: bool,
    pub winesync: bool,
    pub dxvk_hud: Option<String>,
}

impl Default for WineSettings {
    fn default() -> (s: Self)
        ensures
            s.runner_path is None,
            s.prefix_path is None,
            s.esync,
            s.fsync,
            !s.winesync,
            s.dxvk_hud is None,
    {
        WineSettings {
            runner_path: None,
            prefix_path: None,
            esync: true,
            fsync: true,
            winesync: false,
            dxvk_hud: None,
        }
    }
}

/// All settings of the launcher.
#[derive(Debug, Clone)]
pub struct Settings {
    pub game: GameSettings,
    pub wine: WineSettings,
    pub log_level: String,
}

impl Default for Settings {
    fn default() -> (s: Self)
        ensures
            s.log_level@ == "info"@,
            s.game.region == Region::Europe,
            s.game.language == Language::English,
            s.game.gamemode && !s.game.mangohud && !s.game.gamescope,
            s.wine.esync && s.wine.fsync && !s.wine.winesync,
            s.wine.dxvk_hud is None,
    {
        Settings {
            game: GameSettings::default(),
            wine: WineSettings::default(),
            log_level: String::from_str("info"),
        }
    }
}

/// Time allowed for a whole request, in seconds.
pub const DEFAULT_TIMEOUT_SECS: u64 = 30;

/// Time allowed for connecting, in seconds.
pub const DEFAULT_CONNECT_TIMEOUT_SECS: u64 = 10;

/// The user agent of all patch traffic.
pub const PATCHER_USER_AGENT: &'static str = "FFXIV PATCH CLIENT";

} // verus!
