use gaveloc::config::{GameSettings, GamescopeSettings, WineSettings};
use gaveloc::entities::RunnerType;
use gaveloc::error::Error;
use gaveloc::game_detection::{
    get_default_install_path, install_candidates, is_valid_game_path, prefix_exists,
    validate_game_path, GamePathFacts, LinuxPrefixManager,
};
use gaveloc::process::{
    build_environment, build_wrapper_args, launch_command, split_launch_args, split_whitespace,
    LinuxProcessLauncher,
};
use gaveloc::runner::{
    detected_runner, expand_home, find_wine_binary, parse_library_paths_from_vdf, unescape,
    validate_runner, LinuxRunnerDetector, LinuxRunnerManager, RunnerSource,
};

#[test]
fn test_prefix_manager_new() {
    let _ = LinuxPrefixManager::new();
}

#[test]
fn test_runner_detector_new() {
    let _ = LinuxRunnerDetector::new();
}

#[test]
fn test_runner_manager_new() {
    let _ = LinuxRunnerManager::new();
}

#[test]
fn test_process_launcher_new() {
    let _ = LinuxProcessLauncher::new();
}

#[test]
fn test_expand_home() {
    // Test with no expansion needed
    assert_eq!(expand_home("/absolute/path", Some("/tmp/home_test")), Some("/absolute/path".to_string()));

    // Test with ~ expansion
    assert_eq!(
        expand_home("~/relative/path", Some("/tmp/home_test")),
        Some("/tmp/home_test/relative/path".to_string())
    );
    assert_eq!(expand_home("~", Some("/h")), Some("/h/".to_string()));
    assert_eq!(expand_home("~x", Some("/h/")), Some("/h/x".to_string()));
    assert_eq!(expand_home("~//x", Some("/h")), Some("/h//x".to_string()));
    assert_eq!(expand_home("~/x", None), None);
    assert_eq!(expand_home("x/~", None), Some("x/~".to_string()));
    assert_eq!(expand_home("", None), Some(String::new()));
}

#[test]
fn test_parse_vdf_cases() {
    let cases: Vec<(&str, Vec<&str>)> = vec![
        ("", vec![]),
        ("// comment only", vec![]),
        (r#""key"         "value""#, vec![]),
        (r#""path"         C:\path\to\broken"#, vec![]),
        (r#""path"		"/home/steam""#, vec!["/home/steam"]),
        (
            r#""path"		"C:\\Program Files (x86)\\SteamLibrary""#,
            vec!["C:\\Program Files (x86)\\SteamLibrary"],
        ),
        (r#""path" """#, vec![]),
        (r#"  "path""x"  "#, vec!["x"]),
        (r#""path"x"y"z"#, vec!["y"]),
    ];
    for (input, expected) in cases {
        let paths = parse_library_paths_from_vdf(input);
        assert_eq!(paths, expected, "for {:?}", input);
    }
}

#[test]
fn test_parse_vdf_multiple_paths() {
    let content = r#"
        // This is a comment

        "path"		"/path/to/library1"
        // Another comment
        "path"         "/path/to/library2"
        "#;
    let paths = parse_library_paths_from_vdf(content);
    assert_eq!(paths.len(), 2);
    assert!(paths.contains(&"/path/to/library1".to_string()));
    assert!(paths.contains(&"/path/to/library2".to_string()));
    assert_eq!(paths, vec!["/path/to/library1", "/path/to/library2"]);
}

#[test]
fn test_unescape() {
    let un = |s: &str| -> String {
        let v: Vec<char> = s.chars().collect();
        unescape(&v).into_iter().collect()
    };
    assert_eq!(un(r"a\\b"), r"a\b");
    assert_eq!(un(r"\\\\"), r"\\");
    assert_eq!(un(r"\\\"), r"\\");
    assert_eq!(un(r"\"), r"\");
    assert_eq!(un(""), "");
    assert_eq!(un(r"a\b"), r"a\b");
    for s in [r"x\\y\\\z", r"\\", r"\\\\\", "plain"] {
        assert_eq!(un(s), s.replace("\\\\", "\\"));
    }
}

#[test]
fn test_find_wine_binary() {
    assert_eq!(find_wine_binary("/r", true, true, true), Some("/r/files/bin/wine".to_string()));
    assert_eq!(find_wine_binary("/r", false, true, true), Some("/r/dist/bin/wine".to_string()));
    assert_eq!(find_wine_binary("/r/", false, false, true), Some("/r/bin/wine".to_string()));
    assert_eq!(find_wine_binary("/r", false, false, false), None);
}

#[test]
fn test_detected_runners() {
    let r = detected_runner(RunnerSource::System, "/usr/bin/wine", "", "");
    assert_eq!((r.name.as_str(), r.runner_type, r.is_valid), ("System Wine", RunnerType::System, true));
    assert_eq!(r.path, "/usr/bin/wine");
    let name = |source, group: &str, name: &str| {
        let r = detected_runner(source, "/p", group, name);
        (r.name, r.runner_type)
    };
    assert_eq!(name(RunnerSource::Lutris, "", "wine-ge-8-26"), ("Lutris - wine-ge-8-26".to_string(), RunnerType::Lutris));
    assert_eq!(name(RunnerSource::Proton, "", "GE-Proton9-1"), ("Proton - GE-Proton9-1".to_string(), RunnerType::Proton));
    assert_eq!(name(RunnerSource::Gaveloc, "", "GE-Proton9-1"), ("Gaveloc - GE-Proton9-1".to_string(), RunnerType::GavelocManaged));
    assert_eq!(name(RunnerSource::HeroicWine, "", "W"), ("Heroic (Wine) - W".to_string(), RunnerType::Custom));
    assert_eq!(name(RunnerSource::HeroicProton, "", "P"), ("Heroic (Proton) - P".to_string(), RunnerType::Proton));
    assert_eq!(name(RunnerSource::Bottles, "wine", "caffe-9.5"), ("Bottles (wine) - caffe-9.5".to_string(), RunnerType::Custom));
}

#[test]
fn test_validate_runner() {
    let runner = validate_runner("/opt/wine/bin/wine", true).unwrap();
    assert_eq!(runner.path, "/opt/wine/bin/wine");
    assert_eq!(runner.runner_type, RunnerType::Custom);
    assert_eq!(runner.name, "Custom Runner");
    match validate_runner("/nonexistent/wine", false) {
        Err(Error::RunnerNotFound(p)) => assert_eq!(p, "/nonexistent/wine"),
        other => panic!("expected RunnerNotFound, got {:?}", other),
    }
}

fn base_settings() -> GameSettings {
    GameSettings {
        gamemode: false,
        mangohud: false,
        gamescope: false,
        gamescope_settings: GamescopeSettings::default(),
        ..Default::default()
    }
}

#[test]
fn test_wrapper_empty() {
    assert!(build_wrapper_args(&base_settings()).is_empty());
}

#[test]
fn test_wrapper_gamemode() {
    let mut s = base_settings();
    s.gamemode = true;
    assert_eq!(build_wrapper_args(&s), vec!["gamemoderun"]);
}

#[test]
fn test_wrapper_mangohud() {
    let mut s = base_settings();
    s.mangohud = true;
    assert_eq!(build_wrapper_args(&s), vec!["mangohud"]);
}

#[test]
fn test_wrapper_multiple() {
    let mut s = base_settings();
    s.gamemode = true;
    s.mangohud = true;
    assert_eq!(build_wrapper_args(&s), vec!["gamemoderun", "mangohud"]);
}

#[test]
fn test_wrapper_gamescope_basic() {
    let mut s = base_settings();
    s.gamescope = true;
    assert_eq!(build_wrapper_args(&s), vec!["gamescope", "--"]);
}

#[test]
fn test_wrapper_gamescope_with_options() {
    let mut s = base_settings();
    s.gamescope = true;
    s.gamescope_settings = GamescopeSettings {
        width: Some(1920),
        height: Some(1080),
        refresh_rate: Some(144),
        fullscreen: true,
        borderless: false,
        extra_args: Some("--rt".to_string()),
    };

    let args = build_wrapper_args(&s);
    assert_eq!(
        args,
        vec!["gamescope", "-W", "1920", "-H", "1080", "-r", "144", "-f", "--rt", "--"]
    );
}

#[test]
fn test_gamescope_full_args_snapshot() {
    let settings = GameSettings {
        gamemode: false,
        mangohud: false,
        gamescope: true,
        gamescope_settings: GamescopeSettings {
            width: Some(2560),
            height: Some(1440),
            refresh_rate: Some(165),
            fullscreen: true,
            borderless: false,
            extra_args: Some("--rt --hdr-enabled".to_string()),
        },
        ..Default::default()
    };
    assert_eq!(
        build_wrapper_args(&settings),
        vec!["gamescope", "-W", "2560", "-H", "1440", "-r", "165", "-f", "--rt", "--hdr-enabled", "--"]
    );
}

#[test]
fn test_all_wrappers_snapshot() {
    let settings = GameSettings {
        gamemode: true,
        mangohud: true,
        gamescope: true,
        gamescope_settings: GamescopeSettings {
            width: Some(1920),
            height: Some(1080),
            refresh_rate: Some(60),
            fullscreen: false,
            borderless: true,
            extra_args: None,
        },
        ..Default::default()
    };
    assert_eq!(
        build_wrapper_args(&settings),
        vec!["gamemoderun", "mangohud", "gamescope", "-W", "1920", "-H", "1080", "-r", "60", "-b", "--"]
    );
}

#[test]
fn test_wrapper_extra_args_quoted_and_malformed() {
    let mut s = base_settings();
    s.gamescope = true;
    s.gamescope_settings.extra_args = Some("--name 'a b' \"c d\"".to_string());
    assert_eq!(build_wrapper_args(&s), vec!["gamescope", "--name", "a b", "c d", "--"]);
    // a quote left open: the extra arguments are dropped
    s.gamescope_settings.extra_args = Some("--name 'a b".to_string());
    assert_eq!(build_wrapper_args(&s), vec!["gamescope", "--"]);
    // without gamescope its settings are not used
    s.gamescope = false;
    s.gamescope_settings.width = Some(1);
    assert!(build_wrapper_args(&s).is_empty());
}

#[test]
fn test_split_launch_args() {
    assert_eq!(split_launch_args("a=1 b='two words' 'c d' e"), vec!["a=1", "b=two words", "c d", "e"]);
    // malformed: split at white space
    assert_eq!(split_launch_args(" a=1   b='two words\tc\n"), vec!["a=1", "b='two", "words", "c"]);
    assert!(split_launch_args("").is_empty());
    let words = |s: &str| -> Vec<String> {
        let v: Vec<char> = s.chars().collect();
        split_whitespace(&v).into_iter().map(|w| w.into_iter().collect()).collect()
    };
    for s in ["", " ", "a", " a", "a ", "a  b", "\ta\u{3000}b c\n", "  x  yy   zzz  "] {
        let expected: Vec<String> = s.split_whitespace().map(|w| w.to_string()).collect();
        assert_eq!(words(s), expected, "for {:?}", s);
    }
}

#[test]
fn test_environment() {
    let wine = WineSettings::default();
    let env = build_environment("/pfx", &wine);
    let pairs: Vec<(&str, &str)> = env.iter().map(|v| (v.name.as_str(), v.value.as_str())).collect();
    assert_eq!(
        pairs,
        vec![("WINEPREFIX", "/pfx"), ("WINEARCH", "win64"), ("WINEESYNC", "1"), ("WINEFSYNC", "1")]
    );
    let all = WineSettings {
        runner_path: None,
        prefix_path: None,
        esync: false,
        fsync: false,
        winesync: true,
        dxvk_hud: Some("fps".to_string()),
    };
    let env = build_environment("/pfx", &all);
    let pairs: Vec<(&str, &str)> = env.iter().map(|v| (v.name.as_str(), v.value.as_str())).collect();
    assert_eq!(
        pairs,
        vec![("WINEPREFIX", "/pfx"), ("WINEARCH", "win64"), ("WINEFSYNC_FUTEX2", "1"), ("DXVK_HUD", "fps")]
    );
}

#[test]
fn test_launch_command() {
    let mut game = base_settings();
    let wine = WineSettings::default();
    let cmd = launch_command("/r/bin/wine", "/pfx", "/g/game/ffxiv_dx11.exe", "DEV.A=1 ver=2", &wine, &game);
    assert_eq!(cmd.program, "/r/bin/wine");
    assert_eq!(cmd.args, vec!["/g/game/ffxiv_dx11.exe", "DEV.A=1", "ver=2"]);
    assert_eq!(cmd.env.len(), 4);
    game.gamemode = true;
    game.gamescope = true;
    let cmd = launch_command("/r/bin/wine", "/pfx", "/g/game/ffxiv_dx11.exe", "", &wine, &game);
    assert_eq!(cmd.program, "gamemoderun");
    assert_eq!(cmd.args, vec!["gamescope", "--", "/r/bin/wine", "/g/game/ffxiv_dx11.exe"]);
}

fn facts(exists: bool, is_dir: bool, boot: bool, game: bool, ver: bool) -> GamePathFacts {
    GamePathFacts {
        exists,
        is_dir,
        has_boot_dir: boot,
        has_game_dir: game,
        has_boot_version: ver,
    }
}

#[test]
fn test_validate_game_path() {
    let cases = [
        (facts(false, true, true, true, true), "Path does not exist"),
        (facts(true, false, true, true, true), "Path is not a directory"),
        (facts(true, true, false, false, false), "Missing 'boot' directory - not a valid FFXIV installation"),
        (facts(true, true, true, false, true), "Missing 'game' directory - not a valid FFXIV installation"),
        (facts(true, true, true, true, false), "Missing boot version file - game may need to be installed first"),
    ];
    for (f, message) in cases {
        let r = validate_game_path(f);
        assert!(!r.valid);
        assert_eq!(r.message, message);
        assert!(!is_valid_game_path(f));
    }
    let ok = validate_game_path(facts(true, true, true, true, true));
    assert!(ok.valid);
    assert_eq!(ok.message, "Valid FFXIV installation found");
    assert!(is_valid_game_path(facts(true, true, true, true, true)));
}

#[test]
fn test_install_places() {
    assert_eq!(get_default_install_path(Some("/home/u")), "/home/u/Games/ffxiv");
    assert_eq!(get_default_install_path(None), "Games/ffxiv");
    assert_eq!(
        install_candidates("/home/u"),
        vec![
            "/home/u/.local/share/Steam/steamapps/common/FINAL FANTASY XIV Online",
            "/home/u/.local/share/Steam/steamapps/common/FINAL FANTASY XIV - A Realm Reborn",
            "/home/u/Games/final-fantasy-xiv-online",
            "/home/u/Games/ffxiv",
            "/home/u/.xlcore/ffxiv",
        ]
    );
}

#[test]
fn test_exists_all_markers_present() {
    assert!(prefix_exists(true, true, true, true));
}

#[test]
fn test_exists_missing_marker_file() {
    assert!(!prefix_exists(true, true, false, true));
    assert!(!prefix_exists(true, false, true, true));
    assert!(!prefix_exists(false, true, true, true));
}

#[test]
fn test_exists_missing_drive_c() {
    assert!(!prefix_exists(true, true, true, false));
}

#[test]
fn test_exists_empty_prefix_path() {
    assert!(!prefix_exists(false, false, false, false));
}

#[test]
fn test_validate_runner_success() {
    let wine_path = "/tmp/runners/wine".to_string();
    let result = validate_runner(&wine_path, true);

    assert!(result.is_ok());
    let runner = result.unwrap();
    assert_eq!(runner.path, wine_path);
    assert_eq!(runner.runner_type, RunnerType::Custom);
}

#[test]
fn test_validate_runner_not_found() {
    let result = validate_runner("/nonexistent/wine", false);

    assert!(result.is_err());
}

#[test]
fn test_find_wine_binary_files_bin() {
    let result = find_wine_binary("/tmp/proton", true, false, false);
    assert!(result.is_some());
    assert!(result.unwrap().ends_with("files/bin/wine"));
}

#[test]
fn test_find_wine_binary_dist_bin() {
    let result = find_wine_binary("/tmp/proton", false, true, false);
    assert!(result.is_some());
    assert!(result.unwrap().ends_with("dist/bin/wine"));
}

#[test]
fn test_find_wine_binary_bin() {
    let result = find_wine_binary("/tmp/proton", false, false, true);
    assert!(result.is_some());
    assert!(result.unwrap().ends_with("bin/wine"));
}

#[test]
fn test_find_wine_binary_not_found() {
    let result = find_wine_binary("/tmp/proton", false, false, false);
    assert!(result.is_none());
}
