use gaveloc::account::Account;
use gaveloc::entities::{OauthLoginResult, PatchEntry, PatchState, Repository, RunnerType, WineRunner};
use gaveloc::error::{Error, OauthError};
use gaveloc::frontend::{
    account_from_request, cached_session_dto, expansion_display_name, game_versions, health_check,
    launch_status, login_result_dto, preflight_check, repository_name, require_session,
    session_status, update_check_dto, update_check_failed, AccountDto, CreateAccountRequest,
    PatchPhase, PreflightFacts, RunnerSearch, SessionCheck, WineRunnerDto,
};
use gaveloc::session::CachedSession;
use gaveloc::version_store::VersionFiles;

fn session(created_at: i64) -> CachedSession {
    CachedSession {
        unique_id: "U".to_string(),
        region: 2,
        max_expansion: 4,
        created_at,
    }
}

#[test]
fn test_health_check() {
    assert_eq!(health_check(), "OK");
}

#[test]
fn test_account_dto() {
    let mut account = Account::new("TestUser".to_string());
    account.is_steam = true;
    account.last_login = Some(5);
    let dto = AccountDto::from(account);
    assert_eq!(dto.id, "testuser");
    assert_eq!(dto.username, "TestUser");
    assert!(dto.is_steam && !dto.is_free_trial && !dto.use_otp);
    assert_eq!(dto.last_login, Some(5));
}

#[test]
fn test_account_from_request() {
    let request = |name: &str| CreateAccountRequest {
        username: name.to_string(),
        is_steam: true,
        is_free_trial: false,
        use_otp: true,
    };
    let fresh = account_from_request(request("New"), None);
    assert_eq!(fresh.id.as_str(), "new");
    assert!(fresh.is_steam && fresh.use_otp && !fresh.is_free_trial);
    assert_eq!(fresh.last_login, None);
    let mut old = Account::new("new".to_string());
    old.last_login = Some(77);
    let updated = account_from_request(request("New"), Some(&old));
    assert_eq!(updated.last_login, Some(77));
    assert_eq!(updated.username, "New");
}

#[test]
fn test_login_result_dto() {
    let ok = login_result_dto(Ok(OauthLoginResult {
        session_id: "SID".to_string(),
        region: 3,
        terms_accepted: true,
        playable: true,
        max_expansion: 5,
    }));
    assert!(ok.success);
    assert_eq!(ok.session_id, Some("SID".to_string()));
    assert_eq!((ok.region, ok.max_expansion, ok.playable), (Some(3), Some(5), Some(true)));
    assert!(ok.error.is_none() && ok.error_type.is_none());

    let bad = login_result_dto(Err(Error::OauthLogin(OauthError::InvalidOtp)));
    assert!(!bad.success);
    assert!(bad.session_id.is_none() && bad.region.is_none());
    assert_eq!(bad.error, Some("OAuth login failed: invalid one-time password".to_string()));
    assert_eq!(bad.error_type, Some("invalid_credentials".to_string()));
    let locked = login_result_dto(Err(Error::OauthLogin(OauthError::AccountLocked)));
    assert_eq!(locked.error_type, Some("account_locked".to_string()));
    let net = login_result_dto(Err(Error::Network("x".to_string())));
    assert_eq!(net.error_type, Some("unknown".to_string()));
}

#[test]
fn test_session_views() {
    let valid = cached_session_dto(Some(session(100)), 200);
    assert!(valid.valid);
    assert_eq!(valid.unique_id, Some("U".to_string()));
    assert_eq!((valid.region, valid.max_expansion), (Some(2), Some(4)));
    assert_eq!(valid.remaining_secs, Some(86_300));
    let expired = cached_session_dto(Some(session(100)), 100 + 86_400);
    assert!(!expired.valid);
    assert!(expired.unique_id.is_none() && expired.remaining_secs.is_none());
    assert!(!cached_session_dto(None, 0).valid);

    let s = session_status(&Some(session(100)), 200);
    assert_eq!((s.has_session, s.is_valid, s.remaining_secs), (true, true, Some(86_300)));
    let s = session_status(&Some(session(100)), 100_000);
    assert_eq!((s.has_session, s.is_valid, s.remaining_secs), (true, false, None));
    let s = session_status(&None, 0);
    assert_eq!((s.has_session, s.is_valid, s.remaining_secs), (false, false, None));

    assert_eq!(require_session(Some(session(100)), 200).unwrap().unique_id, "U");
    assert_eq!(
        require_session(Some(session(100)), 100_000).unwrap_err(),
        "Session expired. Please log in again."
    );
    assert_eq!(require_session(None, 0).unwrap_err(), "Not logged in. Please log in first.");
}

#[test]
fn test_launch_status() {
    let s = launch_status(Some(10), true, Some(20));
    assert_eq!((s.is_running, s.pid), (true, Some(10)));
    let s = launch_status(Some(10), false, Some(20));
    assert_eq!((s.is_running, s.pid), (true, Some(20)));
    let s = launch_status(Some(10), false, None);
    assert_eq!((s.is_running, s.pid), (false, None));
    let s = launch_status(None, true, None);
    assert_eq!((s.is_running, s.pid), (false, None));
}

fn facts() -> PreflightFacts {
    PreflightFacts {
        game_path_set: true,
        game_exe_exists: true,
        runners: RunnerSearch::Configured,
        session: SessionCheck::Valid,
        prefix_exists: true,
    }
}

#[test]
fn test_preflight() {
    let ok = preflight_check(facts());
    assert!(ok.can_launch && ok.issues.is_empty() && ok.warnings.is_empty());

    let no_path = preflight_check(PreflightFacts { game_path_set: false, game_exe_exists: false, prefix_exists: false, ..facts() });
    assert!(!no_path.can_launch);
    assert_eq!(no_path.issues, vec!["Game path not configured"]);
    assert!(no_path.warnings.is_empty());

    let many = preflight_check(PreflightFacts {
        game_path_set: true,
        game_exe_exists: false,
        runners: RunnerSearch::Found(0),
        session: SessionCheck::Expired,
        prefix_exists: false,
    });
    assert!(!many.can_launch);
    assert_eq!(
        many.issues,
        vec![
            "Game executable not found (ffxiv_dx11.exe)",
            "No Wine/Proton runner detected",
            "Session expired - please login again"
        ]
    );
    assert_eq!(many.warnings, vec!["Wine prefix does not exist - will be created on first launch"]);

    let warn_only = preflight_check(PreflightFacts { runners: RunnerSearch::Found(2), prefix_exists: false, ..facts() });
    assert!(warn_only.can_launch);
    assert_eq!(warn_only.warnings.len(), 1);
    assert_eq!(
        preflight_check(PreflightFacts { runners: RunnerSearch::Failed, ..facts() }).issues,
        vec!["Failed to detect Wine/Proton runners"]
    );
    assert_eq!(
        preflight_check(PreflightFacts { session: SessionCheck::Missing, ..facts() }).issues,
        vec!["Not logged in - valid session required"]
    );
    assert_eq!(
        preflight_check(PreflightFacts { session: SessionCheck::Failed, ..facts() }).issues,
        vec!["Failed to check session status"]
    );
}

#[test]
fn test_names() {
    assert_eq!(repository_name(Repository::Boot), "Boot");
    assert_eq!(repository_name(Repository::Ffxiv), "FFXIV");
    assert_eq!(repository_name(Repository::Ex3), "Ex3");
    let names: Vec<&str> = (0..7).map(expansion_display_name).collect();
    assert_eq!(
        names,
        vec!["Unknown", "Heavensward", "Stormblood", "Shadowbringers", "Endwalker", "Dawntrail", "Unknown"]
    );
    assert_eq!(PatchPhase::from_state(PatchState::Pending), PatchPhase::Applying);
    assert_eq!(PatchPhase::from_state(PatchState::Downloading), PatchPhase::Downloading);
    assert_eq!(PatchPhase::from_state(PatchState::Verifying), PatchPhase::Verifying);
    assert_eq!(PatchPhase::from_state(PatchState::Installing), PatchPhase::Applying);
    assert_eq!(PatchPhase::from_state(PatchState::Completed), PatchPhase::Completed);
    assert_eq!(PatchPhase::from_state(PatchState::Failed), PatchPhase::Failed);
}

#[test]
fn test_wine_runner_dto() {
    let dto = WineRunnerDto::from(WineRunner {
        path: "/usr/bin/wine".to_string(),
        name: "System Wine".to_string(),
        runner_type: RunnerType::GavelocManaged,
        is_valid: true,
    });
    assert_eq!(dto.path, "/usr/bin/wine");
    assert_eq!(dto.name, "System Wine");
    assert_eq!(dto.runner_type, "Gaveloc");
    assert!(dto.is_valid);
}

#[test]
fn test_game_versions() {
    let mut files = VersionFiles::empty();
    files.set(Repository::Boot, "2024.07.23.0000.0001");
    files.set(Repository::Ffxiv, " 2024.07.24.0000.0000\n");
    files.set(Repository::Ex2, "2024.01.01.0000.0000");
    files.set(Repository::Ex4, "broken");
    let shown = game_versions(true, &files);
    assert!(shown.game_path_valid);
    assert_eq!(shown.boot, Some("2024.07.23.0000.0001".to_string()));
    assert_eq!(shown.game, Some("2024.07.24.0000.0000".to_string()));
    let rows: Vec<(&str, Option<&str>, bool)> = shown
        .expansions
        .iter()
        .map(|e| (e.name.as_str(), e.version.as_deref(), e.installed))
        .collect();
    assert_eq!(
        rows,
        vec![
            ("Heavensward", None, false),
            ("Stormblood", Some("2024.01.01.0000.0000"), true),
            ("Shadowbringers", None, false),
            ("Endwalker", None, false),
            ("Dawntrail", None, false),
        ]
    );
    let hidden = game_versions(false, &files);
    assert!(!hidden.game_path_valid);
    assert!(hidden.boot.is_none() && hidden.game.is_none() && hidden.expansions.is_empty());
}

#[test]
fn test_update_check_dto() {
    let patches = vec![
        PatchEntry {
            version_id: "v1".to_string(),
            url: "http://p/a.patch".to_string(),
            length: 10,
            hash_type: None,
            hash_block_size: None,
            hashes: None,
            repository: Repository::Ffxiv,
        },
        PatchEntry {
            version_id: "v2".to_string(),
            url: "http://p/ex1/b.patch".to_string(),
            length: 32,
            hash_type: None,
            hash_block_size: None,
            hashes: None,
            repository: Repository::Ex1,
        },
    ];
    let dto = update_check_dto(&patches);
    assert!(dto.has_updates);
    assert_eq!(dto.total_size_bytes, 42);
    assert!(dto.error.is_none());
    let rows: Vec<(&str, &str, u64, &str)> = dto
        .patches
        .iter()
        .map(|p| (p.version_id.as_str(), p.url.as_str(), p.size_bytes, p.repository.as_str()))
        .collect();
    assert_eq!(
        rows,
        vec![("v1", "http://p/a.patch", 10, "FFXIV"), ("v2", "http://p/ex1/b.patch", 32, "Ex1")]
    );
    let none = update_check_dto(&vec![]);
    assert!(!none.has_updates && none.patches.is_empty());
    assert_eq!(none.total_size_bytes, 0);
    let failed = update_check_failed("Game path not configured");
    assert!(!failed.has_updates && failed.patches.is_empty());
    assert_eq!(failed.error, Some("Game path not configured".to_string()));
}
