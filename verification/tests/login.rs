use gaveloc::entities::{LoginState, OauthLoginResult};
use gaveloc::error::Error;
use gaveloc::login::{session_for, LoginAction, LoginEvent, LoginPhase, LoginUseCase};
use gaveloc::session::CachedSession;

fn oauth(playable: bool, terms_accepted: bool) -> OauthLoginResult {
    OauthLoginResult {
        session_id: "SID".to_string(),
        region: 3,
        terms_accepted,
        playable,
        max_expansion: 5,
    }
}

fn session(created_at: i64) -> CachedSession {
    CachedSession {
        unique_id: "CACHED".to_string(),
        region: 3,
        max_expansion: 5,
        created_at,
    }
}

fn finished(action: LoginAction) -> (LoginState, bool, Option<String>) {
    match action {
        LoginAction::Finish(r) => (r.state, r.oauth.is_some(), r.unique_id),
        other => panic!("expected Finish, got {:?}", other),
    }
}

#[test]
fn test_login_use_case_new() {
    let flow = LoginUseCase::new();
    assert_eq!(flow.phase, LoginPhase::Idle);
    assert!(!flow.is_active());
}

#[test]
fn test_fresh_login_without_patches() {
    let mut flow = LoginUseCase::new();
    assert!(matches!(flow.step(LoginEvent::Begin), LoginAction::GetSession));
    assert!(flow.is_active());
    assert!(matches!(flow.step(LoginEvent::SessionLoaded(None, 1000)), LoginAction::GetAccount));
    assert!(matches!(flow.step(LoginEvent::AccountLoaded(false)), LoginAction::SaveNewAccount));
    assert!(matches!(flow.step(LoginEvent::AccountSaved), LoginAction::Authenticate));
    assert!(matches!(
        flow.step(LoginEvent::Authenticated(oauth(true, true))),
        LoginAction::CheckBootPatches
    ));
    assert!(matches!(flow.step(LoginEvent::BootChecked(0)), LoginAction::RegisterSession));
    assert!(matches!(
        flow.step(LoginEvent::Registered("UID".to_string(), 0)),
        LoginAction::CacheSession
    ));
    assert!(matches!(flow.step(LoginEvent::SessionCached), LoginAction::UpdateAccountLogin));
    let (state, has_oauth, unique_id) = finished(flow.step(LoginEvent::AccountUpdated));
    assert_eq!(state, LoginState::LoggedIn);
    assert!(has_oauth);
    assert_eq!(unique_id, Some("UID".to_string()));
    assert_eq!(flow.phase, LoginPhase::Done);
    assert!(!flow.is_active());
}

#[test]
fn test_fresh_login_with_game_patches() {
    let mut flow = LoginUseCase::new();
    flow.step(LoginEvent::Begin);
    flow.step(LoginEvent::SessionLoaded(None, 0));
    assert!(matches!(flow.step(LoginEvent::AccountLoaded(true)), LoginAction::Authenticate));
    flow.step(LoginEvent::Authenticated(oauth(true, true)));
    flow.step(LoginEvent::BootChecked(0));
    flow.step(LoginEvent::Registered("UID".to_string(), 3));
    flow.step(LoginEvent::SessionCached);
    let (state, _, unique_id) = finished(flow.step(LoginEvent::AccountUpdated));
    assert_eq!(state, LoginState::NeedsPatchGame);
    assert_eq!(unique_id, Some("UID".to_string()));
}

#[test]
fn test_login_ends_early() {
    // no subscription
    let mut flow = LoginUseCase::new();
    flow.step(LoginEvent::Begin);
    flow.step(LoginEvent::SessionLoaded(None, 0));
    flow.step(LoginEvent::AccountLoaded(true));
    let (state, has_oauth, unique_id) = finished(flow.step(LoginEvent::Authenticated(oauth(false, false))));
    assert_eq!((state, has_oauth, unique_id), (LoginState::NoService, true, None));

    // terms not accepted
    let mut flow = LoginUseCase::new();
    flow.step(LoginEvent::Begin);
    flow.step(LoginEvent::SessionLoaded(None, 0));
    flow.step(LoginEvent::AccountLoaded(true));
    let (state, _, _) = finished(flow.step(LoginEvent::Authenticated(oauth(true, false))));
    assert_eq!(state, LoginState::NoTerms);

    // boot patches: the session is not registered
    let mut flow = LoginUseCase::new();
    flow.step(LoginEvent::Begin);
    flow.step(LoginEvent::SessionLoaded(None, 0));
    flow.step(LoginEvent::AccountLoaded(true));
    flow.step(LoginEvent::Authenticated(oauth(true, true)));
    let (state, has_oauth, unique_id) = finished(flow.step(LoginEvent::BootChecked(2)));
    assert_eq!((state, has_oauth, unique_id), (LoginState::NeedsPatchBoot, true, None));
}

#[test]
fn test_login_on_a_cached_session() {
    let mut flow = LoginUseCase::new();
    flow.step(LoginEvent::Begin);
    assert!(matches!(
        flow.step(LoginEvent::SessionLoaded(Some(session(1_000)), 1_000 + 86_399)),
        LoginAction::CheckBootPatches
    ));
    assert!(flow.cached);
    assert!(matches!(flow.step(LoginEvent::BootChecked(0)), LoginAction::ReadVersionReport));
    assert!(matches!(flow.step(LoginEvent::VersionReportRead), LoginAction::UpdateAccountLogin));
    let (state, has_oauth, unique_id) = finished(flow.step(LoginEvent::AccountUpdated));
    assert_eq!((state, has_oauth, unique_id), (LoginState::LoggedIn, false, Some("CACHED".to_string())));

    // with boot patches
    let mut flow = LoginUseCase::new();
    flow.step(LoginEvent::Begin);
    flow.step(LoginEvent::SessionLoaded(Some(session(1_000)), 2_000));
    let (state, has_oauth, unique_id) = finished(flow.step(LoginEvent::BootChecked(1)));
    assert_eq!((state, has_oauth, unique_id), (LoginState::NeedsPatchBoot, false, Some("CACHED".to_string())));
}

#[test]
fn test_expired_session_is_deleted_and_counts_as_none() {
    let mut flow = LoginUseCase::new();
    flow.step(LoginEvent::Begin);
    assert!(matches!(
        flow.step(LoginEvent::SessionLoaded(Some(session(1_000)), 1_000 + 86_400)),
        LoginAction::DeleteSession
    ));
    assert!(!flow.cached);
    assert!(flow.unique_id.is_none());
    assert!(matches!(flow.step(LoginEvent::SessionDeleted), LoginAction::GetAccount));
}

#[test]
fn test_login_failure_and_restart() {
    let mut flow = LoginUseCase::new();
    flow.step(LoginEvent::Begin);
    flow.step(LoginEvent::SessionLoaded(None, 0));
    flow.step(LoginEvent::AccountLoaded(true));
    match flow.step(LoginEvent::Failed(Error::Network("down".to_string()))) {
        LoginAction::Fail(Error::Network(m)) => assert_eq!(m, "down"),
        other => panic!("expected Fail, got {:?}", other),
    }
    assert_eq!(flow.phase, LoginPhase::Failed);
    // nothing follows
    assert!(matches!(flow.step(LoginEvent::Authenticated(oauth(true, true))), LoginAction::Nothing));
    assert!(matches!(flow.step(LoginEvent::Failed(Error::Cancelled)), LoginAction::Nothing));
    // a new login starts afresh
    assert!(matches!(flow.step(LoginEvent::Begin), LoginAction::GetSession));
    assert!(flow.oauth.is_none() && flow.unique_id.is_none());
    // and a second start while one runs is ignored
    assert!(matches!(flow.step(LoginEvent::Begin), LoginAction::Nothing));
    assert_eq!(flow.phase, LoginPhase::LoadingSession);
    // events out of place change nothing
    assert!(matches!(flow.step(LoginEvent::BootChecked(0)), LoginAction::Nothing));
    assert_eq!(flow.phase, LoginPhase::LoadingSession);
}

#[test]
fn test_session_for() {
    let s = session_for("UID", &oauth(true, true), 1234);
    assert_eq!(s.unique_id, "UID");
    assert_eq!((s.region, s.max_expansion, s.created_at), (3, 5, 1234));
}
