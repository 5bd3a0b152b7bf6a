//! The login flow as a state machine: a cached session is used while it is
//! valid; else the account is looked up, the player is authenticated, the
//! boot files are checked and the session is registered and cached.
//!
//! The machine decides; the caller performs each action and hands back
//! what happened as the next event.

use vstd::prelude::*;
use crate::account::Account;
use crate::entities::{LoginResult, LoginState, OauthLoginResult};
use crate::error::Error;
use crate::session::CachedSession;

verus! {

/// Where a login stands.
#[derive(Debug, Clone, Copy, PartialEq, Eq, Structural)]
pub enum LoginPhase {
    Idle,
    LoadingSession,
    DroppingSession,
    LoadingAccount,
    SavingAccount,
    Authenticating,
    CheckingBoot,
    Registering,
    Validating,
    CachingSession,
    UpdatingAccount,
    Done,
    Failed,
}

/// State of a login.
#[derive(Debug, Clone)]
pub struct LoginUseCase {
    pub phase: LoginPhase,
    /// Whether the login runs on a cached session.
    pub cached: bool,
    /// What the authentication returned, once it has.
    pub oauth: Option<OauthLoginResult>,
    /// The handle for downloads, once it is known.
    pub unique_id: Option<String>,
    /// Whether the game has patches to apply.
    pub needs_game_patch: bool,
}

/// What happened outside the machine.
#[derive(Debug, Clone)]
pub enum LoginEvent {
    /// The caller asks for a login.
    Begin,
    /// The cached session of the account, if there is one, and the time.
    SessionLoaded(Option<CachedSession>, i64),
    SessionDeleted,
    /// Whether the account is on record.
    AccountLoaded(bool),
    AccountSaved,
    Authenticated(OauthLoginResult),
    /// The boot check listed this many patches.
    BootChecked(usize),
    /// The registration gave this handle and listed this many patches.
    Registered(String, usize),
    VersionReportRead,
    SessionCached,
    AccountUpdated,
    /// The action failed.
    Failed(Error),
}

/// What the caller is to do next.
#[derive(Debug, Clone)]
pub enum LoginAction {
    Nothing,
    GetSession,
    DeleteSession,
    GetAccount,
    /// Put a new account on record for the name of the credentials.
    SaveNewAccount,
    Authenticate,
    CheckBootPatches,
    RegisterSession,
    /// Read the version report, which fails where a version file is
    /// missing or broken.
    ReadVersionReport,
    CacheSession,
    UpdateAccountLogin,
    /// The login is over, with this result.
    Finish(LoginResult),
    /// The login failed.
    Fail(Error),
}

impl LoginPhase {
    /// Whether a login is under way.
    pub open spec fn is_active(self) -> bool {
        !(self == LoginPhase::Idle || self == LoginPhase::Done || self == LoginPhase::Failed)
    }
}

/// The flow moved to `phase`, and the caller is to do `action`.
pub open spec fn go(f: LoginUseCase, phase: LoginPhase, action: LoginAction) -> (
    LoginUseCase,
    LoginAction,
) {
    (LoginUseCase { phase, ..f }, action)
}

/// The login ends in `state` with what the flow has gathered.
pub open spec fn finish(f: LoginUseCase, state: LoginState) -> (LoginUseCase, LoginAction) {
    (
        LoginUseCase { phase: LoginPhase::Done, ..f },
        LoginAction::Finish(LoginResult { state, oauth: f.oauth, unique_id: f.unique_id }),
    )
}

/// The transition function: the next state and the action to perform.
///
/// An expired session is deleted and counts as none. An account that may
/// not play or has not accepted the terms ends the login before anything
/// is asked of the patch servers. Boot patches end the login before the
/// session is registered. A failure of any action ends the login with that
/// failure. An event that the current phase does not expect changes
/// nothing.
pub open spec fn login_step(f: LoginUseCase, e: LoginEvent) -> (LoginUseCase, LoginAction) {
    match (f.phase, e) {
        (_, LoginEvent::Begin) => if f.phase.is_active() {
            (f, LoginAction::Nothing)
        } else {
            (
                LoginUseCase {
                    phase: LoginPhase::LoadingSession,
                    cached: false,
                    oauth: None,
                    unique_id: None,
                    needs_game_patch: false,
                },
                LoginAction::GetSession,
            )
        },
        (_, LoginEvent::Failed(error)) => if f.phase.is_active() {
            go(f, LoginPhase::Failed, LoginAction::Fail(error))
        } else {
            (f, LoginAction::Nothing)
        },
        (LoginPhase::LoadingSession, LoginEvent::SessionLoaded(Some(s), now)) => if s.valid_at(
            now,
        ) {
            (
                LoginUseCase {
                    phase: LoginPhase::CheckingBoot,
                    cached: true,
                    unique_id: Some(s.unique_id),
                    ..f
                },
                LoginAction::CheckBootPatches,
            )
        } else {
            go(f, LoginPhase::DroppingSession, LoginAction::DeleteSession)
        },
        (LoginPhase::LoadingSession, LoginEvent::SessionLoaded(None, _)) => go(
            f,
            LoginPhase::LoadingAccount,
            LoginAction::GetAccount,
        ),
        (LoginPhase::DroppingSession, LoginEvent::SessionDeleted) => go(
            f,
            LoginPhase::LoadingAccount,
            LoginAction::GetAccount,
        ),
        (LoginPhase::LoadingAccount, LoginEvent::AccountLoaded(found)) => if found {
            go(f, LoginPhase::Authenticating, LoginAction::Authenticate)
        } else {
            go(f, LoginPhase::SavingAccount, LoginAction::SaveNewAccount)
        },
        (LoginPhase::SavingAccount, LoginEvent::AccountSaved) => go(
            f,
            LoginPhase::Authenticating,
            LoginAction::Authenticate,
        ),
        (LoginPhase::Authenticating, LoginEvent::Authenticated(r)) => {
            let g = LoginUseCase { oauth: Some(r), ..f };
            if !r.playable {
                finish(g, LoginState::NoService)
            } else if !r.terms_accepted {
                finish(g, LoginState::NoTerms)
            } else {
                go(g, LoginPhase::CheckingBoot, LoginAction::CheckBootPatches)
            }
        },
        (LoginPhase::CheckingBoot, LoginEvent::BootChecked(n)) => if n > 0 {
            finish(f, LoginState::NeedsPatchBoot)
        } else if f.cached {
            go(f, LoginPhase::Validating, LoginAction::ReadVersionReport)
        } else {
            go(f, LoginPhase::Registering, LoginAction::RegisterSession)
        },
        (LoginPhase::Registering, LoginEvent::Registered(unique_id, patches)) => (
            LoginUseCase {
                phase: LoginPhase::CachingSession,
                unique_id: Some(unique_id),
                needs_game_patch: patches > 0,
                ..f
            },
            LoginAction::CacheSession,
        ),
        (LoginPhase::CachingSession, LoginEvent::SessionCached) => go(
            f,
            LoginPhase::UpdatingAccount,
            LoginAction::UpdateAccountLogin,
        ),
        (LoginPhase::Validating, LoginEvent::VersionReportRead) => go(
            f,
            LoginPhase::UpdatingAccount,
            LoginAction::UpdateAccountLogin,
        ),
        (LoginPhase::UpdatingAccount, LoginEvent::AccountUpdated) => finish(
            f,
            if f.needs_game_patch {
                LoginState::NeedsPatchGame
            } else {
                LoginState::LoggedIn
            },
        ),
        _ => (f, LoginAction::Nothing),
    }
}

fn copy_opt(o: &Option<String>) -> (r: Option<String>)
    ensures
        r == *o,
{
    match o {
        Some(s) => Some(s.clone()),
        None => None,
    }
}

fn copy_oauth(o: &Option<OauthLoginResult>) -> (r: Option<OauthLoginResult>)
    ensures
        r == *o,
{
    match o {
        Some(v) => Some(
            OauthLoginResult {
                session_id: v.session_id.clone(),
                region: v.region,
                terms_accepted: v.terms_accepted,
                playable: v.playable,
                max_expansion: v.max_expansion,
            },
        ),
        None => None,
    }
}

impl LoginUseCase {
    /// A flow with no login under way.
    pub fn new() -> (f: Self)
        ensures
            f == (LoginUseCase {
                phase: LoginPhase::Idle,
                cached: false,
                oauth: None,
                unique_id: None,
                needs_game_patch: false,
            }),
    {
        LoginUseCase {
            phase: LoginPhase::Idle,
            cached: false,
            oauth: None,
            unique_id: None,
            needs_game_patch: false,
        }
    }

    /// Whether a login is under way.
    pub fn is_active(&self) -> (r: bool)
        ensures
            r == self.phase.is_active(),
    {
        match self.phase {
            LoginPhase::Idle => false,
            LoginPhase::Done => false,
            LoginPhase::Failed => false,
            _ => true,
        }
    }

    fn finish_with(&mut self, state: LoginState) -> (a: LoginAction)
        ensures
            (*final(self), a) == finish(*old(self), state),
    {
        self.phase = LoginPhase::Done;
        LoginAction::Finish(
            LoginResult {
                state,
                oauth: copy_oauth(&self.oauth),
                unique_id: copy_opt(&self.unique_id),
            },
        )
    }

    /// Takes one event and returns the action to perform.
    pub fn step(&mut self, event: LoginEvent) -> (action: LoginAction)
        ensures
            (*final(self), action) == login_step(*old(self), event),
    {
        let phase = self.phase;
        match event {
            LoginEvent::Begin => {
                if self.is_active() {
                    LoginAction::Nothing
                } else {
                    self.phase = LoginPhase::LoadingSession;
                    self.cached = false;
                    self.oauth = None;
                    self.unique_id = None;
                    self.needs_game_patch = false;
                    LoginAction::GetSession
                }
            },
            LoginEvent::Failed(error) => {
                if self.is_active() {
                    self.phase = LoginPhase::Failed;
                    LoginAction::Fail(error)
                } else {
                    LoginAction::Nothing
                }
            },
            LoginEvent::SessionLoaded(session, now) => match phase {
                LoginPhase::LoadingSession => match session {
                    Some(s) => {
                        if s.is_valid_at(now) {
                            self.phase = LoginPhase::CheckingBoot;
                            self.cached = true;
                            self.unique_id = Some(s.unique_id);
                            LoginAction::CheckBootPatches
                        } else {
                            self.phase = LoginPhase::DroppingSession;
                            LoginAction::DeleteSession
                        }
                    },
                    None => {
                        self.phase = LoginPhase::LoadingAccount;
                        LoginAction::GetAccount
                    },
                },
                _ => LoginAction::Nothing,
            },
            LoginEvent::SessionDeleted => match phase {
                LoginPhase::DroppingSession => {
                    self.phase = LoginPhase::LoadingAccount;
                    LoginAction::GetAccount
                },
                _ => LoginAction::Nothing,
            },
            LoginEvent::AccountLoaded(found) => match phase {
                LoginPhase::LoadingAccount => {
                    if found {
                        self.phase = LoginPhase::Authenticating;
                        LoginAction::Authenticate
                    } else {
                        self.phase = LoginPhase::SavingAccount;
                        LoginAction::SaveNewAccount
                    }
                },
                _ => LoginAction::Nothing,
            },
            LoginEvent::AccountSaved => match phase {
                LoginPhase::SavingAccount => {
                    self.phase = LoginPhase::Authenticating;
                    LoginAction::Authenticate
                },
                _ => LoginAction::Nothing,
            },
            LoginEvent::Authenticated(r) => match phase {
                LoginPhase::Authenticating => {
                    let playable = r.playable;
                    let terms = r.terms_accepted;
                    self.oauth = Some(r);
                    if !playable {
                        self.finish_with(LoginState::NoService)
                    } else if !terms {
                        self.finish_with(LoginState::NoTerms)
                    } else {
                        self.phase = LoginPhase::CheckingBoot;
                        LoginAction::CheckBootPatches
                    }
                },
                _ => LoginAction::Nothing,
            },
            LoginEvent::BootChecked(n) => match phase {
                LoginPhase::CheckingBoot => {
                    if n > 0 {
                        self.finish_with(LoginState::NeedsPatchBoot)
                    } else if self.cached {
                        self.phase = LoginPhase::Validating;
                        LoginAction::ReadVersionReport
                    } else {
                        self.phase = LoginPhase::Registering;
                        LoginAction::RegisterSession
                    }
                },
                _ => LoginAction::Nothing,
            },
            LoginEvent::Registered(unique_id, patches) => match phase {
                LoginPhase::Registering => {
                    self.phase = LoginPhase::CachingSession;
                    self.unique_id = Some(unique_id);
                    self.needs_game_patch = patches > 0;
                    LoginAction::CacheSession
                },
                _ => LoginAction::Nothing,
            },
            LoginEvent::SessionCached => match phase {
                LoginPhase::CachingSession => {
                    self.phase = LoginPhase::UpdatingAccount;
                    LoginAction::UpdateAccountLogin
                },
                _ => LoginAction::Nothing,
            },
            LoginEvent::VersionReportRead => match phase {
                LoginPhase::Validating => {
                    self.phase = LoginPhase::UpdatingAccount;
                    LoginAction::UpdateAccountLogin
                },
                _ => LoginAction::Nothing,
            },
            LoginEvent::AccountUpdated => match phase {
                LoginPhase::UpdatingAccount => {
                    let state = if self.needs_game_patch {
                        LoginState::NeedsPatchGame
                    } else {
                        LoginState::LoggedIn
                    };
                    self.finish_with(state)
                },
                _ => LoginAction::Nothing,
            },
        }
    }
}

/// The session to cache after a registration: the handle, region and
/// expansions of the login, created at `now`.
pub fn session_for(unique_id: &str, oauth: &OauthLoginResult, now: i64) -> (s: CachedSession)
    ensures
        s.unique_id@ == unique_id@,
        s.region == oauth.region,
        s.max_expansion == oauth.max_expansion,
        s.created_at == now,
{
    CachedSession {
        unique_id: String::from_str(unique_id),
        region: oauth.region,
        max_expansion: oauth.max_expansion,
        created_at: now,
    }
}

impl Account {
    /// Notes a successful login at the time `now`.
    pub fn logged_in_at(&mut self, now: i64)
        ensures
            *final(self) == (Account { last_login: Some(now), ..*old(self) }),
    {
        self.last_login = Some(now);
    }
}

/// A login on a session that is valid never authenticates, and one on a
/// session that has expired deletes the session first.
pub proof fn lemma_cached_session_decides(f: LoginUseCase, s: CachedSession, now: i64)
    requires
        f.phase == LoginPhase::LoadingSession,
    ensures
        s.valid_at(now) ==> login_step(f, LoginEvent::SessionLoaded(Some(s), now)).1
            == LoginAction::CheckBootPatches,
        !s.valid_at(now) ==> login_step(f, LoginEvent::SessionLoaded(Some(s), now)).1
            == LoginAction::DeleteSession,
{
}

} // verus!
