//! Accounts, credentials and cached sessions.

use vstd::prelude::*;
use crate::text::{lowercase_of, to_lowercase};

verus! {

/// The key of an account: its name in lower case.
#[derive(Debug, Clone, PartialEq, Eq, Hash)]
pub struct AccountId(String);

impl View for AccountId {
    type V = Seq<char>;

    closed spec fn view(&self) -> Seq<char> {
        self.0@
    }
}

impl AccountId {
    /// The identifier of the account named `username`. Names that differ
    /// only in case give the same identifier, and the identifier of an
    /// identifier's own text is that identifier.
    pub fn new(username: &str) -> (id: Self)
        ensures
            id@ == lowercase_of(username@),
            lowercase_of(id@) == id@,
    {
        AccountId(to_lowercase(username))
    }

    pub fn as_str(&self) -> (s: &str)
        ensures
            s@ == self@,
    {
        self.0.as_str()
    }

    pub fn to_string(&self) -> (s: String)
        ensures
            s@ == self@,
    {
        self.0.clone()
    }

    /// Whether two identifiers are the same.
    pub fn same(&self, other: &AccountId) -> (r: bool)
        ensures
            r == (self@ == other@),
    {
        self.0 == other.0
    }
}

/// What is kept of an account besides its secrets.
#[derive(Debug, Clone, PartialEq, Eq)]
pub struct Account {
    pub id: AccountId,
    pub username: String,
    pub is_steam: bool,
    pub is_free_trial: bool,
    pub use_otp: bool,
    /// Time of the last successful login, in seconds since the epoch.
    pub last_login: Option<i64>,
}

impl Account {
    /// Whether the identifier of this account is the one its name gives.
    pub open spec fn wf(self) -> bool {
        self.id@ == lowercase_of(self.username@)
    }

    /// A copy of this account.
    pub fn copy(&self) -> (a: Self)
        ensures
            a == *self,
    {
        Account {
            id: AccountId(self.id.0.clone()),
            username: self.username.clone(),
            is_steam: self.is_steam,
            is_free_trial: self.is_free_trial,
            use_otp: self.use_otp,
            last_login: self.last_login,
        }
    }

    /// A new account with the given name and no flag set.
    pub fn new(username: String) -> (a: Self)
        ensures
            a.wf(),
            a.username == username,
            !a.is_steam,
            !a.is_free_trial,
            !a.use_otp,
            a.last_login is None,
    {
        Account {
            id: AccountId::new(username.as_str()),
            username,
            is_steam: false,
            is_free_trial: false,
            use_otp: false,
            last_login: None,
        }
    }
}

/// What a player types to log in. Never stored.
#[derive(Debug, Clone)]
pub struct Credentials {
    pub username: String,
    pub password: String,
    pub otp: Option<String>,
}

impl Credentials {
    pub fn new(username: String, password: String) -> (c: Self)
        ensures
            c.username == username,
            c.password == password,
            c.otp is None,
    {
        Credentials { username, password, otp: None }
    }

    pub fn with_otp(self, otp: String) -> (c: Self)
        ensures
            c.username == self.username,
            c.password == self.password,
            c.otp == Some(otp),
    {
        Credentials { username: self.username, password: self.password, otp: Some(otp) }
    }
}

} // verus!
