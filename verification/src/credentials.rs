//! Where passwords and sessions are kept in the keychain.

use vstd::prelude::*;
use crate::account::AccountId;
use crate::error::Error;
use crate::text::concat2;

verus! {

/// The name of the launcher in the keychain.
pub const SERVICE_NAME: &'static str = "gaveloc";

/// Keeper of secrets in the keychain of the system.
#[derive(Debug, Clone, Copy)]
pub struct KeyringCredentialStore;

impl Default for KeyringCredentialStore {
    fn default() -> Self {
        KeyringCredentialStore
    }
}

impl KeyringCredentialStore {
    pub fn new() -> Self {
        KeyringCredentialStore
    }

    /// The key under which the password of an account is kept.
    pub fn password_key(account_id: &AccountId) -> (key: String)
        ensures
            key@ == "password:"@ + account_id@,
    {
        concat2("password:", account_id.as_str())
    }

    /// The key under which the session of an account is kept.
    pub fn session_key(account_id: &AccountId) -> (key: String)
        ensures
            key@ == "session:"@ + account_id@,
    {
        concat2("session:", account_id.as_str())
    }
}

/// What the keychain answered to a lookup.
#[derive(Debug, Clone)]
pub enum KeyLookup {
    Found(String),
    /// There is no such entry.
    NoEntry,
    /// The keychain failed; the reason.
    Failed(String),
}

/// The value of a lookup: an entry that is missing is no value, and no
/// failure.
pub fn stored_value(lookup: KeyLookup, what: &str) -> (r: Result<Option<String>, Error>)
    ensures
        match lookup {
            KeyLookup::Found(v) => r == Ok::<Option<String>, Error>(Some(v)),
            KeyLookup::NoEntry => r matches Ok(None),
            KeyLookup::Failed(reason) => r matches Err(Error::CredentialStorage(m)) && m@
                == "failed to get "@ + what@ + ": "@ + reason@,
        },
{
    match lookup {
        KeyLookup::Found(v) => Ok(Some(v)),
        KeyLookup::NoEntry => Ok(None),
        KeyLookup::Failed(reason) => {
            let mut m = concat2("failed to get ", what);
            m.append(": ");
            m.append(reason.as_str());
            Err(Error::CredentialStorage(m))
        },
    }
}

/// The outcome of a deletion: an entry that was not there counts as
/// deleted.
pub fn deletion_outcome(lookup: KeyLookup, what: &str) -> (r: Result<(), Error>)
    ensures
        match lookup {
            KeyLookup::Failed(reason) => r matches Err(Error::CredentialStorage(m)) && m@
                == "failed to delete "@ + what@ + ": "@ + reason@,
            _ => r is Ok,
        },
{
    match lookup {
        KeyLookup::Failed(reason) => {
            let mut m = concat2("failed to delete ", what);
            m.append(": ");
            m.append(reason.as_str());
            Err(Error::CredentialStorage(m))
        },
        _ => Ok(()),
    }
}

/// Whether a password is kept for an account.
pub fn has_credentials(password: &Option<String>) -> (r: bool)
    ensures
        r == password is Some,
{
    password.is_some()
}

} // verus!
