use gaveloc::account::{Account, AccountId};
use gaveloc::accounts::AccountStore;
use gaveloc::credentials::{
    deletion_outcome, has_credentials, stored_value, KeyLookup, KeyringCredentialStore, SERVICE_NAME,
};
use gaveloc::error::Error;

fn names(store: &AccountStore) -> Vec<&str> {
    store.list_accounts().iter().map(|a| a.username.as_str()).collect()
}

#[test]
fn test_account_crud() {
    let mut store = AccountStore::new();

    // Initially empty
    assert!(store.list_accounts().is_empty());

    // Create account
    let account = Account::new("TestUser".to_string());
    store.save_account(&account);

    // Retrieve
    let retrieved = store.get_account(&account.id);
    assert!(retrieved.is_some());
    assert_eq!(retrieved.unwrap().username, "TestUser");

    // List
    assert_eq!(store.list_accounts().len(), 1);

    // Delete
    store.delete_account(&account.id);
    assert!(store.list_accounts().is_empty());
    assert!(store.get_account(&account.id).is_none());
}

#[test]
fn test_update_existing_account() {
    let mut store = AccountStore::new();

    // Create account
    let mut account = Account::new("TestUser".to_string());
    store.save_account(&account);
    store.save_account(&Account::new("Other".to_string()));

    // Update account
    account.use_otp = true;
    account.is_free_trial = true;
    store.save_account(&account);

    // Verify update
    let retrieved = store.get_account(&account.id).unwrap();
    assert!(retrieved.use_otp);
    assert!(retrieved.is_free_trial);

    // the account kept its place
    assert_eq!(names(&store), vec!["TestUser", "Other"]);
    // saving under another spelling of the name updates the same account
    store.save_account(&Account::new("TESTUSER".to_string()));
    assert_eq!(names(&store), vec!["TESTUSER", "Other"]);
}

#[test]
fn test_default_account() {
    let mut store = AccountStore::new();

    let account1 = Account::new("User1".to_string());
    let account2 = Account::new("User2".to_string());

    store.save_account(&account1);
    store.save_account(&account2);

    // First account is default when none set
    let default = store.get_default_account().unwrap();
    assert_eq!(default.username, "User1");

    // Set explicit default
    store.set_default_account(&account2.id).unwrap();
    let default = store.get_default_account().unwrap();
    assert_eq!(default.username, "User2");
    assert_eq!(store.default_account, Some("user2".to_string()));
}

#[test]
fn test_default_cleared_on_delete() {
    let mut store = AccountStore::new();

    let account1 = Account::new("User1".to_string());
    let account2 = Account::new("User2".to_string());

    store.save_account(&account1);
    store.save_account(&account2);
    store.set_default_account(&account2.id).unwrap();

    // Delete the default account
    store.delete_account(&account2.id);
    assert_eq!(store.default_account, None);

    // Default should now be account1 (first remaining)
    let default = store.get_default_account().unwrap();
    assert_eq!(default.username, "User1");
}

#[test]
fn test_default_kept_when_another_account_is_deleted() {
    let mut store = AccountStore::new();
    for name in ["A", "B", "C"] {
        store.save_account(&Account::new(name.to_string()));
    }
    store.set_default_account(&AccountId::new("b")).unwrap();
    store.delete_account(&AccountId::new("A"));
    assert_eq!(store.default_account, Some("b".to_string()));
    assert_eq!(names(&store), vec!["B", "C"]);
    store.delete_account(&AccountId::new("nobody"));
    assert_eq!(names(&store), vec!["B", "C"]);
    assert_eq!(store.get_default_account().unwrap().username, "B");
}

#[test]
fn test_default_pointer_to_a_missing_account() {
    let mut store = AccountStore::new();
    store.save_account(&Account::new("A".to_string()));
    store.default_account = Some("Gone".to_string());
    assert!(store.get_default_account().is_none());
    // the pointer is read without regard to case
    store.default_account = Some("A".to_string());
    assert_eq!(store.get_default_account().unwrap().username, "A");
}

#[test]
fn test_set_nonexistent_default() {
    let mut store = AccountStore::new();
    store.save_account(&Account::new("A".to_string()));

    let nonexistent = AccountId::new("nobody");
    let result = store.set_default_account(&nonexistent);

    assert!(result.is_err());
    match result {
        Err(Error::Other(m)) => assert_eq!(m, "account 'nobody' not found"),
        other => panic!("expected Other, got {:?}", other),
    }
    assert_eq!(store.default_account, None);
}

#[test]
fn test_no_default_when_empty() {
    let store = AccountStore::new();
    assert!(store.get_default_account().is_none());
}

#[test]
fn test_keychain_keys() {
    assert_eq!(SERVICE_NAME, "gaveloc");
    let _ = KeyringCredentialStore::new();
    let id = AccountId::new("TestUser");
    assert_eq!(KeyringCredentialStore::password_key(&id), "password:testuser");
    assert_eq!(KeyringCredentialStore::session_key(&id), "session:testuser");
}

#[test]
fn test_keychain_lookups() {
    assert_eq!(
        stored_value(KeyLookup::Found("secret".to_string()), "password").unwrap(),
        Some("secret".to_string())
    );
    assert_eq!(stored_value(KeyLookup::NoEntry, "password").unwrap(), None);
    match stored_value(KeyLookup::Failed("locked".to_string()), "session") {
        Err(Error::CredentialStorage(m)) => assert_eq!(m, "failed to get session: locked"),
        other => panic!("expected CredentialStorage, got {:?}", other),
    }
    assert!(deletion_outcome(KeyLookup::NoEntry, "password").is_ok());
    assert!(deletion_outcome(KeyLookup::Found(String::new()), "password").is_ok());
    match deletion_outcome(KeyLookup::Failed("locked".to_string()), "password") {
        Err(Error::CredentialStorage(m)) => assert_eq!(m, "failed to delete password: locked"),
        other => panic!("expected CredentialStorage, got {:?}", other),
    }
    assert!(has_credentials(&Some("x".to_string())));
    assert!(!has_credentials(&None));
}
