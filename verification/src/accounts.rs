//! The accounts on record and the pointer to the default account.

use vstd::prelude::*;
use crate::account::{Account, AccountId};
use crate::error::Error;
use crate::text::{concat3, lowercase_of, same_str};

verus! {

/// The accounts on record. At most one account is the default; the pointer
/// holds its identifier.
#[derive(Debug, Clone)]
pub struct AccountStore {
    pub accounts: Vec<Account>,
    pub default_account: Option<String>,
}

/// Index of the first account with the identifier `id`, or the number of
/// accounts where there is none.
pub open spec fn position_of(accounts: Seq<Account>, id: Seq<char>) -> int
    decreases accounts.len(),
{
    if accounts.len() == 0 {
        0
    } else if accounts[0].id@ == id {
        0
    } else {
        1 + position_of(accounts.skip(1), id)
    }
}

/// `position_of` is the place before which no account has the identifier.
pub proof fn lemma_position_of(accounts: Seq<Account>, id: Seq<char>, k: int)
    requires
        0 <= k <= accounts.len(),
        forall|i: int| 0 <= i < k ==> (#[trigger] accounts[i]).id@ != id,
        k == accounts.len() || accounts[k].id@ == id,
    ensures
        position_of(accounts, id) == k,
    decreases k,
{
    if k > 0 {
        let t = accounts.skip(1);
        assert forall|i: int| 0 <= i < k - 1 implies (#[trigger] t[i]).id@ != id by {
            assert(t[i] == accounts[i + 1]);
        }
        if k < accounts.len() {
            assert(t[k - 1] == accounts[k]);
        }
        lemma_position_of(t, id, k - 1);
    }
}

/// The account with the identifier `id`, if one is on record.
pub open spec fn account_of(accounts: Seq<Account>, id: Seq<char>) -> Option<Account> {
    let k = position_of(accounts, id);
    if 0 <= k < accounts.len() {
        Some(accounts[k])
    } else {
        None
    }
}

/// The accounts without those with the identifier `id`.
pub open spec fn without(accounts: Seq<Account>, id: Seq<char>) -> Seq<Account>
    decreases accounts.len(),
{
    if accounts.len() == 0 {
        Seq::empty()
    } else if accounts.last().id@ == id {
        without(accounts.drop_last(), id)
    } else {
        without(accounts.drop_last(), id).push(accounts.last())
    }
}

/// No account with the identifier is left after it was taken out.
pub proof fn lemma_without_has_none(accounts: Seq<Account>, id: Seq<char>)
    ensures
        forall|i: int|
            0 <= i < without(accounts, id).len() ==> (#[trigger] without(accounts, id)[i]).id@
                != id,
        account_of(without(accounts, id), id) is None,
    decreases accounts.len(),
{
    if accounts.len() > 0 {
        lemma_without_has_none(accounts.drop_last(), id);
    }
    let w = without(accounts, id);
    lemma_position_of(w, id, w.len() as int);
}

/// The accounts after `account` is saved: it takes the place of the
/// account with its identifier, or the last place where there is none.
pub open spec fn saved(accounts: Seq<Account>, account: Account) -> Seq<Account> {
    let k = position_of(accounts, account.id@);
    if 0 <= k < accounts.len() {
        accounts.update(k, account)
    } else {
        accounts.push(account)
    }
}

/// An account that was saved is on record as it was saved.
pub proof fn lemma_saved_is_found(accounts: Seq<Account>, account: Account)
    ensures
        account_of(saved(accounts, account), account.id@) == Some(account),
{
    let id = account.id@;
    let k = position_of(accounts, id);
    lemma_position_bounds(accounts, id);
    let s = saved(accounts, account);
    assert forall|i: int| 0 <= i < k implies (#[trigger] s[i]).id@ != id by {
        assert(s[i] == accounts[i]);
    }
    lemma_position_of(s, id, k);
}

/// `position_of` lies within `0..=len`, points at an account with the
/// identifier when inside, and no account before it has the identifier.
pub proof fn lemma_position_bounds(accounts: Seq<Account>, id: Seq<char>)
    ensures
        0 <= position_of(accounts, id) <= accounts.len(),
        position_of(accounts, id) < accounts.len() ==> accounts[position_of(accounts, id)].id@
            == id,
        forall|i: int| 0 <= i < position_of(accounts, id) ==> (#[trigger] accounts[i]).id@ != id,
    decreases accounts.len(),
{
    if accounts.len() > 0 && accounts[0].id@ != id {
        let t = accounts.skip(1);
        lemma_position_bounds(t, id);
        assert forall|i: int| 0 <= i < position_of(accounts, id) implies (
        #[trigger] accounts[i]).id@ != id by {
            if i > 0 {
                assert(t[i - 1] == accounts[i]);
            }
        }
    }
}

/// Whether every account has the identifier that its name gives.
pub open spec fn all_wf(accounts: Seq<Account>) -> bool {
    forall|i: int| 0 <= i < accounts.len() ==> (#[trigger] accounts[i]).wf()
}

/// Saving an account whose identifier is the one its name gives keeps the
/// records in that state, and so does deleting.
pub proof fn lemma_records_stay_wf(accounts: Seq<Account>, account: Account, id: Seq<char>)
    requires
        all_wf(accounts),
        account.wf(),
    ensures
        all_wf(saved(accounts, account)),
        all_wf(without(accounts, id)),
    decreases accounts.len(),
{
    lemma_position_bounds(accounts, account.id@);
    if accounts.len() > 0 {
        let rest = accounts.drop_last();
        assert forall|i: int| 0 <= i < rest.len() implies (#[trigger] rest[i]).wf() by {
            assert(rest[i] == accounts[i]);
        }
        lemma_records_stay_wf(rest, account, id);
        assert(accounts.last() == accounts[accounts.len() - 1]);
    }
}

impl AccountStore {
    /// A store without accounts.
    pub fn new() -> (s: Self)
        ensures
            s.accounts@.len() == 0,
            s.default_account is None,
    {
        AccountStore { accounts: Vec::new(), default_account: None }
    }

    fn find(&self, id: &AccountId) -> (r: Option<usize>)
        ensures
            match r {
                Some(k) => k < self.accounts@.len() && k == position_of(self.accounts@, id@),
                None => position_of(self.accounts@, id@) == self.accounts@.len(),
            },
    {
        let mut i: usize = 0;
        while i < self.accounts.len()
            invariant
                i <= self.accounts.len(),
                forall|j: int| 0 <= j < i ==> (#[trigger] self.accounts@[j]).id@ != id@,
            decreases self.accounts.len() - i,
        {
            if self.accounts[i].id.same(id) {
                proof {
                    lemma_position_of(self.accounts@, id@, i as int);
                }
                return Some(i);
            }
            i += 1;
        }
        proof {
            lemma_position_of(self.accounts@, id@, self.accounts@.len() as int);
        }
        None
    }

    /// All accounts, in the order they were first saved.
    pub fn list_accounts(&self) -> (r: &Vec<Account>)
        ensures
            r == &self.accounts,
    {
        &self.accounts
    }

    /// The account with the identifier `id`.
    pub fn get_account(&self, id: &AccountId) -> (r: Option<Account>)
        ensures
            r == account_of(self.accounts@, id@),
    {
        match self.find(id) {
            Some(k) => Some(self.accounts[k].copy()),
            None => None,
        }
    }

    /// Saves an account: in place of the account with its identifier, or
    /// as a new one.
    pub fn save_account(&mut self, account: &Account)
        ensures
            final(self).accounts@ == saved(old(self).accounts@, *account),
            final(self).default_account == old(self).default_account,
    {
        match self.find(&account.id) {
            Some(k) => {
                self.accounts[k] = account.copy();
            },
            None => {
                self.accounts.push(account.copy());
            },
        }
    }

    /// Deletes the account with the identifier `id`. If it was the default
    /// account, no account is the default afterwards.
    pub fn delete_account(&mut self, id: &AccountId)
        ensures
            final(self).accounts@ == without(old(self).accounts@, id@),
            final(self).default_account == (match old(self).default_account {
                Some(d) => if d@ == id@ {
                    None
                } else {
                    Some(d)
                },
                None => None,
            }),
    {
        let mut kept: Vec<Account> = Vec::new();
        let mut i: usize = 0;
        while i < self.accounts.len()
            invariant
                i <= self.accounts.len(),
                kept@ == without(self.accounts@.take(i as int), id@),
            decreases self.accounts.len() - i,
        {
            assert(self.accounts@.take(i + 1).drop_last() == self.accounts@.take(i as int));
            if !self.accounts[i].id.same(id) {
                kept.push(self.accounts[i].copy());
            }
            i += 1;
        }
        assert(self.accounts@.take(self.accounts.len() as int) == self.accounts@);
        self.accounts = kept;
        let clear = match &self.default_account {
            Some(d) => same_str(d.as_str(), id.as_str()),
            None => false,
        };
        if clear {
            self.default_account = None;
        }
    }

    /// The default account: the one the pointer names, or the first account
    /// where no account is the default.
    pub fn get_default_account(&self) -> (r: Option<Account>)
        ensures
            r == (match self.default_account {
                Some(d) => account_of(self.accounts@, lowercase_of(d@)),
                None => if self.accounts@.len() > 0 {
                    Some(self.accounts@[0])
                } else {
                    None
                },
            }),
    {
        match &self.default_account {
            Some(d) => {
                let id = AccountId::new(d.as_str());
                self.get_account(&id)
            },
            None => {
                if self.accounts.len() > 0 {
                    Some(self.accounts[0].copy())
                } else {
                    None
                }
            },
        }
    }

    /// Makes the account with the identifier `id` the default. An
    /// identifier that is not on record is refused and changes nothing.
    pub fn set_default_account(&mut self, id: &AccountId) -> (r: Result<(), Error>)
        ensures
            final(self).accounts == old(self).accounts,
            account_of(old(self).accounts@, id@) is Some ==> r is Ok,
            account_of(old(self).accounts@, id@) is Some ==> (
            final(self).default_account matches Some(d) && d@ == id@),
            account_of(old(self).accounts@, id@) is None ==> (r matches Err(Error::Other(m)) && m@
                == "account '"@ + id@ + "' not found"@),
            account_of(old(self).accounts@, id@) is None ==> final(self).default_account
                == old(self).default_account,
    {
        match self.find(id) {
            Some(_) => {
                self.default_account = Some(id.to_string());
                Ok(())
            },
            None => Err(Error::Other(concat3("account '", id.as_str(), "' not found"))),
        }
    }
}

} // verus!
