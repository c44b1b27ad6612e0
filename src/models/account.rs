//! The bank-account table: accounts are owned by a user and start with a
//! zero balance.
use super::{account_key, account_rows, Database, DatabaseView, MAX_ID};
use crate::result_variant::{found, DatabaseResult};
use crate::select::{
    index_of, last_index, lemma_last_index, lemma_last_index_push, lemma_select_push,
    lemma_select_keys_distinct, lemma_select_sound, select,
};
use crate::text::push_char;
use vstd::prelude::*;

verus! {

/// A row of the account table; `balance` is a decimal written as text.
#[derive(Debug, PartialEq)]
pub struct Account {
    pub balance: String,
    pub user_id: String,
    pub id: i32,
    pub name: String,
}

pub struct AccountView {
    pub balance: Seq<char>,
    pub user_id: Seq<char>,
    pub id: int,
    pub name: Seq<char>,
}

impl View for Account {
    type V = AccountView;

    open spec fn view(&self) -> AccountView {
        AccountView {
            balance: self.balance@,
            user_id: self.user_id@,
            id: self.id as int,
            name: self.name@,
        }
    }
}

impl Clone for Account {
    fn clone(&self) -> (r: Account)
        ensures
            r == *self,
    {
        Account {
            balance: self.balance.clone(),
            user_id: self.user_id.clone(),
            id: self.id,
            name: self.name.clone(),
        }
    }
}

/// An account about to be inserted. Whatever `balance` holds, an account
/// always starts at zero.
#[derive(Debug)]
pub struct NewAccount {
    pub balance: String,
    pub user_id: String,
    pub name: String,
}

/// The balance of a new account.
pub open spec fn zero_balance() -> Seq<char> {
    seq!['0']
}

fn zero() -> (r: String)
    ensures
        r@ == zero_balance(),
{
    let mut s = String::new();
    push_char(&mut s, '0');
    assert(s@ =~= zero_balance());
    s
}

impl NewAccount {
    pub fn new(user_id: String, name: String) -> (r: NewAccount)
        ensures
            r.balance@ == zero_balance(),
            r.user_id@ == user_id@,
            r.name@ == name@,
    {
        NewAccount { balance: zero(), user_id, name }
    }
}

impl Default for NewAccount {
    fn default() -> (r: NewAccount)
        ensures
            r.balance@ == zero_balance(),
            r.user_id@ == "BerserkerMother"@,
            r.name@ == "American Express"@,
    {
        NewAccount {
            balance: zero(),
            user_id: String::from_str("BerserkerMother"),
            name: String::from_str("American Express"),
        }
    }
}

pub open spec fn with_account_id(id: int) -> spec_fn(AccountView) -> bool {
    |a: AccountView| a.id == id
}

pub open spec fn without_account_id(id: int) -> spec_fn(AccountView) -> bool {
    |a: AccountView| a.id != id
}

pub open spec fn owned_by(user_id: Seq<char>) -> spec_fn(AccountView) -> bool {
    |a: AccountView| a.user_id == user_id
}

pub open spec fn named_and_owned(name: Seq<char>, user_id: Seq<char>) -> spec_fn(AccountView) -> bool {
    |a: AccountView| a.name == name && a.user_id == user_id
}

pub open spec fn not_named_and_owned(name: Seq<char>, user_id: Seq<char>) -> spec_fn(
    AccountView,
) -> bool {
    |a: AccountView| !(a.name == name && a.user_id == user_id)
}

impl DatabaseView {
    pub open spec fn with_accounts(self, accounts: Seq<AccountView>) -> DatabaseView {
        DatabaseView { accounts, ..self }
    }

    pub open spec fn account_with_id(self, id: int) -> Option<AccountView> {
        let i = last_index(self.accounts, with_account_id(id));
        if i < 0 {
            None
        } else {
            Some(self.accounts[i])
        }
    }

    /// The accounts of one user, in insertion order.
    pub open spec fn accounts_of(self, user_id: Seq<char>) -> Seq<AccountView> {
        select(self.accounts, owned_by(user_id))
    }

    /// Insert with the next generated id and a zero balance; `NotFound` when
    /// the owner does not exist, `AlreadyExists` when ids are exhausted.
    pub open spec fn add_account(self, name: Seq<char>, user_id: Seq<char>) -> (
        DatabaseResult<AccountView>,
        DatabaseView,
    ) {
        if self.next_account_id >= MAX_ID {
            (DatabaseResult::AlreadyExists, self)
        } else if self.user_named(user_id) is None {
            (DatabaseResult::NotFound, self)
        } else {
            let row = AccountView {
                balance: zero_balance(),
                user_id,
                id: self.next_account_id,
                name,
            };
            (
                DatabaseResult::Succeful(row),
                DatabaseView {
                    accounts: self.accounts.push(row),
                    next_account_id: self.next_account_id + 1,
                    ..self
                },
            )
        }
    }

    /// Full replace of the account with id `id` (its id is kept); `NotFound`
    /// when there is no such account or the new owner does not exist.
    pub open spec fn update_account(self, id: int, a: AccountView) -> (
        DatabaseResult<AccountView>,
        DatabaseView,
    ) {
        let i = last_index(self.accounts, with_account_id(id));
        if i < 0 || self.user_named(a.user_id) is None {
            (DatabaseResult::NotFound, self)
        } else {
            let row = AccountView { id: self.accounts[i].id, ..a };
            (DatabaseResult::Succeful(row), self.with_accounts(self.accounts.update(i, row)))
        }
    }

    /// Removes every account matching `p`, keeping those matching `keep`
    /// (its complement), and returns the last one removed.
    pub open spec fn delete_accounts(
        self,
        p: spec_fn(AccountView) -> bool,
        keep: spec_fn(AccountView) -> bool,
    ) -> (DatabaseResult<AccountView>, DatabaseView) {
        let removed = select(self.accounts, p);
        if removed.len() == 0 {
            (DatabaseResult::NotFound, self)
        } else {
            (DatabaseResult::Succeful(removed.last()), self.with_accounts(select(self.accounts, keep)))
        }
    }

    pub open spec fn delete_account_by_id(self, id: int) -> (DatabaseResult<AccountView>, DatabaseView) {
        self.delete_accounts(with_account_id(id), without_account_id(id))
    }

    pub open spec fn delete_account_by_name_user(self, name: Seq<char>, user_id: Seq<char>) -> (
        DatabaseResult<AccountView>,
        DatabaseView,
    ) {
        self.delete_accounts(named_and_owned(name, user_id), not_named_and_owned(name, user_id))
    }
}

impl Database {
    pub(crate) fn find_account(&self, id: i32) -> (r: Option<usize>)
        ensures
            index_of(r) == last_index(self@.accounts, with_account_id(id as int)),
            -1 <= index_of(r) < self@.accounts.len(),
    {
        proof {
            self.lemma_rows();
            lemma_last_index(self@.accounts, with_account_id(id as int));
        }
        let ghost rows = self@.accounts;
        let mut found: Option<usize> = None;
        let n = self.accounts.len();
        for i in 0..n
            invariant
                n == rows.len(),
                rows == self@.accounts,
                rows == account_rows(self.accounts@),
                index_of(found) == last_index(rows.subrange(0, i as int), with_account_id(id as int)),
        {
            proof {
                lemma_last_index_push(
                    rows.subrange(0, i as int),
                    rows[i as int],
                    with_account_id(id as int),
                );
                assert(rows.subrange(0, i + 1) =~= rows.subrange(0, i as int).push(rows[i as int]));
            }
            if self.accounts[i].id == id {
                found = Some(i);
            }
        }
        proof {
            assert(rows.subrange(0, n as int) =~= rows);
        }
        found
    }

    /// Replaces the account table by the rows kept, after checking that the
    /// id bounds still hold for them.
    proof fn lemma_kept_accounts(self, kept: Seq<AccountView>, p: spec_fn(AccountView) -> bool)
        requires
            self.wf(),
            kept == select(self@.accounts, p),
        ensures
            self@.with_accounts(kept).wf(),
    {
        lemma_select_sound(self@.accounts, p);
        lemma_select_keys_distinct(self@.accounts, p, account_key());
        assert forall|k: int| 0 <= k < kept.len() implies 1 <= #[trigger] kept[k].id
            < self@.next_account_id by {
            let j = choose|j: int| 0 <= j < self@.accounts.len() && self@.accounts[j] == kept[k];
        }
    }
}

impl Account {
    pub fn new(balance: &str, user_id: &str, id: i32, name: &str) -> (r: Account)
        ensures
            r.balance@ == balance@,
            r.user_id@ == user_id@,
            r.id == id,
            r.name@ == name@,
    {
        Account {
            balance: balance.to_owned(),
            user_id: user_id.to_owned(),
            id,
            name: name.to_owned(),
        }
    }

    /// An account to insert for `user_id`.
    pub fn new_account(name: String, user_id: String) -> (r: NewAccount)
        ensures
            r.balance@ == zero_balance(),
            r.user_id@ == user_id@,
            r.name@ == name@,
    {
        NewAccount::new(user_id, name)
    }

    /// The account with the given id.
    pub fn get(db: &Database, id: i32) -> (r: DatabaseResult<Account>)
        ensures
            r@ == found(db@.account_with_id(id as int)),
    {
        proof {
            db.lemma_rows();
        }
        match db.find_account(id) {
            Some(i) => DatabaseResult::Succeful(db.accounts[i].clone()),
            None => DatabaseResult::NotFound,
        }
    }

    /// Every account of `user_id`, in insertion order.
    pub fn all(db: &Database, user_id: String) -> (r: DatabaseResult<Vec<Account>>)
        ensures
            r matches DatabaseResult::Succeful(v) && account_rows(v@) == db@.accounts_of(user_id@),
    {
        proof {
            db.lemma_rows();
        }
        let ghost rows = db@.accounts;
        let mut out: Vec<Account> = Vec::new();
        let n = db.accounts.len();
        for i in 0..n
            invariant
                n == rows.len(),
                rows == account_rows(db.accounts@),
                account_rows(out@) == select(rows.subrange(0, i as int), owned_by(user_id@)),
        {
            proof {
                lemma_select_push(rows.subrange(0, i as int), rows[i as int], owned_by(user_id@));
                assert(rows.subrange(0, i + 1) =~= rows.subrange(0, i as int).push(rows[i as int]));
            }
            if db.accounts[i].user_id == user_id {
                let ghost prev = out@;
                let row = db.accounts[i].clone();
                out.push(row);
                assert(account_rows(out@) =~= account_rows(prev).push(row@));
            }
        }
        proof {
            assert(rows.subrange(0, n as int) =~= rows);
        }
        DatabaseResult::Succeful(out)
    }

    /// Inserts an account owned by `new_account.user_id`, with the next id
    /// and a zero balance.
    pub fn add(db: &mut Database, new_account: &NewAccount) -> (r: DatabaseResult<Account>)
        requires
            old(db).wf(),
        ensures
            final(db).wf(),
            (r@, final(db)@) == old(db)@.add_account(new_account.name@, new_account.user_id@),
    {
        proof {
            db.lemma_rows();
        }
        let ghost before = db@;
        if db.next_account_id >= MAX_ID {
            return DatabaseResult::AlreadyExists;
        }
        if db.find_user(&new_account.user_id).is_none() {
            return DatabaseResult::NotFound;
        }
        let row = Account {
            balance: zero(),
            user_id: new_account.user_id.clone(),
            id: db.next_account_id,
            name: new_account.name.clone(),
        };
        db.accounts.push(row.clone());
        db.next_account_id = db.next_account_id + 1;
        proof {
            db.lemma_rows();
            assert(db@.accounts =~= before.accounts.push(row@));
        }
        DatabaseResult::Succeful(row)
    }

    /// Full replace of the account with id `id`; the id itself is kept.
    pub fn update(db: &mut Database, id: i32, new_update: &Account) -> (r: DatabaseResult<Account>)
        requires
            old(db).wf(),
        ensures
            final(db).wf(),
            (r@, final(db)@) == old(db)@.update_account(id as int, new_update@),
    {
        proof {
            db.lemma_rows();
        }
        let ghost before = db@;
        let i = match db.find_account(id) {
            Some(i) => i,
            None => {
                return DatabaseResult::NotFound;
            },
        };
        if db.find_user(&new_update.user_id).is_none() {
            return DatabaseResult::NotFound;
        }
        let row = Account {
            balance: new_update.balance.clone(),
            user_id: new_update.user_id.clone(),
            id: db.accounts[i].id,
            name: new_update.name.clone(),
        };
        db.accounts.set(i, row.clone());
        proof {
            db.lemma_rows();
            assert(db@.accounts =~= before.accounts.update(i as int, row@));
        }
        DatabaseResult::Succeful(row)
    }

    /// Deletes the account with id `id` and returns it.
    pub fn delete_by_id(db: &mut Database, id: i32) -> (r: DatabaseResult<Account>)
        requires
            old(db).wf(),
        ensures
            final(db).wf(),
            (r@, final(db)@) == old(db)@.delete_account_by_id(id as int),
    {
        proof {
            db.lemma_rows();
        }
        let ghost rows = db@.accounts;
        let ghost p = with_account_id(id as int);
        let ghost q = without_account_id(id as int);
        let mut kept: Vec<Account> = Vec::new();
        let mut removed: Vec<Account> = Vec::new();
        let n = db.accounts.len();
        for i in 0..n
            invariant
                n == rows.len(),
                rows == account_rows(db.accounts@),
                p == with_account_id(id as int),
                q == without_account_id(id as int),
                account_rows(removed@) == select(rows.subrange(0, i as int), p),
                account_rows(kept@) == select(rows.subrange(0, i as int), q),
        {
            proof {
                lemma_select_push(rows.subrange(0, i as int), rows[i as int], p);
                lemma_select_push(rows.subrange(0, i as int), rows[i as int], q);
                assert(rows.subrange(0, i + 1) =~= rows.subrange(0, i as int).push(rows[i as int]));
            }
            let row = db.accounts[i].clone();
            if row.id == id {
                let ghost prev = removed@;
                removed.push(row);
                assert(account_rows(removed@) =~= account_rows(prev).push(row@));
            } else {
                let ghost prev = kept@;
                kept.push(row);
                assert(account_rows(kept@) =~= account_rows(prev).push(row@));
            }
        }
        proof {
            assert(rows.subrange(0, n as int) =~= rows);
        }
        match removed.pop() {
            None => DatabaseResult::NotFound,
            Some(last) => {
                proof {
                    db.lemma_kept_accounts(select(rows, q), q);
                }
                db.accounts = kept;
                proof {
                    db.lemma_rows();
                }
                DatabaseResult::Succeful(last)
            },
        }
    }

    /// Deletes every account of `user_id` named `name` and returns the last
    /// of them.
    pub fn delete_by_name_user(db: &mut Database, name: &str, user_id: &str) -> (r: DatabaseResult<
        Account,
    >)
        requires
            old(db).wf(),
        ensures
            final(db).wf(),
            (r@, final(db)@) == old(db)@.delete_account_by_name_user(name@, user_id@),
    {
        proof {
            db.lemma_rows();
        }
        let name_key = name.to_owned();
        let owner_key = user_id.to_owned();
        let ghost rows = db@.accounts;
        let ghost p = named_and_owned(name@, user_id@);
        let ghost q = not_named_and_owned(name@, user_id@);
        let mut kept: Vec<Account> = Vec::new();
        let mut removed: Vec<Account> = Vec::new();
        let n = db.accounts.len();
        for i in 0..n
            invariant
                n == rows.len(),
                rows == account_rows(db.accounts@),
                name_key@ == name@,
                owner_key@ == user_id@,
                p == named_and_owned(name@, user_id@),
                q == not_named_and_owned(name@, user_id@),
                account_rows(removed@) == select(rows.subrange(0, i as int), p),
                account_rows(kept@) == select(rows.subrange(0, i as int), q),
        {
            proof {
                lemma_select_push(rows.subrange(0, i as int), rows[i as int], p);
                lemma_select_push(rows.subrange(0, i as int), rows[i as int], q);
                assert(rows.subrange(0, i + 1) =~= rows.subrange(0, i as int).push(rows[i as int]));
            }
            let row = db.accounts[i].clone();
            if row.name == name_key && row.user_id == owner_key {
                let ghost prev = removed@;
                removed.push(row);
                assert(account_rows(removed@) =~= account_rows(prev).push(row@));
            } else {
                let ghost prev = kept@;
                kept.push(row);
                assert(account_rows(kept@) =~= account_rows(prev).push(row@));
            }
        }
        proof {
            assert(rows.subrange(0, n as int) =~= rows);
        }
        match removed.pop() {
            None => DatabaseResult::NotFound,
            Some(last) => {
                proof {
                    db.lemma_kept_accounts(select(rows, q), q);
                }
                db.accounts = kept;
                proof {
                    db.lemma_rows();
                }
                DatabaseResult::Succeful(last)
            },
        }
    }
}

} // verus!
