//! Handlers of the bank-account routes.
use crate::authentication::gaurd::UserGaurd;
use crate::models::{account_rows, answered, Account, AccountView, Database, DatabaseView, NewAccount};
use crate::result_variant::{opt_view, DatabaseResult};
use vstd::prelude::*;

verus! {

/// Body of an account creation.
#[derive(Debug, Clone)]
pub struct AccountData {
    pub name: String,
    pub user_id: String,
}

impl NewAccount {
    /// The account a creation body asks for.
    pub fn from_account_data(data: AccountData) -> (r: NewAccount)
        ensures
            r.user_id@ == data.user_id@,
            r.name@ == data.name@,
    {
        let AccountData { name, user_id } = data;
        NewAccount::new(user_id, name)
    }
}

/// GET /accounts: the caller's accounts.
pub fn get_all_accounts(user: UserGaurd, db: &Database) -> (r: Option<Vec<Account>>)
    ensures
        r matches Some(v) && account_rows(v@) == db@.accounts_of(user.username@),
{
    Account::all(db, user.username).ok()
}

/// The account with id `id` when `owner` owns it.
pub open spec fn owned_account(db: DatabaseView, id: int, owner: Seq<char>) -> Option<AccountView> {
    match db.account_with_id(id) {
        Some(a) => if a.user_id == owner {
            Some(a)
        } else {
            None
        },
        None => None,
    }
}

/// GET /accounts/:id: one of the caller's accounts.
pub fn get_account(identifier: i32, user: UserGaurd, db: &Database) -> (r: Option<Account>)
    ensures
        opt_view(r) == owned_account(db@, identifier as int, user.username@),
{
    match Account::get(db, identifier) {
        DatabaseResult::Succeful(account) => {
            if account.user_id == user.username {
                Some(account)
            } else {
                None
            }
        },
        _ => None,
    }
}

/// POST /accounts: a new account owned by the caller, at zero balance.
pub fn create_account(new_account: AccountData, user: UserGaurd, db: &mut Database) -> (r: Option<
    Account,
>)
    requires
        old(db).wf(),
    ensures
        final(db).wf(),
        (opt_view(r), final(db)@) == answered(
            old(db)@.add_account(new_account.name@, user.username@),
        ),
{
    let row = NewAccount::new(user.username, new_account.name);
    Account::add(db, &row).ok()
}

/// PATCH /accounts/:id: full replace.
pub fn update_account(identifier: i32, account: Account, user: UserGaurd, db: &mut Database) -> (r:
    Option<Account>)
    requires
        old(db).wf(),
    ensures
        final(db).wf(),
        (opt_view(r), final(db)@) == answered(
            old(db)@.update_account(identifier as int, account@),
        ),
{
    Account::update(db, identifier, &account).ok()
}

/// DELETE /accounts/:id
pub fn delete_account(identifier: i32, user: UserGaurd, db: &mut Database) -> (r: Option<Account>)
    requires
        old(db).wf(),
    ensures
        final(db).wf(),
        (opt_view(r), final(db)@) == answered(old(db)@.delete_account_by_id(identifier as int)),
{
    Account::delete_by_id(db, identifier).ok()
}

} // verus!
