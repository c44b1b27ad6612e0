//! The three tables (users, bank accounts, transactions) and the database
//! that holds them, with the rules every operation keeps.
pub mod account;
pub mod transaction;
pub mod user;

pub use account::{Account, AccountView, NewAccount};
pub use transaction::{CurrencyType, NewTransaction, Transaction, TransactionView};
pub use crate::calendar::Date;
pub use user::{NewUser, User, UserView};

use crate::select::keys_distinct;
use vstd::prelude::*;

verus! {

/// Largest id a generated primary key may take.
pub const MAX_ID: i32 = 0x7fff_ffff;

/// The primary key of an account row.
pub open spec fn account_key() -> spec_fn(AccountView) -> int {
    |a: AccountView| a.id
}

/// The primary key of a transaction row.
pub open spec fn transaction_key() -> spec_fn(TransactionView) -> int {
    |t: TransactionView| t.id
}

/// The contents of the database: the rows of each table, in insertion order,
/// and the next id that each generated key will hand out.
pub struct DatabaseView {
    pub users: Seq<UserView>,
    pub accounts: Seq<AccountView>,
    pub transactions: Seq<TransactionView>,
    pub next_account_id: int,
    pub next_transaction_id: int,
}

impl DatabaseView {
    /// A username names at most one user, and a token belongs to at most
    /// one user.
    pub open spec fn users_wf(self) -> bool {
        &&& forall|i: int, j: int|
            0 <= i < j < self.users.len() ==> #[trigger] self.users[i].username
                != #[trigger] self.users[j].username
        &&& forall|i: int, j: int|
            0 <= i < j < self.users.len() ==> #[trigger] self.users[i].api_token
                != #[trigger] self.users[j].api_token
    }

    /// Every generated id lies below the next one to be handed out.
    pub open spec fn ids_wf(self) -> bool {
        &&& 1 <= self.next_account_id <= MAX_ID
        &&& 1 <= self.next_transaction_id <= MAX_ID
        &&& forall|k: int|
            0 <= k < self.accounts.len() ==> 1 <= #[trigger] self.accounts[k].id
                < self.next_account_id
        &&& forall|k: int|
            0 <= k < self.transactions.len() ==> 1 <= #[trigger] self.transactions[k].id
                < self.next_transaction_id
    }

    /// No two accounts, and no two transactions, share an id.
    pub open spec fn keys_wf(self) -> bool {
        &&& keys_distinct(self.accounts, account_key())
        &&& keys_distinct(self.transactions, transaction_key())
    }

    /// The invariant every operation keeps.
    pub open spec fn wf(self) -> bool {
        self.users_wf() && self.ids_wf() && self.keys_wf()
    }

    /// The same contents with the users table replaced.
    pub open spec fn with_users(self, users: Seq<UserView>) -> DatabaseView {
        DatabaseView { users, ..self }
    }
}

/// The in-memory database: one table per entity.
pub struct Database {
    users: Vec<User>,
    accounts: Vec<Account>,
    transactions: Vec<Transaction>,
    next_account_id: i32,
    next_transaction_id: i32,
}

/// The views of a list of user rows.
pub open spec fn user_rows(v: Seq<User>) -> Seq<UserView> {
    v.map_values(|u: User| u@)
}

/// The views of a list of account rows.
pub open spec fn account_rows(v: Seq<Account>) -> Seq<AccountView> {
    v.map_values(|a: Account| a@)
}

/// The views of a list of transaction rows.
pub open spec fn transaction_rows(v: Seq<Transaction>) -> Seq<TransactionView> {
    v.map_values(|t: Transaction| t@)
}

impl View for Database {
    type V = DatabaseView;

    closed spec fn view(&self) -> DatabaseView {
        DatabaseView {
            users: user_rows(self.users@),
            accounts: account_rows(self.accounts@),
            transactions: transaction_rows(self.transactions@),
            next_account_id: self.next_account_id as int,
            next_transaction_id: self.next_transaction_id as int,
        }
    }
}

impl Database {
    pub open spec fn wf(&self) -> bool {
        self@.wf()
    }

    /// How the contents relate to the stored rows.
    proof fn lemma_rows(&self)
        ensures
            self@.users == user_rows(self.users@),
            self@.accounts == account_rows(self.accounts@),
            self@.transactions == transaction_rows(self.transactions@),
            self@.next_account_id == self.next_account_id as int,
            self@.next_transaction_id == self.next_transaction_id as int,
            self@.users.len() == self.users@.len(),
            self@.accounts.len() == self.accounts@.len(),
            self@.transactions.len() == self.transactions@.len(),
    {
    }

    /// An empty database.
    pub fn new() -> (db: Database)
        ensures
            db.wf(),
            db@.users.len() == 0,
            db@.accounts.len() == 0,
            db@.transactions.len() == 0,
            db@.next_account_id == 1,
            db@.next_transaction_id == 1,
    {
        Database {
            users: Vec::new(),
            accounts: Vec::new(),
            transactions: Vec::new(),
            next_account_id: 1,
            next_transaction_id: 1,
        }
    }
}


/// What a handler answers for a repository outcome: the payload on success,
/// nothing otherwise; and the database afterwards.
pub open spec fn answered<T>(p: (crate::result_variant::DatabaseResult<T>, DatabaseView)) -> (
    Option<T>,
    DatabaseView,
) {
    (p.0.success(), p.1)
}

} // verus!
