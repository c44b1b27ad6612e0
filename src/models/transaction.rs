//! The transaction table: records of money moving in or out of an account.
use super::{transaction_key, transaction_rows, Database, DatabaseView, MAX_ID};
use crate::calendar::{today, Date};
use crate::result_variant::{found, DatabaseResult};
use crate::select::{
    index_of, last_index, lemma_last_index, lemma_last_index_push, lemma_select_push,
    lemma_select_keys_distinct, lemma_select_sound, select,
};
use vstd::prelude::*;

verus! {

/// Currency of a transaction.
#[derive(Clone, Copy, Debug, PartialEq, Eq, Structural)]
pub enum CurrencyType {
    USD,
    IRR,
    CAD,
    EUR,
}

/// The label under which a currency is stored, as ASCII bytes.
pub open spec fn currency_label(c: CurrencyType) -> Seq<u8> {
    match c {
        CurrencyType::USD => seq![85u8, 83u8, 68u8],
        CurrencyType::IRR => seq![73u8, 82u8, 82u8],
        CurrencyType::CAD => seq![67u8, 65u8, 68u8],
        CurrencyType::EUR => seq![69u8, 85u8, 82u8],
    }
}

impl CurrencyType {
    /// The stored label: `USD`, `IRR`, `CAD` or `EUR`.
    pub fn to_sql(&self) -> (r: Vec<u8>)
        ensures
            r@ == currency_label(*self),
    {
        let r = match self {
            CurrencyType::USD => vec![85u8, 83u8, 68u8],
            CurrencyType::IRR => vec![73u8, 82u8, 82u8],
            CurrencyType::CAD => vec![67u8, 65u8, 68u8],
            CurrencyType::EUR => vec![69u8, 85u8, 82u8],
        };
        assert(r@ =~= currency_label(*self));
        r
    }

    /// The currency stored under `bytes`; `None` for an unknown label.
    pub fn from_sql(bytes: &[u8]) -> (r: Option<CurrencyType>)
        ensures
            r matches Some(c) ==> currency_label(c) == bytes@,
            r is None ==> forall|c: CurrencyType| currency_label(c) != bytes@,
    {
        if bytes.len() != 3 {
            return None;
        }
        let (a, b, c) = (bytes[0], bytes[1], bytes[2]);
        if a == 85u8 && b == 83u8 && c == 68u8 {
            assert(bytes@ =~= currency_label(CurrencyType::USD));
            Some(CurrencyType::USD)
        } else if a == 73u8 && b == 82u8 && c == 82u8 {
            assert(bytes@ =~= currency_label(CurrencyType::IRR));
            Some(CurrencyType::IRR)
        } else if a == 67u8 && b == 65u8 && c == 68u8 {
            assert(bytes@ =~= currency_label(CurrencyType::CAD));
            Some(CurrencyType::CAD)
        } else if a == 69u8 && b == 85u8 && c == 82u8 {
            assert(bytes@ =~= currency_label(CurrencyType::EUR));
            Some(CurrencyType::EUR)
        } else {
            assert forall|k: CurrencyType| currency_label(k) != bytes@ by {
                assert(currency_label(k)[0] != bytes@[0] || currency_label(k)[1] != bytes@[1]
                    || currency_label(k)[2] != bytes@[2]);
            }
            None
        }
    }
}

fn clone_title(t: &Option<String>) -> (r: Option<String>)
    ensures
        r == *t,
{
    match t {
        Some(s) => Some(s.clone()),
        None => None,
    }
}

pub open spec fn title_view(t: Option<String>) -> Option<Seq<char>> {
    match t {
        Some(s) => Some(s@),
        None => None,
    }
}

/// A row of the transaction table. `kind` is a free debit/credit flag and
/// `value` a decimal written as text.
#[derive(Debug, PartialEq)]
pub struct Transaction {
    pub kind: bool,
    pub title: Option<String>,
    pub value: String,
    pub currency: CurrencyType,
    pub time: Date,
    pub user_id: String,
    pub id: i32,
    pub bank_account: i32,
}

pub struct TransactionView {
    pub kind: bool,
    pub title: Option<Seq<char>>,
    pub value: Seq<char>,
    pub currency: CurrencyType,
    pub time: Date,
    pub user_id: Seq<char>,
    pub id: int,
    pub bank_account: int,
}

impl View for Transaction {
    type V = TransactionView;

    open spec fn view(&self) -> TransactionView {
        TransactionView {
            kind: self.kind,
            title: title_view(self.title),
            value: self.value@,
            currency: self.currency,
            time: self.time,
            user_id: self.user_id@,
            id: self.id as int,
            bank_account: self.bank_account as int,
        }
    }
}

impl Clone for Transaction {
    fn clone(&self) -> (r: Transaction)
        ensures
            r == *self,
    {
        Transaction {
            kind: self.kind,
            title: clone_title(&self.title),
            value: self.value.clone(),
            currency: self.currency,
            time: self.time,
            user_id: self.user_id.clone(),
            id: self.id,
            bank_account: self.bank_account,
        }
    }
}

/// A transaction about to be inserted.
#[derive(Debug)]
pub struct NewTransaction {
    pub kind: bool,
    pub title: Option<String>,
    pub value: String,
    pub currency: CurrencyType,
    pub time: Date,
    pub user_id: String,
    pub bank_account: i32,
}

impl Clone for NewTransaction {
    fn clone(&self) -> (r: NewTransaction)
        ensures
            r == *self,
    {
        NewTransaction {
            kind: self.kind,
            title: clone_title(&self.title),
            value: self.value.clone(),
            currency: self.currency,
            time: self.time,
            user_id: self.user_id.clone(),
            bank_account: self.bank_account,
        }
    }
}

impl NewTransaction {
    /// The row this insert writes when given id `id`.
    pub open spec fn row(&self, id: int) -> TransactionView {
        TransactionView {
            kind: self.kind,
            title: title_view(self.title),
            value: self.value@,
            currency: self.currency,
            time: self.time,
            user_id: self.user_id@,
            id,
            bank_account: self.bank_account as int,
        }
    }

    /// A transaction dated today.
    pub fn new(
        kind: bool,
        title: Option<String>,
        value: String,
        currency: CurrencyType,
        user_id: String,
        bank_account: i32,
    ) -> (r: NewTransaction)
        ensures
            r.kind == kind,
            r.title == title,
            r.value == value,
            r.currency == currency,
            r.time.is_valid(),
            r.user_id == user_id,
            r.bank_account == bank_account,
    {
        let time = today();
        NewTransaction { kind, title, value, currency, time, user_id, bank_account }
    }
}

impl Default for NewTransaction {
    fn default() -> (r: NewTransaction)
        ensures
            r.kind,
            title_view(r.title) == Some("Huh"@),
            r.value@ == "344134000"@,
            r.currency == CurrencyType::USD,
            r.time.is_valid(),
            r.user_id@ == "test_user"@,
            r.bank_account == 1,
    {
        NewTransaction::new(
            true,
            Some(String::from_str("Huh")),
            String::from_str("344134000"),
            CurrencyType::USD,
            String::from_str("test_user"),
            1,
        )
    }
}

pub open spec fn with_transaction_id(id: int) -> spec_fn(TransactionView) -> bool {
    |t: TransactionView| t.id == id
}

pub open spec fn without_transaction_id(id: int) -> spec_fn(TransactionView) -> bool {
    |t: TransactionView| t.id != id
}

pub open spec fn in_account(account_id: int) -> spec_fn(TransactionView) -> bool {
    |t: TransactionView| t.bank_account == account_id
}

pub open spec fn not_in_account(account_id: int) -> spec_fn(TransactionView) -> bool {
    |t: TransactionView| t.bank_account != account_id
}

impl DatabaseView {
    pub open spec fn with_transactions(self, transactions: Seq<TransactionView>) -> DatabaseView {
        DatabaseView { transactions, ..self }
    }

    pub open spec fn transaction_with_id(self, id: int) -> Option<TransactionView> {
        let i = last_index(self.transactions, with_transaction_id(id));
        if i < 0 {
            None
        } else {
            Some(self.transactions[i])
        }
    }

    /// The transactions of one bank account, in insertion order.
    pub open spec fn transactions_of(self, account_id: int) -> Seq<TransactionView> {
        select(self.transactions, in_account(account_id))
    }

    /// Insert with the next generated id; `NotFound` when the user or the
    /// bank account it refers to does not exist, `AlreadyExists` when ids are
    /// exhausted.
    pub open spec fn add_transaction(self, t: NewTransaction) -> (
        DatabaseResult<TransactionView>,
        DatabaseView,
    ) {
        if self.next_transaction_id >= MAX_ID {
            (DatabaseResult::AlreadyExists, self)
        } else if self.user_named(t.user_id@) is None || self.account_with_id(
            t.bank_account as int,
        ) is None {
            (DatabaseResult::NotFound, self)
        } else {
            let row = t.row(self.next_transaction_id);
            (
                DatabaseResult::Succeful(row),
                DatabaseView {
                    transactions: self.transactions.push(row),
                    next_transaction_id: self.next_transaction_id + 1,
                    ..self
                },
            )
        }
    }

    pub open spec fn delete_transaction(self, id: int) -> (
        DatabaseResult<TransactionView>,
        DatabaseView,
    ) {
        let removed = select(self.transactions, with_transaction_id(id));
        if removed.len() == 0 {
            (DatabaseResult::NotFound, self)
        } else {
            (
                DatabaseResult::Succeful(removed.last()),
                self.with_transactions(select(self.transactions, without_transaction_id(id))),
            )
        }
    }

    /// Removes the transactions of one bank account and returns them.
    pub open spec fn delete_account_transactions(self, account_id: int) -> (
        Seq<TransactionView>,
        DatabaseView,
    ) {
        (
            select(self.transactions, in_account(account_id)),
            self.with_transactions(select(self.transactions, not_in_account(account_id))),
        )
    }
}

impl Database {
    proof fn lemma_kept_transactions(
        self,
        kept: Seq<TransactionView>,
        p: spec_fn(TransactionView) -> bool,
    )
        requires
            self.wf(),
            kept == select(self@.transactions, p),
        ensures
            self@.with_transactions(kept).wf(),
    {
        lemma_select_sound(self@.transactions, p);
        lemma_select_keys_distinct(self@.transactions, p, transaction_key());
        assert forall|k: int| 0 <= k < kept.len() implies 1 <= #[trigger] kept[k].id
            < self@.next_transaction_id by {
            let j = choose|j: int|
                0 <= j < self@.transactions.len() && self@.transactions[j] == kept[k];
        }
    }

    pub(crate) fn find_transaction(&self, id: i32) -> (r: Option<usize>)
        ensures
            index_of(r) == last_index(self@.transactions, with_transaction_id(id as int)),
            -1 <= index_of(r) < self@.transactions.len(),
    {
        proof {
            self.lemma_rows();
            lemma_last_index(self@.transactions, with_transaction_id(id as int));
        }
        let ghost rows = self@.transactions;
        let mut found: Option<usize> = None;
        let n = self.transactions.len();
        for i in 0..n
            invariant
                n == rows.len(),
                rows == self@.transactions,
                rows == transaction_rows(self.transactions@),
                index_of(found) == last_index(
                    rows.subrange(0, i as int),
                    with_transaction_id(id as int),
                ),
        {
            proof {
                lemma_last_index_push(
                    rows.subrange(0, i as int),
                    rows[i as int],
                    with_transaction_id(id as int),
                );
                assert(rows.subrange(0, i + 1) =~= rows.subrange(0, i as int).push(rows[i as int]));
            }
            if self.transactions[i].id == id {
                found = Some(i);
            }
        }
        proof {
            assert(rows.subrange(0, n as int) =~= rows);
        }
        found
    }
}

impl Transaction {
    pub fn new(
        kind: bool,
        title: Option<String>,
        value: String,
        currency: CurrencyType,
        time: Date,
        user_id: String,
        id: i32,
        bank_account: i32,
    ) -> (r: Transaction)
        ensures
            r == (Transaction { kind, title, value, currency, time, user_id, id, bank_account }),
    {
        Transaction { kind, title, value, currency, time, user_id, id, bank_account }
    }

    /// Inserts a transaction with the next generated id.
    pub fn add(db: &mut Database, trans: &NewTransaction) -> (r: DatabaseResult<Transaction>)
        requires
            old(db).wf(),
        ensures
            final(db).wf(),
            (r@, final(db)@) == old(db)@.add_transaction(*trans),
    {
        proof {
            db.lemma_rows();
        }
        let ghost before = db@;
        if db.next_transaction_id >= MAX_ID {
            return DatabaseResult::AlreadyExists;
        }
        if db.find_user(&trans.user_id).is_none() || db.find_account(trans.bank_account).is_none() {
            return DatabaseResult::NotFound;
        }
        let row = Transaction {
            kind: trans.kind,
            title: clone_title(&trans.title),
            value: trans.value.clone(),
            currency: trans.currency,
            time: trans.time,
            user_id: trans.user_id.clone(),
            id: db.next_transaction_id,
            bank_account: trans.bank_account,
        };
        db.transactions.push(row.clone());
        db.next_transaction_id = db.next_transaction_id + 1;
        proof {
            db.lemma_rows();
            assert(db@.transactions =~= before.transactions.push(row@));
        }
        DatabaseResult::Succeful(row)
    }

    /// Every transaction of bank account `account_id`, in insertion order.
    pub fn all(db: &Database, account_id: i32) -> (r: DatabaseResult<Vec<Transaction>>)
        ensures
            r matches DatabaseResult::Succeful(v) && transaction_rows(v@) == db@.transactions_of(
                account_id as int,
            ),
    {
        proof {
            db.lemma_rows();
        }
        let ghost rows = db@.transactions;
        let ghost p = in_account(account_id as int);
        let mut out: Vec<Transaction> = Vec::new();
        let n = db.transactions.len();
        for i in 0..n
            invariant
                n == rows.len(),
                rows == transaction_rows(db.transactions@),
                p == in_account(account_id as int),
                transaction_rows(out@) == select(rows.subrange(0, i as int), p),
        {
            proof {
                lemma_select_push(rows.subrange(0, i as int), rows[i as int], p);
                assert(rows.subrange(0, i + 1) =~= rows.subrange(0, i as int).push(rows[i as int]));
            }
            if db.transactions[i].bank_account == account_id {
                let ghost prev = out@;
                let row = db.transactions[i].clone();
                out.push(row);
                assert(transaction_rows(out@) =~= transaction_rows(prev).push(row@));
            }
        }
        proof {
            assert(rows.subrange(0, n as int) =~= rows);
        }
        DatabaseResult::Succeful(out)
    }

    /// The transaction with id `id`.
    pub fn get(db: &Database, id: i32) -> (r: DatabaseResult<Transaction>)
        ensures
            r@ == found(db@.transaction_with_id(id as int)),
    {
        proof {
            db.lemma_rows();
        }
        match db.find_transaction(id) {
            Some(i) => DatabaseResult::Succeful(db.transactions[i].clone()),
            None => DatabaseResult::NotFound,
        }
    }

    /// Deletes the transaction with id `id` and returns it.
    pub fn delete(db: &mut Database, id: i32) -> (r: DatabaseResult<Transaction>)
        requires
            old(db).wf(),
        ensures
            final(db).wf(),
            (r@, final(db)@) == old(db)@.delete_transaction(id as int),
    {
        proof {
            db.lemma_rows();
        }
        let ghost rows = db@.transactions;
        let ghost p = with_transaction_id(id as int);
        let ghost q = without_transaction_id(id as int);
        let mut kept: Vec<Transaction> = Vec::new();
        let mut removed: Vec<Transaction> = Vec::new();
        let n = db.transactions.len();
        for i in 0..n
            invariant
                n == rows.len(),
                rows == transaction_rows(db.transactions@),
                p == with_transaction_id(id as int),
                q == without_transaction_id(id as int),
                transaction_rows(removed@) == select(rows.subrange(0, i as int), p),
                transaction_rows(kept@) == select(rows.subrange(0, i as int), q),
        {
            proof {
                lemma_select_push(rows.subrange(0, i as int), rows[i as int], p);
                lemma_select_push(rows.subrange(0, i as int), rows[i as int], q);
                assert(rows.subrange(0, i + 1) =~= rows.subrange(0, i as int).push(rows[i as int]));
            }
            let row = db.transactions[i].clone();
            if row.id == id {
                let ghost prev = removed@;
                removed.push(row);
                assert(transaction_rows(removed@) =~= transaction_rows(prev).push(row@));
            } else {
                let ghost prev = kept@;
                kept.push(row);
                assert(transaction_rows(kept@) =~= transaction_rows(prev).push(row@));
            }
        }
        proof {
            assert(rows.subrange(0, n as int) =~= rows);
        }
        match removed.pop() {
            None => DatabaseResult::NotFound,
            Some(last) => {
                proof {
                    db.lemma_kept_transactions(select(rows, q), q);
                }
                db.transactions = kept;
                proof {
                    db.lemma_rows();
                }
                DatabaseResult::Succeful(last)
            },
        }
    }

    /// Deletes every transaction of bank account `account_id` and returns
    /// them, in insertion order; the other transactions stay as they were.
    pub fn delete_account(db: &mut Database, account_id: i32) -> (r: DatabaseResult<
        Vec<Transaction>,
    >)
        requires
            old(db).wf(),
        ensures
            final(db).wf(),
            r matches DatabaseResult::Succeful(v) && (transaction_rows(v@), final(db)@)
                == old(db)@.delete_account_transactions(account_id as int),
    {
        proof {
            db.lemma_rows();
        }
        let ghost rows = db@.transactions;
        let ghost p = in_account(account_id as int);
        let ghost q = not_in_account(account_id as int);
        let mut kept: Vec<Transaction> = Vec::new();
        let mut removed: Vec<Transaction> = Vec::new();
        let n = db.transactions.len();
        for i in 0..n
            invariant
                n == rows.len(),
                rows == transaction_rows(db.transactions@),
                p == in_account(account_id as int),
                q == not_in_account(account_id as int),
                transaction_rows(removed@) == select(rows.subrange(0, i as int), p),
                transaction_rows(kept@) == select(rows.subrange(0, i as int), q),
        {
            proof {
                lemma_select_push(rows.subrange(0, i as int), rows[i as int], p);
                lemma_select_push(rows.subrange(0, i as int), rows[i as int], q);
                assert(rows.subrange(0, i + 1) =~= rows.subrange(0, i as int).push(rows[i as int]));
            }
            let row = db.transactions[i].clone();
            if row.bank_account == account_id {
                let ghost prev = removed@;
                removed.push(row);
                assert(transaction_rows(removed@) =~= transaction_rows(prev).push(row@));
            } else {
                let ghost prev = kept@;
                kept.push(row);
                assert(transaction_rows(kept@) =~= transaction_rows(prev).push(row@));
            }
        }
        proof {
            assert(rows.subrange(0, n as int) =~= rows);
            db.lemma_kept_transactions(select(rows, q), q);
        }
        db.transactions = kept;
        proof {
            db.lemma_rows();
        }
        DatabaseResult::Succeful(removed)
    }
}

} // verus!
