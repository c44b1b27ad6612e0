//! Handlers of the transaction routes.
use crate::authentication::gaurd::UserGaurd;
use crate::calendar::Date;
use crate::models::{
    answered, transaction_rows, CurrencyType, Database, NewTransaction, Transaction,
};
use crate::result_variant::opt_view;
use vstd::prelude::*;

verus! {

/// Body of a transaction creation; the transaction is dated today.
#[derive(Debug)]
pub struct TransactionData {
    pub kind: bool,
    pub title: String,
    pub value: String,
    pub currency: CurrencyType,
    pub user_id: String,
    pub bank_account: i32,
}

/// The transaction a creation body asks for, dated `time`.
pub open spec fn requested(data: TransactionData, time: Date) -> NewTransaction {
    NewTransaction {
        kind: data.kind,
        title: Some(data.title),
        value: data.value,
        currency: data.currency,
        time,
        user_id: data.user_id,
        bank_account: data.bank_account,
    }
}

/// POST /transaction: records a transaction dated today.
pub fn create_transaction(new_transaction: TransactionData, user: UserGaurd, db: &mut Database) -> (r:
    Option<Transaction>)
    requires
        old(db).wf(),
    ensures
        final(db).wf(),
        exists|d: Date|
            d.is_valid() && (opt_view(r), final(db)@) == answered(
                old(db)@.add_transaction(#[trigger] requested(new_transaction, d)),
            ),
{
    let ghost data = new_transaction;
    let TransactionData { kind, title, value, currency, user_id, bank_account } = new_transaction;
    let row = NewTransaction::new(kind, Some(title), value, currency, user_id, bank_account);
    assert(row == requested(data, row.time));
    Transaction::add(db, &row).ok()
}

/// GET /transaction/:id
pub fn get_transaction(identifier: i32, user: UserGaurd, db: &Database) -> (r: Option<Transaction>)
    ensures
        opt_view(r) == db@.transaction_with_id(identifier as int),
{
    Transaction::get(db, identifier).ok()
}

/// GET /transaction?account_id=: the transactions of one bank account.
pub fn get_account_all_transactions(account_id: i32, user: UserGaurd, db: &Database) -> (r: Option<
    Vec<Transaction>,
>)
    ensures
        r matches Some(v) && transaction_rows(v@) == db@.transactions_of(account_id as int),
{
    Transaction::all(db, account_id).ok()
}

/// DELETE /transaction/:id
pub fn delete_transaction(identifier: i32, user: UserGaurd, db: &mut Database) -> (r: Option<
    Transaction,
>)
    requires
        old(db).wf(),
    ensures
        final(db).wf(),
        (opt_view(r), final(db)@) == answered(old(db)@.delete_transaction(identifier as int)),
{
    Transaction::delete(db, identifier).ok()
}

/// DELETE /transaction?account_id=: removes and returns the transactions of
/// one bank account.
pub fn delete_account_all_transactions(account_id: i32, user: UserGaurd, db: &mut Database) -> (r:
    Option<Vec<Transaction>>)
    requires
        old(db).wf(),
    ensures
        final(db).wf(),
        r matches Some(v) && (transaction_rows(v@), final(db)@)
            == old(db)@.delete_account_transactions(account_id as int),
{
    Transaction::delete_account(db, account_id).ok()
}

} // verus!
