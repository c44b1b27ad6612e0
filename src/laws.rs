//! What holds across operations of the library.
use crate::authentication::gaurd::{
    admin_outcome, bearer_scheme, header_token, GaurdError, Outcome,
};
use crate::authentication::hasher::password_digest;
use crate::models::account::zero_balance;
use crate::models::transaction::{in_account, not_in_account};
use crate::models::user::{holding_token, named};
use crate::models::{DatabaseView, UserView};
use crate::result_variant::DatabaseResult;
use crate::select::{
    lemma_last_index, lemma_last_index_none, lemma_last_index_only, lemma_last_index_push,
    lemma_select_complete, lemma_select_sound, lemma_select_split,
};
use vstd::prelude::*;

verus! {

/// Signing up with a username that is not taken (and a token not in use)
/// succeeds, and looking the username up afterwards gives the new user,
/// whose stored password is the digest of the one given.
pub proof fn lemma_sign_up_then_get(
    db: DatabaseView,
    name: Seq<char>,
    username: Seq<char>,
    password: Seq<char>,
    token: Seq<char>,
)
    requires
        db.wf(),
        db.user_named(username) is None,
        !db.token_in_use(token),
    ensures
        ({
            let u = UserView {
                name,
                username,
                password: password_digest(password),
                api_token: token,
                role: false,
            };
            let (r, after) = db.add_user(u);
            &&& r == DatabaseResult::Succeful(u)
            &&& after.wf()
            &&& after.user_named(username) == Some(u)
            &&& after.user_named(username).unwrap().password == password_digest(password)
        }),
{
    let u = UserView {
        name,
        username,
        password: password_digest(password),
        api_token: token,
        role: false,
    };
    lemma_last_index(db.users, named(username));
    lemma_last_index(db.users, holding_token(token));
    lemma_last_index_push(db.users, u, named(username));
}

/// Of two sign-ups with the same username, the second is refused with
/// `AlreadyExists`.
pub proof fn lemma_duplicate_username(db: DatabaseView, first: UserView, second: UserView)
    requires
        db.wf(),
        first.username == second.username,
        db.add_user(first).0 is Succeful,
    ensures
        db.add_user(first).1.add_user(second).0 == DatabaseResult::<UserView>::AlreadyExists,
{
    lemma_last_index_push(db.users, first, named(first.username));
}

/// After a sign-up, the token it issued resolves to the new user.
pub proof fn lemma_token_after_sign_up(db: DatabaseView, u: UserView)
    requires
        db.wf(),
        db.add_user(u).0 is Succeful,
    ensures
        db.add_user(u).1.user_by_token(u.api_token) == Some(u),
{
    lemma_last_index_push(db.users, u, holding_token(u.api_token));
}

/// After a log-in issues token `t` to a user, `t` resolves to that user with
/// `t` as token, and the token the user held before resolves to nobody.
pub proof fn lemma_token_after_login(db: DatabaseView, username: Seq<char>, t: Seq<char>)
    requires
        db.wf(),
        db.refresh_token(username, t).0 is Succeful,
    ensures
        ({
            let (r, after) = db.refresh_token(username, t);
            let previous = db.user_named(username).unwrap().api_token;
            &&& after.wf()
            &&& after.user_by_token(t) == r.success()
            &&& r.success().unwrap().api_token == t
            &&& r.success().unwrap().username == username
            &&& after.user_by_token(previous) is None
        }),
{
    let i = crate::select::last_index(db.users, named(username));
    lemma_last_index(db.users, named(username));
    lemma_last_index(db.users, holding_token(t));
    let row = UserView { api_token: t, ..db.users[i] };
    let us = db.users.update(i, row);
    let previous = db.users[i].api_token;
    assert forall|a: int, b: int| 0 <= a < b < us.len() implies us[a].username != us[b].username
        && us[a].api_token != us[b].api_token by {
        if a != i && b != i {
            assert(us[a] == db.users[a] && us[b] == db.users[b]);
        }
    }
    assert forall|k: int| 0 <= k < us.len() && k != i implies !holding_token(t)(#[trigger] us[k]) by {
        assert(us[k] == db.users[k]);
    }
    lemma_last_index_only(us, holding_token(t), i);
    assert forall|k: int| 0 <= k < us.len() implies !holding_token(previous)(#[trigger] us[k]) by {
        if k != i {
            assert(us[k] == db.users[k]);
            if k < i {
                assert(db.users[k].api_token != db.users[i].api_token);
            } else {
                assert(db.users[i].api_token != db.users[k].api_token);
            }
        }
    }
    lemma_last_index_none(us, holding_token(previous));
}

/// Deleting a username nobody has is `NotFound`; deleting an existing user
/// returns it, after which neither a lookup nor a second deletion finds it.
pub proof fn lemma_delete_user_once(db: DatabaseView, username: Seq<char>)
    requires
        db.wf(),
    ensures
        db.user_named(username) is None ==> db.delete_user(username).0
            == DatabaseResult::<UserView>::NotFound,
        db.user_named(username) matches Some(u) ==> {
            let (r, after) = db.delete_user(username);
            &&& r == DatabaseResult::Succeful(u)
            &&& after.user_named(username) is None
            &&& after.delete_user(username).0 == DatabaseResult::<UserView>::NotFound
        },
{
    lemma_last_index(db.users, named(username));
    let i = crate::select::last_index(db.users, named(username));
    if i >= 0 {
        let us = db.users.remove(i);
        assert forall|k: int| 0 <= k < us.len() implies !named(username)(#[trigger] us[k]) by {
            if k < i {
                assert(us[k] == db.users[k]);
                assert(db.users[k].username != db.users[i].username);
            } else {
                assert(us[k] == db.users[k + 1]);
                assert(db.users[i].username != db.users[k + 1].username);
            }
        }
        lemma_last_index_none(us, named(username));
    }
}

/// A new account starts with balance "0", whatever the request held.
pub proof fn lemma_new_account_balance(db: DatabaseView, name: Seq<char>, user_id: Seq<char>)
    ensures
        db.add_account(name, user_id).0 matches DatabaseResult::Succeful(a) ==> a.balance
            == zero_balance(),
{
}

/// Deleting the transactions of an account removes exactly those whose
/// bank account is that account, returns exactly them, and leaves every
/// other transaction, and every other table, as it was.
pub proof fn lemma_delete_account_transactions(db: DatabaseView, account_id: int)
    requires
        db.wf(),
    ensures
        ({
            let (removed, after) = db.delete_account_transactions(account_id);
            &&& forall|k: int|
                0 <= k < removed.len() ==> (#[trigger] removed[k]).bank_account == account_id
                    && db.transactions.contains(removed[k])
            &&& forall|k: int|
                0 <= k < after.transactions.len() ==> (#[trigger] after.transactions[k]).bank_account
                    != account_id && db.transactions.contains(after.transactions[k])
            &&& forall|k: int|
                0 <= k < db.transactions.len() ==> if (#[trigger] db.transactions[k]).bank_account
                    == account_id {
                    removed.contains(db.transactions[k])
                } else {
                    after.transactions.contains(db.transactions[k])
                }
            &&& removed.len() + after.transactions.len() == db.transactions.len()
            &&& after.users == db.users
            &&& after.accounts == db.accounts
            &&& after.next_account_id == db.next_account_id
            &&& after.next_transaction_id == db.next_transaction_id
        }),
{
    let p = in_account(account_id);
    let q = not_in_account(account_id);
    lemma_select_sound(db.transactions, p);
    lemma_select_sound(db.transactions, q);
    lemma_select_split(db.transactions, p, q);
    assert forall|k: int| 0 <= k < db.transactions.len() implies if (
    #[trigger] db.transactions[k]).bank_account == account_id {
        crate::select::select(db.transactions, p).contains(db.transactions[k])
    } else {
        crate::select::select(db.transactions, q).contains(db.transactions[k])
    } by {
        if db.transactions[k].bank_account == account_id {
            lemma_select_complete(db.transactions, p, k);
        } else {
            lemma_select_complete(db.transactions, q, k);
        }
    }
}

/// The administrator guard rejects (rather than forwards) a request whose
/// token belongs to a user who is not an administrator, lets it through
/// for an administrator, and forwards a request without exactly one
/// `Authorization` value of the form `Bearer <token>`.
pub proof fn lemma_admin_guard(db: DatabaseView, headers: Seq<Seq<char>>)
    ensures
        headers.len() == 1 ==> (header_token(headers[0]) matches Some(t) ==> (db.user_by_token(
            t,
        ) matches Some(u) ==> admin_outcome(db, headers) == (if u.role {
            Outcome::Success(u.username)
        } else {
            Outcome::<Seq<char>, GaurdError>::Failure(GaurdError::NotAdmin)
        }))),
        headers.len() != 1 ==> admin_outcome(db, headers) == Outcome::<
            Seq<char>,
            GaurdError,
        >::Forward,
        headers.len() == 1 && !(headers[0].len() > 6 && headers[0].subrange(0, 6) == bearer_scheme()
            && headers[0][6] == ' ') ==> admin_outcome(db, headers) == Outcome::<
            Seq<char>,
            GaurdError,
        >::Forward,
{
}

} // verus!
