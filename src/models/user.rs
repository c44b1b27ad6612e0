//! The users table: sign-up, lookup by username or bearer token, update,
//! token refresh and deletion.
use super::{Database, DatabaseView, user_rows};
use crate::authentication::hasher::password_digest;
use crate::authentication::token_generator::{is_token, random_token};
use crate::result_variant::{found, DatabaseResult};
use crate::select::{index_of, last_index, lemma_last_index, lemma_last_index_push};
use vstd::prelude::*;

verus! {

/// A row of the users table. `password` holds the digest of the password,
/// never the plaintext; `role` marks an administrator.
#[derive(Debug, PartialEq)]
pub struct User {
    pub name: String,
    pub username: String,
    pub password: String,
    pub api_token: String,
    pub role: bool,
}

pub struct UserView {
    pub name: Seq<char>,
    pub username: Seq<char>,
    pub password: Seq<char>,
    pub api_token: Seq<char>,
    pub role: bool,
}

impl View for User {
    type V = UserView;

    open spec fn view(&self) -> UserView {
        UserView {
            name: self.name@,
            username: self.username@,
            password: self.password@,
            api_token: self.api_token@,
            role: self.role,
        }
    }
}

impl Clone for User {
    fn clone(&self) -> (r: User)
        ensures
            r == *self,
    {
        User {
            name: self.name.clone(),
            username: self.username.clone(),
            password: self.password.clone(),
            api_token: self.api_token.clone(),
            role: self.role,
        }
    }
}

/// A user about to be inserted: a new user is never an administrator.
#[derive(Debug)]
pub struct NewUser {
    pub name: String,
    pub username: String,
    pub password: String,
    pub api_token: String,
}

impl NewUser {
    /// The row this insert would write.
    pub open spec fn row(&self) -> UserView {
        UserView {
            name: self.name@,
            username: self.username@,
            password: self.password@,
            api_token: self.api_token@,
            role: false,
        }
    }

    /// A new user with a freshly generated bearer token; `password` is
    /// stored as given.
    pub fn new(name: String, username: String, password: String) -> (r: NewUser)
        ensures
            r.name@ == name@,
            r.username@ == username@,
            r.password@ == password@,
            is_token(r.api_token@),
    {
        let api_token = random_token();
        NewUser { name, username, password, api_token }
    }
}

impl Default for NewUser {
    fn default() -> (r: NewUser)
        ensures
            r.name@ == "Kimia"@,
            r.username@ == "absolute_trash"@,
            r.password@ == "huh"@,
            r.api_token@ == "f"@,
    {
        NewUser {
            name: String::from_str("Kimia"),
            username: String::from_str("absolute_trash"),
            password: String::from_str("huh"),
            api_token: String::from_str("f"),
        }
    }
}

/// Rows whose username is `n`.
pub open spec fn named(n: Seq<char>) -> spec_fn(UserView) -> bool {
    |u: UserView| u.username == n
}

/// Rows whose token is `t`.
pub open spec fn holding_token(t: Seq<char>) -> spec_fn(UserView) -> bool {
    |u: UserView| u.api_token == t
}

/// Rows of users other than `n` whose token is `t`.
pub open spec fn holding_token_besides(t: Seq<char>, n: Seq<char>) -> spec_fn(UserView) -> bool {
    |u: UserView| u.api_token == t && u.username != n
}

impl DatabaseView {
    pub open spec fn user_named(self, n: Seq<char>) -> Option<UserView> {
        let i = last_index(self.users, named(n));
        if i < 0 {
            None
        } else {
            Some(self.users[i])
        }
    }

    pub open spec fn user_by_token(self, t: Seq<char>) -> Option<UserView> {
        let i = last_index(self.users, holding_token(t));
        if i < 0 {
            None
        } else {
            Some(self.users[i])
        }
    }

    pub open spec fn token_in_use(self, t: Seq<char>) -> bool {
        last_index(self.users, holding_token(t)) >= 0
    }

    /// Insert: refused when the username or the token is taken.
    pub open spec fn add_user(self, u: UserView) -> (DatabaseResult<UserView>, DatabaseView) {
        if self.user_named(u.username) is Some || self.token_in_use(u.api_token) {
            (DatabaseResult::AlreadyExists, self)
        } else {
            (DatabaseResult::Succeful(u), self.with_users(self.users.push(u)))
        }
    }

    /// Full replace of the user with `u`'s username; the password given is
    /// plaintext and the digest of it is stored.
    pub open spec fn update_user(self, u: UserView) -> (DatabaseResult<UserView>, DatabaseView) {
        let i = last_index(self.users, named(u.username));
        let row = UserView { password: password_digest(u.password), ..u };
        if i < 0 {
            (DatabaseResult::NotFound, self)
        } else if last_index(self.users, holding_token_besides(u.api_token, u.username)) >= 0 {
            (DatabaseResult::AlreadyExists, self)
        } else {
            (DatabaseResult::Succeful(row), self.with_users(self.users.update(i, row)))
        }
    }

    /// Gives user `n` the token `t`, which must not be in use, the user's
    /// own current token included.
    pub open spec fn refresh_token(self, n: Seq<char>, t: Seq<char>) -> (
        DatabaseResult<UserView>,
        DatabaseView,
    ) {
        let i = last_index(self.users, named(n));
        if i < 0 {
            (DatabaseResult::NotFound, self)
        } else if self.token_in_use(t) {
            (DatabaseResult::AlreadyExists, self)
        } else {
            let row = UserView { api_token: t, ..self.users[i] };
            (DatabaseResult::Succeful(row), self.with_users(self.users.update(i, row)))
        }
    }

    pub open spec fn delete_user(self, n: Seq<char>) -> (DatabaseResult<UserView>, DatabaseView) {
        let i = last_index(self.users, named(n));
        if i < 0 {
            (DatabaseResult::NotFound, self)
        } else {
            (DatabaseResult::Succeful(self.users[i]), self.with_users(self.users.remove(i)))
        }
    }
}

impl Database {
    pub(crate) fn find_user(&self, username: &String) -> (r: Option<usize>)
        ensures
            index_of(r) == last_index(self@.users, named(username@)),
            -1 <= index_of(r) < self@.users.len(),
    {
        proof {
            self.lemma_rows();
            lemma_last_index(self@.users, named(username@));
        }
        let ghost rows = self@.users;
        let mut found: Option<usize> = None;
        let n = self.users.len();
        for i in 0..n
            invariant
                n == rows.len(),
                rows == self@.users,
                index_of(found) == last_index(rows.subrange(0, i as int), named(username@)),
        {
            proof {
                lemma_last_index_push(rows.subrange(0, i as int), rows[i as int], named(username@));
                assert(rows.subrange(0, i + 1) =~= rows.subrange(0, i as int).push(rows[i as int]));
            }
            if self.users[i].username == *username {
                found = Some(i);
            }
        }
        proof {
            assert(rows.subrange(0, n as int) =~= rows);
        }
        found
    }
}


impl Database {
    pub(crate) fn find_token(&self, token: &String) -> (r: Option<usize>)
        ensures
            index_of(r) == last_index(self@.users, holding_token(token@)),
            -1 <= index_of(r) < self@.users.len(),
    {
        proof {
            self.lemma_rows();
            lemma_last_index(self@.users, holding_token(token@));
        }
        let ghost rows = self@.users;
        let mut found: Option<usize> = None;
        let n = self.users.len();
        for i in 0..n
            invariant
                n == rows.len(),
                rows == self@.users,
                index_of(found) == last_index(rows.subrange(0, i as int), holding_token(token@)),
        {
            proof {
                lemma_last_index_push(
                    rows.subrange(0, i as int),
                    rows[i as int],
                    holding_token(token@),
                );
                assert(rows.subrange(0, i + 1) =~= rows.subrange(0, i as int).push(rows[i as int]));
            }
            if self.users[i].api_token == *token {
                found = Some(i);
            }
        }
        proof {
            assert(rows.subrange(0, n as int) =~= rows);
        }
        found
    }

    fn find_token_besides(&self, token: &String, username: &String) -> (r: Option<usize>)
        ensures
            index_of(r) == last_index(self@.users, holding_token_besides(token@, username@)),
            -1 <= index_of(r) < self@.users.len(),
    {
        proof {
            self.lemma_rows();
            lemma_last_index(self@.users, holding_token_besides(token@, username@));
        }
        let ghost rows = self@.users;
        let ghost p = holding_token_besides(token@, username@);
        let mut found: Option<usize> = None;
        let n = self.users.len();
        for i in 0..n
            invariant
                n == rows.len(),
                rows == self@.users,
                p == holding_token_besides(token@, username@),
                index_of(found) == last_index(rows.subrange(0, i as int), p),
        {
            proof {
                lemma_last_index_push(rows.subrange(0, i as int), rows[i as int], p);
                assert(rows.subrange(0, i + 1) =~= rows.subrange(0, i as int).push(rows[i as int]));
            }
            if self.users[i].api_token == *token && !(self.users[i].username == *username) {
                found = Some(i);
            }
        }
        proof {
            assert(rows.subrange(0, n as int) =~= rows);
        }
        found
    }
}

impl User {
    /// A plain user with placeholder token `"f"`.
    pub fn new(username: &str, password: &str, name: &str) -> (r: User)
        ensures
            r.name@ == name@,
            r.username@ == username@,
            r.password@ == password@,
            r.api_token@ == "f"@,
            !r.role,
    {
        User {
            username: username.to_owned(),
            password: password.to_owned(),
            name: name.to_owned(),
            api_token: String::from_str("f"),
            role: false,
        }
    }

    /// A user to insert, with a freshly generated token.
    pub fn new_user(username: String, password: String, name: String) -> (r: NewUser)
        ensures
            r.name@ == name@,
            r.username@ == username@,
            r.password@ == password@,
            is_token(r.api_token@),
    {
        NewUser::new(name, username, password)
    }

    /// The user with the given username (exact, case-sensitive match).
    pub fn get(db: &Database, username: &str) -> (r: DatabaseResult<User>)
        ensures
            r@ == found(db@.user_named(username@)),
    {
        proof {
            db.lemma_rows();
        }
        let key = username.to_owned();
        match db.find_user(&key) {
            Some(i) => DatabaseResult::Succeful(db.users[i].clone()),
            None => DatabaseResult::NotFound,
        }
    }

    /// The user whose bearer token is `token`.
    pub fn get_by_token(db: &Database, token: &str) -> (r: DatabaseResult<User>)
        ensures
            r@ == found(db@.user_by_token(token@)),
    {
        proof {
            db.lemma_rows();
        }
        let key = token.to_owned();
        match db.find_token(&key) {
            Some(i) => DatabaseResult::Succeful(db.users[i].clone()),
            None => DatabaseResult::NotFound,
        }
    }

    /// Every user, in insertion order.
    pub fn all(db: &Database) -> (r: DatabaseResult<Vec<User>>)
        ensures
            r matches DatabaseResult::Succeful(v) && user_rows(v@) == db@.users,
    {
        proof {
            db.lemma_rows();
        }
        let mut out: Vec<User> = Vec::new();
        let n = db.users.len();
        for i in 0..n
            invariant
                n == db@.users.len(),
                db@.users == user_rows(db.users@),
                user_rows(out@) == db@.users.subrange(0, i as int),
        {
            let ghost prev = out@;
            let row = db.users[i].clone();
            assert(row@ == db@.users[i as int]);
            out.push(row);
            assert(user_rows(out@) =~= user_rows(prev).push(row@));
            assert(user_rows(out@) =~= db@.users.subrange(0, i + 1));
        }
        assert(db@.users.subrange(0, n as int) =~= db@.users);
        DatabaseResult::Succeful(out)
    }

    /// Inserts a user; `AlreadyExists` when its username or token is taken.
    pub fn add(db: &mut Database, new_user: &NewUser) -> (r: DatabaseResult<User>)
        requires
            old(db).wf(),
        ensures
            final(db).wf(),
            (r@, final(db)@) == old(db)@.add_user(new_user.row()),
    {
        proof {
            db.lemma_rows();
        }
        let ghost before = db@;
        let by_name = db.find_user(&new_user.username);
        let by_token = db.find_token(&new_user.api_token);
        if by_name.is_some() || by_token.is_some() {
            return DatabaseResult::AlreadyExists;
        }
        proof {
            lemma_last_index(before.users, named(new_user.username@));
            lemma_last_index(before.users, holding_token(new_user.api_token@));
        }
        let row = User {
            name: new_user.name.clone(),
            username: new_user.username.clone(),
            password: new_user.password.clone(),
            api_token: new_user.api_token.clone(),
            role: false,
        };
        db.users.push(row.clone());
        proof {
            assert(db@.users =~= before.users.push(new_user.row()));
            assert(db@ == before.with_users(before.users.push(new_user.row())));
        }
        DatabaseResult::Succeful(row)
    }

    /// Deletes the user with the given username and returns it.
    pub fn delete_by_username(db: &mut Database, username: &str) -> (r: DatabaseResult<User>)
        requires
            old(db).wf(),
        ensures
            final(db).wf(),
            (r@, final(db)@) == old(db)@.delete_user(username@),
    {
        proof {
            db.lemma_rows();
        }
        let ghost before = db@;
        let key = username.to_owned();
        match db.find_user(&key) {
            None => DatabaseResult::NotFound,
            Some(i) => {
                let row = db.users.remove(i);
                proof {
                    assert(db@.users =~= before.users.remove(i as int));
                    assert(db@ == before.with_users(before.users.remove(i as int)));
                    let us = before.users.remove(i as int);
                    assert forall|a: int, b: int| 0 <= a < b < us.len() implies us[a].username
                        != us[b].username && us[a].api_token != us[b].api_token by {
                        let a0 = if a < i { a } else { a + 1 };
                        let b0 = if b < i { b } else { b + 1 };
                        assert(us[a] == before.users[a0]);
                        assert(us[b] == before.users[b0]);
                    }
                }
                DatabaseResult::Succeful(row)
            },
        }
    }

    /// Full replace of the user with `user.username`; `user.password` is the
    /// plaintext, and its digest is what gets stored.
    pub fn update(db: &mut Database, user: &User) -> (r: DatabaseResult<User>)
        requires
            old(db).wf(),
        ensures
            final(db).wf(),
            (r@, final(db)@) == old(db)@.update_user(user@),
    {
        proof {
            db.lemma_rows();
        }
        let ghost before = db@;
        match db.find_user(&user.username) {
            None => DatabaseResult::NotFound,
            Some(i) => {
                if db.find_token_besides(&user.api_token, &user.username).is_some() {
                    return DatabaseResult::AlreadyExists;
                }
                proof {
                    lemma_last_index(before.users, named(user.username@));
                    lemma_last_index(
                        before.users,
                        holding_token_besides(user.api_token@, user.username@),
                    );
                }
                let digest = crate::authentication::hasher::Hash::hash(user.password.clone());
                let row = User {
                    name: user.name.clone(),
                    username: user.username.clone(),
                    password: digest,
                    api_token: user.api_token.clone(),
                    role: user.role,
                };
                db.users.set(i, row.clone());
                proof {
                    db.lemma_rows();
                    assert(db@.users =~= before.users.update(i as int, row@));
                    assert(db@ == before.with_users(before.users.update(i as int, row@)));
                    let us = before.users.update(i as int, row@);
                    assert forall|a: int, b: int| 0 <= a < b < us.len() implies us[a].username
                        != us[b].username && us[a].api_token != us[b].api_token by {
                        if a != i && b != i {
                            assert(us[a] == before.users[a] && us[b] == before.users[b]);
                        } else if a == i {
                            assert(before.users[b].username != before.users[a].username);
                        } else {
                            assert(before.users[a].username != before.users[b].username);
                        }
                    }
                }
                DatabaseResult::Succeful(row)
            },
        }
    }

    /// Gives user `username` the bearer token `token`; `AlreadyExists` when
    /// the token is in use.
    pub fn set_token(db: &mut Database, username: &str, token: &String) -> (r: DatabaseResult<User>)
        requires
            old(db).wf(),
        ensures
            final(db).wf(),
            (r@, final(db)@) == old(db)@.refresh_token(username@, token@),
    {
        proof {
            db.lemma_rows();
        }
        let ghost before = db@;
        let key = username.to_owned();
        match db.find_user(&key) {
            None => DatabaseResult::NotFound,
            Some(i) => {
                if db.find_token(token).is_some() {
                    return DatabaseResult::AlreadyExists;
                }
                proof {
                    lemma_last_index(before.users, named(username@));
                    lemma_last_index(before.users, holding_token(token@));
                }
                let mut row = db.users[i].clone();
                row.api_token = token.clone();
                db.users.set(i, row.clone());
                proof {
                    db.lemma_rows();
                    let new_row = UserView { api_token: token@, ..before.users[i as int] };
                    assert(row@ == new_row);
                    assert(db@.users =~= before.users.update(i as int, new_row));
                    assert(db@ == before.with_users(before.users.update(i as int, new_row)));
                    let us = before.users.update(i as int, new_row);
                    assert forall|a: int, b: int| 0 <= a < b < us.len() implies us[a].username
                        != us[b].username && us[a].api_token != us[b].api_token by {
                        if a != i && b != i {
                            assert(us[a] == before.users[a] && us[b] == before.users[b]);
                        }
                    }
                }
                DatabaseResult::Succeful(row)
            },
        }
    }

    /// Issues a fresh random bearer token to `username` ("refresh bearer"),
    /// replacing the previous one.
    pub fn refresh_bearer(db: &mut Database, username: &str) -> (r: DatabaseResult<User>)
        requires
            old(db).wf(),
        ensures
            final(db).wf(),
            exists|t: Seq<char>|
                is_token(t) && (r@, final(db)@) == #[trigger] old(db)@.refresh_token(username@, t),
    {
        let token = random_token();
        User::set_token(db, username, &token)
    }
}
} // verus!
