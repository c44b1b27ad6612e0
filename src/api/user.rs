//! Handlers of the user routes: sign-up, self-service and administration.
use crate::authentication::gaurd::{AdminGaurd, UserGaurd};
use crate::authentication::hasher::password_digest;
use crate::authentication::token_generator::is_token;
use crate::models::{answered, user_rows, Database, NewUser, User, UserView};
use crate::result_variant::opt_view;
use vstd::prelude::*;

verus! {

/// Sign-up form: the password is plaintext.
#[derive(Debug, Clone)]
pub struct UserData {
    pub name: String,
    pub username: String,
    pub password: String,
}

impl NewUser {
    /// The user a sign-up form creates: password digested, fresh token.
    pub fn from_user_data(data: UserData) -> (r: NewUser)
        ensures
            r.name@ == data.name@,
            r.username@ == data.username@,
            r.password@ == password_digest(data.password@),
            r.password@.len() == 64,
            is_token(r.api_token@),
    {
        let UserData { name, username, password } = data;
        let digest = crate::authentication::hasher::Hash::hash(password);
        User::new_user(username, digest, name)
    }
}

/// GET /admin/users: every user.
pub fn super_get_all_user(admin: AdminGaurd, db: &Database) -> (r: Option<Vec<User>>)
    ensures
        r matches Some(v) && user_rows(v@) == db@.users,
{
    User::all(db).ok()
}

/// GET /admin/users?username=: one user.
pub fn super_get_user(username: &str, user: AdminGaurd, db: &Database) -> (r: Option<User>)
    ensures
        opt_view(r) == db@.user_named(username@),
{
    User::get(db, username).ok()
}

/// PATCH /admin/users?username=: full replace of that user, only when the
/// body names the same user.
pub fn super_update_user(update: User, username: &str, user: AdminGaurd, db: &mut Database) -> (r:
    Option<User>)
    requires
        old(db).wf(),
    ensures
        final(db).wf(),
        if username@ == update.username@ {
            (opt_view(r), final(db)@) == answered(old(db)@.update_user(update@))
        } else {
            r is None && final(db)@ == old(db)@
        },
{
    let key = username.to_owned();
    if !(key == update.username) {
        return None;
    }
    User::update(db, &update).ok()
}

/// DELETE /admin/users?username=: removes that user.
pub fn super_delete_user(username: &str, admin: AdminGaurd, db: &mut Database) -> (r: Option<User>)
    requires
        old(db).wf(),
    ensures
        final(db).wf(),
        (opt_view(r), final(db)@) == answered(old(db)@.delete_user(username@)),
{
    User::delete_by_username(db, username).ok()
}

/// POST /users: sign-up. Fails when the username (or, by chance, the
/// generated token) is taken.
pub fn create_user(new_user: UserData, db: &mut Database) -> (r: Option<User>)
    requires
        old(db).wf(),
    ensures
        final(db).wf(),
        exists|t: Seq<char>|
            is_token(t) && (opt_view(r), final(db)@) == answered(
                #[trigger] old(db)@.add_user(
                    UserView {
                        name: new_user.name@,
                        username: new_user.username@,
                        password: password_digest(new_user.password@),
                        api_token: t,
                        role: false,
                    },
                ),
            ),
        r matches Some(u) ==> u.password@ == password_digest(new_user.password@)
            && u.password@.len() == 64,
{
    let row = NewUser::from_user_data(new_user);
    User::add(db, &row).ok()
}

/// GET /users: the caller's own record.
pub fn get_user(user: UserGaurd, db: &Database) -> (r: Option<User>)
    ensures
        opt_view(r) == db@.user_named(user.username@),
{
    User::get(db, user.username.as_str()).ok()
}

/// PATCH /users: full replace of the caller's own record; a body naming
/// another user is refused.
pub fn update_user(update: User, user: UserGaurd, db: &mut Database) -> (r: Option<User>)
    requires
        old(db).wf(),
    ensures
        final(db).wf(),
        if user.username@ == update.username@ {
            (opt_view(r), final(db)@) == answered(old(db)@.update_user(update@))
        } else {
            r is None && final(db)@ == old(db)@
        },
{
    if !(user.username == update.username) {
        return None;
    }
    User::update(db, &update).ok()
}

/// DELETE /users: removes the caller.
pub fn delete_user(user: UserGaurd, db: &mut Database) -> (r: Option<User>)
    requires
        old(db).wf(),
    ensures
        final(db).wf(),
        (opt_view(r), final(db)@) == answered(old(db)@.delete_user(user.username@)),
{
    User::delete_by_username(db, user.username.as_str()).ok()
}

} // verus!
