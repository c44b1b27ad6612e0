//! Request guards: resolve the bearer token of a request to a user, then
//! let the request through, reject it, or forward it to other routes.
use crate::models::{Database, DatabaseView, User, UserView};
use crate::result_variant::opt_view;
use vstd::prelude::*;

verus! {

/// Why a guard rejected a request.
#[derive(Clone, Copy, Debug, PartialEq, Eq, Structural)]
pub enum GaurdError {
    /// The caller is authenticated but is not an administrator.
    NotAdmin,
}

/// What a guard decides for a request: let it through with an identity,
/// reject it with an error, or forward it as if the route did not match.
#[derive(Debug, PartialEq)]
pub enum Outcome<S, E> {
    Success(S),
    Failure(E),
    Forward,
}

/// The identity of an authenticated administrator.
#[derive(Debug, PartialEq)]
pub struct AdminGaurd {
    pub username: String,
}

/// The identity of an authenticated user.
#[derive(Debug, PartialEq)]
pub struct UserGaurd {
    pub username: String,
}

/// The authentication scheme: `Bearer`.
pub open spec fn bearer_scheme() -> Seq<char> {
    seq!['B', 'e', 'a', 'r', 'e', 'r']
}

/// End of the space-separated field of `h` that starts at `from`.
pub open spec fn field_end(h: Seq<char>, from: int) -> int
    decreases h.len() - from,
{
    if from >= h.len() {
        h.len() as int
    } else if h[from] == ' ' {
        from
    } else {
        field_end(h, from + 1)
    }
}

/// The token of one `Authorization` value: its second space-separated
/// field, when the first field is exactly `Bearer`.
pub open spec fn header_token(h: Seq<char>) -> Option<Seq<char>> {
    if h.len() > 6 && h.subrange(0, 6) == bearer_scheme() && h[6] == ' ' {
        Some(h.subrange(7, field_end(h, 7)))
    } else {
        None
    }
}

/// The bearer token of a request, from all its `Authorization` values:
/// there must be exactly one.
pub open spec fn request_token(headers: Seq<Seq<char>>) -> Option<Seq<char>> {
    if headers.len() != 1 {
        None
    } else {
        header_token(headers[0])
    }
}

pub open spec fn header_views(headers: Seq<String>) -> Seq<Seq<char>> {
    headers.map_values(|h: String| h@)
}

/// The user a request authenticates as: the owner of its bearer token.
pub open spec fn authenticated(db: DatabaseView, headers: Seq<Seq<char>>) -> Option<UserView> {
    match request_token(headers) {
        Some(t) => db.user_by_token(t),
        None => None,
    }
}

/// What the user guard decides, with the identity as a username.
pub open spec fn user_outcome(db: DatabaseView, headers: Seq<Seq<char>>) -> Outcome<
    Seq<char>,
    GaurdError,
> {
    match authenticated(db, headers) {
        Some(u) => Outcome::Success(u.username),
        None => Outcome::Forward,
    }
}

/// What the administrator guard decides, with the identity as a username.
pub open spec fn admin_outcome(db: DatabaseView, headers: Seq<Seq<char>>) -> Outcome<
    Seq<char>,
    GaurdError,
> {
    match authenticated(db, headers) {
        Some(u) => if u.role {
            Outcome::Success(u.username)
        } else {
            Outcome::Failure(GaurdError::NotAdmin)
        },
        None => Outcome::Forward,
    }
}

impl View for UserGaurd {
    type V = Seq<char>;

    open spec fn view(&self) -> Seq<char> {
        self.username@
    }
}

impl View for AdminGaurd {
    type V = Seq<char>;

    open spec fn view(&self) -> Seq<char> {
        self.username@
    }
}

impl<S: View, E> View for Outcome<S, E> {
    type V = Outcome<S::V, E>;

    open spec fn view(&self) -> Outcome<S::V, E> {
        match self {
            Outcome::Success(s) => Outcome::Success(s@),
            Outcome::Failure(e) => Outcome::Failure(*e),
            Outcome::Forward => Outcome::Forward,
        }
    }
}

/// The bearer token carried by the `Authorization` values of a request.
pub fn bearer_token(headers: &Vec<String>) -> (r: Option<String>)
    ensures
        opt_view(r) == request_token(header_views(headers@)),
{
    if headers.len() != 1 {
        return None;
    }
    let h = headers[0].as_str();
    let ghost hv = h@;
    assert(header_views(headers@)[0] == hv);
    let n = h.unicode_len();
    if n <= 6 {
        return None;
    }
    if h.get_char(0) != 'B' || h.get_char(1) != 'e' || h.get_char(2) != 'a' || h.get_char(3) != 'r'
        || h.get_char(4) != 'e' || h.get_char(5) != 'r' {
        proof {
            if hv.subrange(0, 6) == bearer_scheme() {
                assert(hv[0] == hv.subrange(0, 6)[0]);
                assert(hv[1] == hv.subrange(0, 6)[1]);
                assert(hv[2] == hv.subrange(0, 6)[2]);
                assert(hv[3] == hv.subrange(0, 6)[3]);
                assert(hv[4] == hv.subrange(0, 6)[4]);
                assert(hv[5] == hv.subrange(0, 6)[5]);
            }
        }
        return None;
    }
    assert(hv.subrange(0, 6) =~= bearer_scheme());
    if h.get_char(6) != ' ' {
        return None;
    }
    let mut end: usize = 7;
    while end < n && h.get_char(end) != ' '
        invariant
            n == hv.len(),
            hv == h@,
            7 <= end <= n,
            field_end(hv, 7) == field_end(hv, end as int),
        decreases n - end,
    {
        end = end + 1;
    }
    Some(h.substring_char(7, end).to_owned())
}

/// The user a request authenticates as, if any.
pub fn authenticate(headers: &Vec<String>, db: &Database) -> (r: Option<User>)
    ensures
        opt_view(r) == authenticated(db@, header_views(headers@)),
{
    match bearer_token(headers) {
        None => None,
        Some(token) => User::get_by_token(db, token.as_str()).ok(),
    }
}

impl UserGaurd {
    /// Lets through any request that authenticates as a user; forwards the
    /// others.
    pub fn from_request(headers: &Vec<String>, db: &Database) -> (r: Outcome<UserGaurd, GaurdError>)
        ensures
            r@ == user_outcome(db@, header_views(headers@)),
    {
        match authenticate(headers, db) {
            Some(user) => Outcome::Success(UserGaurd { username: user.username }),
            None => Outcome::Forward,
        }
    }
}

impl AdminGaurd {
    /// Lets through a request that authenticates as an administrator,
    /// rejects one that authenticates as any other user, and forwards one
    /// that does not authenticate.
    pub fn from_request(headers: &Vec<String>, db: &Database) -> (r: Outcome<AdminGaurd, GaurdError>)
        ensures
            r@ == admin_outcome(db@, header_views(headers@)),
    {
        match authenticate(headers, db) {
            Some(user) => {
                if user.role {
                    Outcome::Success(AdminGaurd { username: user.username })
                } else {
                    Outcome::Failure(GaurdError::NotAdmin)
                }
            },
            None => Outcome::Forward,
        }
    }
}

} // verus!
