//! The routes outside the JSON API: the landing redirect and log-in; and
//! the route tables of both.
use crate::authentication::hasher::password_digest;
use crate::authentication::token_generator::is_token;
use crate::models::{answered, Database, User};
use crate::result_variant::opt_view;
use vstd::prelude::*;

verus! {

/// HTTP method of a route.
#[derive(Clone, Copy, Debug, PartialEq, Eq, Structural)]
pub enum Method {
    Get,
    Post,
    Patch,
    Delete,
}

/// Who may call a route.
#[derive(Clone, Copy, Debug, PartialEq, Eq, Structural)]
pub enum Access {
    /// Anybody.
    Public,
    /// An authenticated user.
    Member,
    /// An authenticated administrator.
    Admin,
}

/// One entry of a route table.
#[derive(Debug)]
pub struct Route {
    pub method: Method,
    pub path: String,
    pub access: Access,
}

pub struct RouteView {
    pub method: Method,
    pub path: Seq<char>,
    pub access: Access,
}

impl View for Route {
    type V = RouteView;

    open spec fn view(&self) -> RouteView {
        RouteView { method: self.method, path: self.path@, access: self.access }
    }
}

/// The views of a route table.
pub open spec fn route_views(v: Seq<Route>) -> Seq<RouteView> {
    v.map_values(|r: Route| r@)
}

pub(crate) fn route(method: Method, path: &str, access: Access) -> (r: Route)
    ensures
        r@ == (RouteView { method, path: path@, access }),
{
    Route { method, path: path.to_owned(), access }
}

/// A redirection answer.
#[derive(Debug)]
pub struct Redirect {
    pub status: u16,
    pub location: String,
}

/// Log-in form.
#[derive(Debug, Clone)]
pub struct Credential {
    pub username: String,
    pub password: String,
}

/// GET /: sends the client to the log-in page (302 Found).
pub fn to_loging() -> (r: Redirect)
    ensures
        r.status == 302,
        r.location@ == "/login"@,
{
    Redirect { status: 302, location: String::from_str("/login") }
}

/// GET|POST /login: checks the password against the stored digest and, when
/// it matches, issues the user a fresh bearer token.
pub fn login(credential: Credential, db: &mut Database) -> (r: Option<User>)
    requires
        old(db).wf(),
    ensures
        final(db).wf(),
        match old(db)@.user_named(credential.username@) {
            Some(u) => if u.password == password_digest(credential.password@) {
                exists|t: Seq<char>|
                    is_token(t) && (opt_view(r), final(db)@) == answered(
                        #[trigger] old(db)@.refresh_token(credential.username@, t),
                    )
            } else {
                r is None && final(db)@ == old(db)@
            },
            None => r is None && final(db)@ == old(db)@,
        },
{
    let user = match User::get(db, credential.username.as_str()) {
        crate::result_variant::DatabaseResult::Succeful(user) => user,
        _ => {
            return None;
        },
    };
    let digest = crate::authentication::hasher::Hash::hash(credential.password);
    if digest == user.password {
        User::refresh_bearer(db, credential.username.as_str()).ok()
    } else {
        None
    }
}

/// Method, path and access of the landing and log-in routes.
pub open spec fn landing_routes() -> Seq<RouteView> {
    seq![
        RouteView { method: Method::Get, path: "/"@, access: Access::Public },
        RouteView { method: Method::Get, path: "/login"@, access: Access::Public },
        RouteView { method: Method::Post, path: "/login"@, access: Access::Public },
    ]
}

/// The routes of this module.
pub fn stage() -> (r: Vec<Route>)
    ensures
        route_views(r@) == landing_routes(),
{
    let mut v: Vec<Route> = Vec::new();
    v.push(route(Method::Get, "/", Access::Public));
    v.push(route(Method::Get, "/login", Access::Public));
    v.push(route(Method::Post, "/login", Access::Public));
    assert(route_views(v@) =~= landing_routes());
    v
}

} // verus!
