//! The JSON API: handlers over the repositories, each behind a guard.
pub mod account;
pub mod transaction;
pub mod user;

use crate::routes::{route, route_views, Access, Method, Route, RouteView};
use vstd::prelude::*;

verus! {

/// Method, path and access of each route of the JSON API.
pub open spec fn api_routes() -> Seq<RouteView> {
    seq![
        RouteView { method: Method::Post, path: "/users"@, access: Access::Public },
        RouteView { method: Method::Get, path: "/users"@, access: Access::Member },
        RouteView { method: Method::Patch, path: "/users"@, access: Access::Member },
        RouteView { method: Method::Delete, path: "/users"@, access: Access::Member },
        RouteView { method: Method::Get, path: "/admin/users"@, access: Access::Admin },
        RouteView { method: Method::Get, path: "/admin/users?<username>"@, access: Access::Admin },
        RouteView { method: Method::Patch, path: "/admin/users?<username>"@, access: Access::Admin },
        RouteView { method: Method::Delete, path: "/admin/users?<username>"@, access: Access::Admin },
        RouteView { method: Method::Post, path: "/transaction"@, access: Access::Member },
        RouteView { method: Method::Get, path: "/transaction?<account_id>"@, access: Access::Member },
        RouteView { method: Method::Get, path: "/transaction/<identifier>"@, access: Access::Member },
        RouteView { method: Method::Delete, path: "/transaction?<account_id>"@, access: Access::Member },
        RouteView { method: Method::Delete, path: "/transaction/<identifier>"@, access: Access::Member },
        RouteView { method: Method::Get, path: "/accounts/<identifier>"@, access: Access::Member },
        RouteView { method: Method::Get, path: "/accounts"@, access: Access::Member },
        RouteView { method: Method::Post, path: "/accounts"@, access: Access::Member },
        RouteView { method: Method::Delete, path: "/accounts/<identifier>"@, access: Access::Member },
        RouteView { method: Method::Patch, path: "/accounts/<identifier>"@, access: Access::Member },
    ]
}

/// The routes of the JSON API, relative to where it is mounted.
pub fn stage() -> (r: Vec<Route>)
    ensures
        route_views(r@) == api_routes(),
{
    let mut v: Vec<Route> = Vec::new();
    v.push(route(Method::Post, "/users", Access::Public));
    v.push(route(Method::Get, "/users", Access::Member));
    v.push(route(Method::Patch, "/users", Access::Member));
    v.push(route(Method::Delete, "/users", Access::Member));
    v.push(route(Method::Get, "/admin/users", Access::Admin));
    v.push(route(Method::Get, "/admin/users?<username>", Access::Admin));
    v.push(route(Method::Patch, "/admin/users?<username>", Access::Admin));
    v.push(route(Method::Delete, "/admin/users?<username>", Access::Admin));
    v.push(route(Method::Post, "/transaction", Access::Member));
    v.push(route(Method::Get, "/transaction?<account_id>", Access::Member));
    v.push(route(Method::Get, "/transaction/<identifier>", Access::Member));
    v.push(route(Method::Delete, "/transaction?<account_id>", Access::Member));
    v.push(route(Method::Delete, "/transaction/<identifier>", Access::Member));
    v.push(route(Method::Get, "/accounts/<identifier>", Access::Member));
    v.push(route(Method::Get, "/accounts", Access::Member));
    v.push(route(Method::Post, "/accounts", Access::Member));
    v.push(route(Method::Delete, "/accounts/<identifier>", Access::Member));
    v.push(route(Method::Patch, "/accounts/<identifier>", Access::Member));
    assert(route_views(v@) =~= api_routes());
    v
}

} // verus!
