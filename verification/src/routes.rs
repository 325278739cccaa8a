//! The dispatch table of the listener.

use vstd::prelude::*;
use vstd::string::*;
use crate::text::str_eq;

verus! {

/// What a request is for.
#[derive(Debug, Clone, Copy, PartialEq, Eq, Structural)]
pub enum Route {
    /// `GET /`
    HealthCheck,
    /// `GET /enable`
    AuthorizeBot,
    /// `GET /twitter/oauth`
    HandleRedirect,
    NotFound,
}

/// The route of a method and a path; only `GET` has routes.
pub open spec fn route_of(method: Seq<char>, path: Seq<char>) -> Route {
    if method != "GET"@ {
        Route::NotFound
    } else if path == "/"@ {
        Route::HealthCheck
    } else if path == "/enable"@ {
        Route::AuthorizeBot
    } else if path == "/twitter/oauth"@ {
        Route::HandleRedirect
    } else {
        Route::NotFound
    }
}

/// Finds the route of a request by its method and the path of its URI.
pub fn resolve(method: &str, path: &str) -> (r: Route)
    ensures
        r == route_of(method@, path@),
{
    if !str_eq(method, "GET") {
        Route::NotFound
    } else if str_eq(path, "/") {
        Route::HealthCheck
    } else if str_eq(path, "/enable") {
        Route::AuthorizeBot
    } else if str_eq(path, "/twitter/oauth") {
        Route::HandleRedirect
    } else {
        Route::NotFound
    }
}

} // verus!
