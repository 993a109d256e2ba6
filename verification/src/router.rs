//! The routing table: which handler serves a method and path, and the
//! status classes for unmatched requests.
use vstd::prelude::*;
use crate::text::str_eq;

verus! {

/// What the routing table decides for a request line.
#[derive(Clone, Copy, Debug, PartialEq, Eq, Structural)]
pub enum Route {
    /// `GET /`: the greeting.
    Hello,
    /// `GET /add`: addition.
    Add,
    /// `GET /subtract`: subtraction.
    Subtract,
    /// The path is served, but not with this method: 405.
    MethodNotAllowed,
    /// The path is not served at all: 404.
    NotFound,
}

/// The paths the service serves.
pub open spec fn known_path(path: Seq<char>) -> bool {
    path == "/"@ || path == "/add"@ || path == "/subtract"@
}

/// The routing table: `GET` on the three known paths; `MethodNotAllowed`
/// on a known path with any other method; `NotFound` anywhere else.
pub open spec fn route_spec(method: Seq<char>, path: Seq<char>) -> Route {
    if !known_path(path) {
        Route::NotFound
    } else if method != "GET"@ {
        Route::MethodNotAllowed
    } else if path == "/"@ {
        Route::Hello
    } else if path == "/add"@ {
        Route::Add
    } else {
        Route::Subtract
    }
}

/// Resolve a method and path against the routing table.
pub fn route(method: &str, path: &str) -> (r: Route)
    ensures
        r == route_spec(method@, path@),
{
    let at_root = str_eq(path, "/");
    let at_add = str_eq(path, "/add");
    let at_subtract = str_eq(path, "/subtract");
    if !(at_root || at_add || at_subtract) {
        Route::NotFound
    } else if !str_eq(method, "GET") {
        Route::MethodNotAllowed
    } else if at_root {
        Route::Hello
    } else if at_add {
        Route::Add
    } else {
        Route::Subtract
    }
}

} // verus!
