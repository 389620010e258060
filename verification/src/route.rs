//! The request-routing rules the transport must follow: which method and
//! path reach the script runner, which serve the instructional document, and
//! which are not found.

use vstd::prelude::*;

verus! {

/// Where a request goes.
#[derive(PartialEq, Eq, Structural, Clone, Copy, Debug)]
pub enum Route {
    /// `GET /`: serve the static instructional document.
    Instructions,
    /// `POST /run`: hand the body text to the script runner.
    RunScript,
    /// Everything else.
    NotFound,
}

/// The routing table over the request's method and path.
pub open spec fn route_spec(method: Seq<char>, path: Seq<char>) -> Route {
    if method == "GET"@ && path == "/"@ {
        Route::Instructions
    } else if method == "POST"@ && path == "/run"@ {
        Route::RunScript
    } else {
        Route::NotFound
    }
}

/// Decide where a request goes from its method and path.
pub fn route_request(method: &String, path: &String) -> (r: Route)
    ensures
        r == route_spec(method@, path@),
{
    let get = "GET".to_owned();
    let post = "POST".to_owned();
    let root = "/".to_owned();
    let run = "/run".to_owned();
    if *method == get && *path == root {
        Route::Instructions
    } else if *method == post && *path == run {
        Route::RunScript
    } else {
        Route::NotFound
    }
}

/// The response status owed for a route: every request the core handles is
/// answered 200 whatever its outcome text says, and only an unrouted request
/// is answered 404 with an empty body.
pub open spec fn status_spec(r: Route) -> int {
    match r {
        Route::Instructions => 200,
        Route::RunScript => 200,
        Route::NotFound => 404,
    }
}

/// The numeric response status for a route.
pub fn status_for(r: &Route) -> (code: u16)
    ensures
        code == status_spec(*r),
{
    match r {
        Route::Instructions => 200,
        Route::RunScript => 200,
        Route::NotFound => 404,
    }
}

} // verus!
