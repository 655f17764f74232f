//! Where a request goes: the greeting endpoint or the fallback router, and
//! which paths belong to the single-page application.

use vstd::prelude::*;
use crate::text::same_text;

verus! {

/// The path of the greeting endpoint.
pub const API_HELLO_PATH: &'static str = "/api/hello";

/// The paths that the single-page application routes by itself in the
/// browser. Only for these does a missing file lead to the application shell.
pub const KNOWN_ROUTES: [&'static str; 2] = ["/", "/hello-server"];

/// The paths of [`KNOWN_ROUTES`], as a set.
pub open spec fn known_routes() -> Set<Seq<char>> {
    Set::new(
        |path: Seq<char>|
            exists|i: int| 0 <= i < KNOWN_ROUTES@.len() && #[trigger] KNOWN_ROUTES@[i]@ == path,
    )
}

/// The component that answers a request.
#[derive(Clone, Copy, Debug, PartialEq, Eq, Structural)]
pub enum Target {
    /// The greeting endpoint.
    ApiHandler,
    /// The static file service, wrapped by the fallback policy.
    FallbackRouter,
}

/// The component that answers a request for `path`: the greeting endpoint for
/// exactly its own path, the fallback router for every other path.
pub open spec fn target_of(path: Seq<char>) -> Target {
    if path == API_HELLO_PATH@ {
        Target::ApiHandler
    } else {
        Target::FallbackRouter
    }
}

/// Whether `path` is one of the application's client-side routes.
pub fn is_known_route(path: &str) -> (known: bool)
    ensures
        known == known_routes().contains(path@),
{
    let mut i: usize = 0;
    while i < KNOWN_ROUTES.len()
        invariant
            i <= KNOWN_ROUTES@.len(),
            forall|j: int| 0 <= j < i ==> #[trigger] KNOWN_ROUTES@[j]@ != path@,
        decreases KNOWN_ROUTES@.len() - i,
    {
        if same_text(KNOWN_ROUTES[i], path) {
            return true;
        }
        i += 1;
    }
    false
}

/// Picks the component that answers a request for `path`. The greeting
/// endpoint comes first, so a file of the same path is never served.
pub fn dispatch(path: &str) -> (target: Target)
    ensures
        target == target_of(path@),
{
    if same_text(path, API_HELLO_PATH) {
        Target::ApiHandler
    } else {
        Target::FallbackRouter
    }
}

/// The client-side routes are `/` and `/hello-server`, and no other path.
pub proof fn lemma_known_routes(path: Seq<char>)
    ensures
        known_routes().contains(path) <==> path == "/"@ || path == "/hello-server"@,
{
    assert(KNOWN_ROUTES@[0]@ == "/"@);
    assert(KNOWN_ROUTES@[1]@ == "/hello-server"@);
}

/// The greeting endpoint's path is no client-side route.
pub proof fn lemma_api_path_is_no_known_route()
    ensures
        !known_routes().contains(API_HELLO_PATH@),
{
    lemma_known_routes(API_HELLO_PATH@);
    reveal_strlit("/api/hello");
    reveal_strlit("/");
    reveal_strlit("/hello-server");
    assert("/api/hello"@.len() == 10);
    assert("/"@.len() == 1);
    assert("/hello-server"@.len() == 13);
}

} // verus!
