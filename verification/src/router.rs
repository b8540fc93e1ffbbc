//! Which endpoints there are, and which of them ask for a session.

use crate::text::{ascii_lowercase, text_of, to_ascii_lowercase};
use vstd::prelude::*;
use vstd::string::StringExecFns;

verus! {

/// Whether `s` reads as a refusal: `f`, `false`, `0`, `n` or `no`.
pub open spec fn is_refusal(s: Seq<char>) -> bool {
    s == "f"@ || s == "false"@ || s == "0"@ || s == "n"@ || s == "no"@
}

/// Whether a setting with the value `data` is switched on: every value
/// is, but the refusals, in whatever case they are written.
pub fn check_truthy(data: &str) -> (on: bool)
    ensures
        on == !is_refusal(ascii_lowercase(data@)),
{
    let d = text_of(&to_ascii_lowercase(data));
    !(d == String::from_str("f") || d == String::from_str("false") || d == String::from_str("0")
        || d == String::from_str("n") || d == String::from_str("no"))
}

/// Whether uploads can be viewed without a session, given the value of
/// the setting for it, if it is set.
pub fn publicly_readable(setting: Option<&str>) -> (public: bool)
    ensures
        public == match setting {
            Some(data) => !is_refusal(ascii_lowercase(data@)),
            None => false,
        },
{
    match setting {
        Some(data) => check_truthy(data),
        None => false,
    }
}

/// What a route leads to.
#[derive(Debug, Clone, Copy, PartialEq, Eq)]
pub enum Endpoint {
    /// The front page.
    Index,
    /// A direct upload.
    Upload,
    /// The page of one upload.
    View,
    /// The provider's callback.
    Authenticate,
    /// The platform's webhook.
    Interaction,
    /// Static files.
    Assets,
}

/// The request method of a route.
#[derive(Debug, Clone, Copy, PartialEq, Eq)]
pub enum Method {
    Get,
    Post,
    /// Whatever the service behind the route accepts.
    Any,
}

/// One entry of the routing table.
#[derive(Debug, Clone, Copy, PartialEq, Eq)]
pub struct Route {
    pub path: &'static str,
    pub method: Method,
    pub endpoint: Endpoint,
    /// Whether requests must carry a valid session.
    pub session: bool,
}

/// Whether `endpoint` asks for a session: the front page and direct
/// uploads always do, the page of an upload does unless uploads are
/// public, and the callback, the webhook and static files never do, as
/// they are what a visitor without a session has to reach.
pub open spec fn asks_session(endpoint: Endpoint, public: bool) -> bool {
    match endpoint {
        Endpoint::Index | Endpoint::Upload => true,
        Endpoint::View => !public,
        Endpoint::Authenticate | Endpoint::Interaction | Endpoint::Assets => false,
    }
}

/// The routing table in the abstract.
pub open spec fn routes(public: bool) -> Seq<Route> {
    seq![
        Route { path: "/", method: Method::Get, endpoint: Endpoint::Index, session: true },
        Route { path: "/upload", method: Method::Post, endpoint: Endpoint::Upload, session: true },
        Route { path: "/:id", method: Method::Get, endpoint: Endpoint::View, session: !public },
        Route {
            path: "/oauth2/callback",
            method: Method::Get,
            endpoint: Endpoint::Authenticate,
            session: false,
        },
        Route {
            path: "/interactions",
            method: Method::Post,
            endpoint: Endpoint::Interaction,
            session: false,
        },
        Route { path: "/assets", method: Method::Any, endpoint: Endpoint::Assets, session: false },
    ]
}

/// The routing table. `public` says whether uploads can be viewed
/// without a session.
pub fn router(public: bool) -> (table: Vec<Route>)
    ensures
        table@ == routes(public),
        forall|i: int|
            0 <= i < table@.len() ==> (#[trigger] table@[i]).session == asks_session(
                table@[i].endpoint,
                public,
            ),
{
    let mut table: Vec<Route> = Vec::new();
    table.push(Route { path: "/", method: Method::Get, endpoint: Endpoint::Index, session: true });
    table.push(
        Route { path: "/upload", method: Method::Post, endpoint: Endpoint::Upload, session: true },
    );
    table.push(
        Route { path: "/:id", method: Method::Get, endpoint: Endpoint::View, session: !public },
    );
    table.push(
        Route {
            path: "/oauth2/callback",
            method: Method::Get,
            endpoint: Endpoint::Authenticate,
            session: false,
        },
    );
    table.push(
        Route {
            path: "/interactions",
            method: Method::Post,
            endpoint: Endpoint::Interaction,
            session: false,
        },
    );
    table.push(
        Route { path: "/assets", method: Method::Any, endpoint: Endpoint::Assets, session: false },
    );
    assert(table@ =~= routes(public));
    table
}

} // verus!
