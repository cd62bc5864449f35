//! What each route decides, apart from the I/O around it, and which route a
//! request takes.

pub mod feeds;
pub mod follow;
pub mod inbox;
pub mod outbox;
pub mod posts;
pub mod profiles;
pub mod search;
pub mod webfinger;

use crate::activitypub::signature::Method;
use crate::text::{pieces_from, same_text, split_text};
use vstd::prelude::*;
use vstd::string::*;

verus! {

/// The routes of the server.
#[derive(Debug, Clone, Copy, PartialEq, Eq, Structural)]
pub enum Route {
    Index,
    LoginPage,
    Login,
    Logout,
    Feed,
    Follow,
    Following,
    CreateProfile,
    NewProfile,
    Profile,
    Inbox,
    Outbox,
    CreatePost,
    DeletePost,
    Switch,
    SearchPage,
    Search,
    WebFinger,
    Debug,
    Healthcheck,
}

/// What a route asks of the one who calls it.
#[derive(Debug, Clone, Copy, PartialEq, Eq, Structural)]
pub enum Access {
    /// Anybody may call.
    Any,
    /// The caller must be logged in.
    Authenticated,
    /// The caller must be logged in and act as a profile.
    FullSetup,
}

/// The route of a request, by its method and by the pieces of its path
/// behind the leading slash.
pub open spec fn route_of(method: Method, pieces: Seq<Seq<char>>) -> Option<Route> {
    if pieces.len() == 0 {
        None
    } else {
        let first = pieces[0];
        let n = pieces.len();
        match method {
            Method::Get => if n == 1 && first == ""@ {
                Some(Route::Index)
            } else if n == 1 && first == "login"@ {
                Some(Route::LoginPage)
            } else if n == 1 && first == "logout"@ {
                Some(Route::Logout)
            } else if n == 2 && first == "feeds"@ {
                Some(Route::Feed)
            } else if n == 1 && first == "following"@ {
                Some(Route::Following)
            } else if n == 2 && first == "profiles"@ && pieces[1] == "new"@ {
                Some(Route::NewProfile)
            } else if n == 2 && first == "profiles"@ {
                Some(Route::Profile)
            } else if n == 3 && first == "profiles"@ && pieces[2] == "outbox"@ {
                Some(Route::Outbox)
            } else if n == 2 && first == "switch"@ {
                Some(Route::Switch)
            } else if first == "search"@ {
                Some(Route::SearchPage)
            } else if n == 2 && first == ".well-known"@ && pieces[1] == "webfinger"@ {
                Some(Route::WebFinger)
            } else if n == 1 && first == "debug"@ {
                Some(Route::Debug)
            } else if n == 1 && first == "healthcheck"@ {
                Some(Route::Healthcheck)
            } else {
                None
            },
            Method::Post => if n == 1 && first == "login"@ {
                Some(Route::Login)
            } else if n == 1 && first == "follow"@ {
                Some(Route::Follow)
            } else if n == 1 && first == "profiles"@ {
                Some(Route::CreateProfile)
            } else if n == 3 && first == "profiles"@ && pieces[2] == "inbox"@ {
                Some(Route::Inbox)
            } else if n == 1 && first == "posts"@ {
                Some(Route::CreatePost)
            } else if first == "search"@ {
                Some(Route::Search)
            } else {
                None
            },
            Method::Delete => if first == "posts"@ {
                Some(Route::DeletePost)
            } else {
                None
            },
        }
    }
}

/// What each route asks of its caller. The federation routes are open to
/// anybody: other servers call them.
pub open spec fn access_of(route: Route) -> Access {
    match route {
        Route::Feed | Route::Follow | Route::Following | Route::CreatePost | Route::DeletePost
        | Route::SearchPage | Route::Search => Access::FullSetup,
        Route::CreateProfile | Route::NewProfile => Access::Authenticated,
        _ => Access::Any,
    }
}

/// Decides `access_of`.
pub fn access(route: Route) -> (a: Access)
    ensures
        a == access_of(route),
{
    match route {
        Route::Feed | Route::Follow | Route::Following | Route::CreatePost | Route::DeletePost
        | Route::SearchPage | Route::Search => Access::FullSetup,
        Route::CreateProfile | Route::NewProfile => Access::Authenticated,
        _ => Access::Any,
    }
}

/// The pieces of a path behind its leading slash.
pub open spec fn path_pieces(path: Seq<char>) -> Seq<Seq<char>> {
    pieces_from(path, '/', 0).skip(1)
}

/// Finds the route of a request, or `None` where there is none for it.
pub fn router(method: Method, path: &str) -> (r: Option<Route>)
    ensures
        r == route_of(method, path_pieces(path@)),
{
    let all = split_text(path, '/');
    let ghost pieces = path_pieces(path@);
    if all.len() < 2 {
        return None;
    }
    let n = all.len() - 1;
    assert(pieces.len() == n);
    assert(pieces[0] == all@[1]@);
    let first = all[1].as_str();
    assert(n >= 2 ==> pieces[1] == all@[2]@);
    assert(n >= 3 ==> pieces[2] == all@[3]@);
    match method {
        Method::Get => {
            if n == 1 && same_text(first, "") {
                Some(Route::Index)
            } else if n == 1 && same_text(first, "login") {
                Some(Route::LoginPage)
            } else if n == 1 && same_text(first, "logout") {
                Some(Route::Logout)
            } else if n == 2 && same_text(first, "feeds") {
                Some(Route::Feed)
            } else if n == 1 && same_text(first, "following") {
                Some(Route::Following)
            } else if n == 2 && same_text(first, "profiles") && same_text(all[2].as_str(), "new") {
                Some(Route::NewProfile)
            } else if n == 2 && same_text(first, "profiles") {
                Some(Route::Profile)
            } else if n == 3 && same_text(first, "profiles") && same_text(
                all[3].as_str(),
                "outbox",
            ) {
                Some(Route::Outbox)
            } else if n == 2 && same_text(first, "switch") {
                Some(Route::Switch)
            } else if same_text(first, "search") {
                Some(Route::SearchPage)
            } else if n == 2 && same_text(first, ".well-known") && same_text(
                all[2].as_str(),
                "webfinger",
            ) {
                Some(Route::WebFinger)
            } else if n == 1 && same_text(first, "debug") {
                Some(Route::Debug)
            } else if n == 1 && same_text(first, "healthcheck") {
                Some(Route::Healthcheck)
            } else {
                None
            }
        },
        Method::Post => {
            if n == 1 && same_text(first, "login") {
                Some(Route::Login)
            } else if n == 1 && same_text(first, "follow") {
                Some(Route::Follow)
            } else if n == 1 && same_text(first, "profiles") {
                Some(Route::CreateProfile)
            } else if n == 3 && same_text(first, "profiles") && same_text(
                all[3].as_str(),
                "inbox",
            ) {
                Some(Route::Inbox)
            } else if n == 1 && same_text(first, "posts") {
                Some(Route::CreatePost)
            } else if same_text(first, "search") {
                Some(Route::Search)
            } else {
                None
            }
        },
        Method::Delete => {
            if same_text(first, "posts") {
                Some(Route::DeletePost)
            } else {
                None
            }
        },
    }
}

} // verus!
