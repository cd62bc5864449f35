//! The actor directory: which profile a URL names, and the steps that
//! resolve a handle to the actor behind it.

use crate::activitypub::FullHandle;
use crate::activitypub::objects::actor::Actor;
use crate::activitypub::objects::webfinger::{actor_href, WebFinger};
use crate::activitypub::requests::{
    delivers, get_from_ap, get_webfinger, signed_request_outcome, webfinger_request_of,
    OutgoingRequest,
};
use crate::activitypub::signature::Method;
use crate::date::HttpDate;
use crate::numeral::{parse_i64, parsed_i64};
use crate::server::error::{
    bad_gateway, bad_request, not_found, ServerError, BAD_GATEWAY, BAD_REQUEST, NOT_FOUND,
};
use crate::server::server_request::CurrentProfile;
use crate::text::{
    find_char, find_last_piece, from_chars, index_from, last_piece, same_text, to_chars,
};
use crate::uri::{parsed_uri, uri_is_valid, uri_path, Uri};
use vstd::prelude::*;
use vstd::string::*;

verus! {

/// The user name in the path of a profile URL, `/profiles/{name}`: what
/// follows the first slash behind the route, where the route is `profiles`.
pub open spec fn username_in_path(path: Seq<char>) -> Option<Seq<char>> {
    if path.len() == 0 {
        None
    } else {
        let rest = path.skip(1);
        let cut = index_from(rest, '/', 0);
        if cut < rest.len() && rest.subrange(0, cut) == "profiles"@ {
            Some(rest.subrange(cut + 1, rest.len() as int))
        } else {
            None
        }
    }
}

/// Whether an error is a bad request with the given message.
pub open spec fn is_bad_request(e: ServerError, message: Seq<char>) -> bool {
    e.status_code == BAD_REQUEST && e.message@ == message
}

/// Reads the user name out of a parsed profile URL.
///
/// A path that is not `/profiles/{name}` is a bad request.
pub fn preferred_username_in(uri: &Uri) -> (r: Result<String, ServerError>)
    ensures
        match r {
            Ok(name) => username_in_path(uri.path@) == Some(name@),
            Err(e) => username_in_path(uri.path@).is_none() && is_bad_request(
                e,
                "Non-profile URI provided"@,
            ),
        },
{
    let path = to_chars(uri.path.as_str());
    if path.len() == 0 {
        return Err(bad_request("Non-profile URI provided"));
    }
    let rest = from_chars(&path, 1, path.len());
    assert(rest@ =~= uri.path@.skip(1));
    let v = to_chars(rest.as_str());
    let cut = find_char(&v, '/', 0);
    if cut >= v.len() {
        return Err(bad_request("Non-profile URI provided"));
    }
    let route = from_chars(&v, 0, cut);
    if !same_text(route.as_str(), "profiles") {
        return Err(bad_request("Non-profile URI provided"));
    }
    Ok(from_chars(&v, cut + 1, v.len()))
}

/// Reads the user name out of a profile URL.
///
/// A text that is no URI, and a URI whose path is not `/profiles/{name}`,
/// are bad requests, each with a message of its own.
pub fn _get_preferred_username_from_url(url: &str) -> (r: Result<String, ServerError>)
    ensures
        match r {
            Ok(name) => uri_is_valid(url@) && username_in_path(uri_path(url@)) == Some(name@),
            Err(e) => if uri_is_valid(url@) {
                username_in_path(uri_path(url@)).is_none() && is_bad_request(
                    e,
                    "Non-profile URI provided"@,
                )
            } else {
                is_bad_request(e, "Invalid URI provided"@)
            },
        },
{
    match Uri::parse(url) {
        Some(uri) => preferred_username_in(&uri),
        None => Err(bad_request("Invalid URI provided")),
    }
}

/// The profile id in the path of a profile URL: the last piece of the path,
/// read as a number.
pub open spec fn profile_id_in_path(path: Seq<char>) -> Option<i64> {
    parsed_i64(last_piece(path, '/'))
}

/// Reads the profile id out of a parsed profile URL.
///
/// A path whose last piece is no number names no local profile: a bad
/// request.
pub fn profile_id_in(uri: &Uri) -> (r: Result<i64, ServerError>)
    ensures
        match r {
            Ok(id) => profile_id_in_path(uri.path@) == Some(id),
            Err(e) => profile_id_in_path(uri.path@).is_none() && is_bad_request(
                e,
                "URI names no local profile"@,
            ),
        },
{
    let path = to_chars(uri.path.as_str());
    let start = find_last_piece(&path, '/');
    let piece = from_chars(&path, start, path.len());
    match parse_i64(piece.as_str()) {
        Some(id) => Ok(id),
        None => Err(bad_request("URI names no local profile")),
    }
}

/// Reads the profile id out of the URL that an activity names as its
/// object.
///
/// A text that is no URI, and a URI that names no profile, are bad
/// requests, each with a message of its own.
pub fn get_profile_id_from_url(url: &str) -> (r: Result<i64, ServerError>)
    ensures
        match r {
            Ok(id) => uri_is_valid(url@) && profile_id_in_path(uri_path(url@)) == Some(id),
            Err(e) => if uri_is_valid(url@) {
                profile_id_in_path(uri_path(url@)).is_none() && is_bad_request(
                    e,
                    "URI names no local profile"@,
                )
            } else {
                is_bad_request(e, "Invalid URI provided"@)
            },
        },
{
    match Uri::parse(url) {
        Some(uri) => profile_id_in(&uri),
        None => Err(bad_request("Invalid URI provided")),
    }
}

/// Whether an error says that nothing was found.
pub open spec fn is_not_found(e: ServerError) -> bool {
    e.status_code == NOT_FOUND && e.message@ == ""@
}

/// Whether an error blames a remote server, with the given message.
pub open spec fn is_bad_gateway(e: ServerError, message: Seq<char>) -> bool {
    e.status_code == BAD_GATEWAY && e.message@ == message
}

/// What follows a WebFinger answer: the signed request for the actor
/// document it points to. Without an actor link nothing is found; a link
/// that is no URI is the remote server's fault.
pub open spec fn actor_request_follows(
    r: Result<OutgoingRequest, ServerError>,
    doc: WebFinger,
    profile: CurrentProfile,
    date: Seq<char>,
) -> bool {
    match actor_href(doc) {
        None => r matches Err(e) && is_not_found(e),
        Some(href) => if uri_is_valid(href) {
            delivers(r, signed_request_outcome(Method::Get, parsed_uri(href), profile, None, date))
        } else {
            r matches Err(e) && is_bad_gateway(e, "Invalid actor URI"@)
        },
    }
}

/// Builds the signed request for the actor document that a WebFinger
/// answer points to.
pub fn actor_request_for(doc: &WebFinger, current_profile: &CurrentProfile, date: &HttpDate) -> (r:
    Result<OutgoingRequest, ServerError>)
    ensures
        actor_request_follows(r, *doc, *current_profile, date.text@),
{
    match doc.actor_link() {
        None => Err(not_found()),
        Some(href) => match Uri::parse(href.as_str()) {
            None => Err(bad_gateway("Invalid actor URI")),
            Some(uri) => get_from_ap(&uri, current_profile, date),
        },
    }
}

/// How far the resolution of a handle has come.
#[derive(Debug, Clone, Copy, PartialEq, Eq, Structural)]
pub enum ResolveState {
    /// Nothing has been asked yet.
    Start,
    /// The WebFinger query is out.
    AwaitingWebFinger,
    /// The request for the actor document is out.
    AwaitingActor,
    /// The resolution has ended, with an actor or an error.
    Done,
}

/// What happened since the last step.
#[derive(Debug)]
pub enum ResolveEvent {
    /// The resolution is asked for.
    Begin,
    /// The WebFinger query was answered, or failed.
    WebFinger(Result<WebFinger, ServerError>),
    /// The request for the actor document was answered, or failed.
    Actor(Result<Actor, ServerError>),
}

/// What is to be done next.
#[derive(Debug)]
pub enum ResolveAction {
    /// Send the WebFinger query and come back with the answer.
    FetchWebFinger(OutgoingRequest),
    /// Send the request for the actor document and come back with the answer.
    FetchActor(OutgoingRequest),
    /// The handle is resolved to this actor.
    Resolved(Actor),
    /// The resolution failed.
    Failed(ServerError),
}

/// Whether `(next, action)` is the step that the resolution of `handle`
/// takes in `state` on `event`.
///
/// The WebFinger query always comes first and the actor request second;
/// a failure that is handed in ends the resolution with that failure, and an
/// event that the state does not wait for ends it as a bad request.
pub open spec fn resolve_step(
    state: ResolveState,
    event: ResolveEvent,
    handle: FullHandle,
    profile: CurrentProfile,
    date: Seq<char>,
    next: ResolveState,
    action: ResolveAction,
) -> bool {
    match (state, event) {
        (ResolveState::Start, ResolveEvent::Begin) => {
            &&& next == ResolveState::AwaitingWebFinger
            &&& action matches ResolveAction::FetchWebFinger(request)
            &&& request@ == webfinger_request_of(handle.host@, handle.preferred_username@)
        },
        (ResolveState::AwaitingWebFinger, ResolveEvent::WebFinger(Ok(doc))) => {
            match action {
                ResolveAction::FetchActor(request) => next == ResolveState::AwaitingActor
                    && actor_request_follows(Ok(request), doc, profile, date),
                ResolveAction::Failed(e) => next == ResolveState::Done && actor_request_follows(
                    Err(e),
                    doc,
                    profile,
                    date,
                ),
                _ => false,
            }
        },
        (ResolveState::AwaitingWebFinger, ResolveEvent::WebFinger(Err(e))) => {
            &&& next == ResolveState::Done
            &&& action matches ResolveAction::Failed(f)
            &&& f == e
        },
        (ResolveState::AwaitingActor, ResolveEvent::Actor(Ok(actor))) => {
            &&& next == ResolveState::Done
            &&& action matches ResolveAction::Resolved(a)
            &&& a == actor
        },
        (ResolveState::AwaitingActor, ResolveEvent::Actor(Err(e))) => {
            &&& next == ResolveState::Done
            &&& action matches ResolveAction::Failed(f)
            &&& f == e
        },
        _ => {
            &&& next == ResolveState::Done
            &&& action matches ResolveAction::Failed(f)
            &&& is_bad_request(f, "Unexpected event"@)
        },
    }
}

/// The steps of a resolution come in one order: the actor document is
/// asked for only on a WebFinger answer, and an actor is handed out only on
/// the answer to that request.
pub proof fn lemma_resolution_order(
    state: ResolveState,
    event: ResolveEvent,
    handle: FullHandle,
    profile: CurrentProfile,
    date: Seq<char>,
    next: ResolveState,
    action: ResolveAction,
)
    requires
        resolve_step(state, event, handle, profile, date, next, action),
    ensures
        action is FetchWebFinger ==> state == ResolveState::Start,
        action is FetchActor ==> state == ResolveState::AwaitingWebFinger
            && event matches ResolveEvent::WebFinger(Ok(_)),
        action is Resolved ==> state == ResolveState::AwaitingActor
            && event matches ResolveEvent::Actor(Ok(_)),
        state == ResolveState::Done ==> action is Failed,
        !(action is FetchWebFinger || action is FetchActor) ==> next == ResolveState::Done,
{
}

/// Takes one step of resolving `handle` to its actor, as `current_profile`.
///
/// The caller performs the action and hands back what came of it as the
/// next event, until the state is `Done`.
pub fn get_or_search_for_actor(
    state: ResolveState,
    event: ResolveEvent,
    handle: &FullHandle,
    current_profile: &CurrentProfile,
    date: &HttpDate,
) -> (r: (ResolveState, ResolveAction))
    ensures
        resolve_step(state, event, *handle, *current_profile, date.text@, r.0, r.1),
{
    match (state, event) {
        (ResolveState::Start, ResolveEvent::Begin) => {
            let request = get_webfinger(handle.host.as_str(), handle.preferred_username.as_str());
            (ResolveState::AwaitingWebFinger, ResolveAction::FetchWebFinger(request))
        },
        (ResolveState::AwaitingWebFinger, ResolveEvent::WebFinger(Ok(doc))) => {
            match actor_request_for(&doc, current_profile, date) {
                Ok(request) => (ResolveState::AwaitingActor, ResolveAction::FetchActor(request)),
                Err(e) => (ResolveState::Done, ResolveAction::Failed(e)),
            }
        },
        (ResolveState::AwaitingWebFinger, ResolveEvent::WebFinger(Err(e))) => (
            ResolveState::Done,
            ResolveAction::Failed(e),
        ),
        (ResolveState::AwaitingActor, ResolveEvent::Actor(Ok(actor))) => (
            ResolveState::Done,
            ResolveAction::Resolved(actor),
        ),
        (ResolveState::AwaitingActor, ResolveEvent::Actor(Err(e))) => (
            ResolveState::Done,
            ResolveAction::Failed(e),
        ),
        _ => (ResolveState::Done, ResolveAction::Failed(bad_request("Unexpected event"))),
    }
}

} // verus!
