//! The follow that a local user asks for, from the form of a search result.

use crate::form::{find_field, form_field, parse_form};
use crate::queries::is_bad_request;
use crate::server::error::{map_bad_request, ServerError};
use crate::store::{FollowerEdge, KnownActor, KnownActorView};
use vstd::prelude::*;
use vstd::string::*;

verus! {

/// What the follow form holds: the actor to follow, as the search showed
/// it.
#[derive(Debug)]
pub struct FollowForm {
    pub actor: KnownActor,
    pub summary: String,
}

/// The actor that a form body describes, where it holds each field once.
pub open spec fn form_actor(body: Seq<char>) -> Option<(KnownActorView, Seq<char>)> {
    match (
        form_field(body, "id"@),
        form_field(body, "url"@),
        form_field(body, "preferred_username"@),
        form_field(body, "name"@),
        form_field(body, "inbox"@),
        form_field(body, "outbox"@),
        form_field(body, "summary"@),
    ) {
        (
            Some(actor_id),
            Some(url),
            Some(preferred_username),
            Some(name),
            Some(inbox),
            Some(outbox),
            Some(summary),
        ) => Some(
            (KnownActorView { actor_id, name, preferred_username, url, inbox, outbox }, summary),
        ),
        _ => None,
    }
}

/// Reads the follow form.
///
/// A body that lacks a field, or holds one twice, is a bad request.
pub fn parse_follow_form(body: &str) -> (r: Result<FollowForm, ServerError>)
    ensures
        match form_actor(body@) {
            Some((actor, summary)) => r matches Ok(form) && form.actor@ == actor && form.summary@
                == summary,
            None => r matches Err(e) && is_bad_request(e, "Invalid form data"@),
        },
{
    let pairs = match parse_form(body) {
        Some(pairs) => pairs,
        None => {
            return Err(map_bad_request("Invalid form data"));
        },
    };
    match (
        find_field(&pairs, "id"),
        find_field(&pairs, "url"),
        find_field(&pairs, "preferred_username"),
        find_field(&pairs, "name"),
        find_field(&pairs, "inbox"),
        find_field(&pairs, "outbox"),
        find_field(&pairs, "summary"),
    ) {
        (
            Some(actor_id),
            Some(url),
            Some(preferred_username),
            Some(name),
            Some(inbox),
            Some(outbox),
            Some(summary),
        ) => Ok(
            FollowForm {
                actor: KnownActor { actor_id, name, preferred_username, url, inbox, outbox },
                summary,
            },
        ),
        _ => Err(map_bad_request("Invalid form data")),
    }
}

/// The edge that the form asks to be recorded: `profile_id` follows the
/// actor of the form.
pub fn post(profile_id: i64, form: &FollowForm) -> (edge: FollowerEdge)
    ensures
        edge@ == (profile_id as int, form.actor.actor_id@),
{
    FollowerEdge { profile_id, actor_id: form.actor.actor_id.clone() }
}

} // verus!
