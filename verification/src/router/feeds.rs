//! The feed of a remote account: which requests fetch its posts, and what
//! a fetched page shows.

use crate::activitypub::objects::actor::Actor;
use crate::activitypub::objects::note::{Note, NoteView};
use crate::activitypub::objects::outbox::{
    link_text, object_note, CreateActivity, Object, OrderedCollectionPage, Outbox, PageOrLink,
};
use crate::activitypub::requests::{
    delivers, get_outbox, get_outbox_page, signed_request_outcome, OutgoingRequest,
};
use crate::activitypub::signature::Method;
use crate::date::HttpDate;
use crate::queries::is_bad_gateway;
use crate::server::error::{bad_gateway, ServerError};
use crate::server::server_request::CurrentProfile;
use crate::uri::{parsed_uri, uri_is_valid, Uri};
use vstd::prelude::*;
use vstd::string::*;

verus! {

/// The signed request for the document at an address that a remote server
/// gave: where the address is no URI, the remote server is at fault, with
/// the given message.
pub open spec fn fetches(
    r: Result<OutgoingRequest, ServerError>,
    address: Seq<char>,
    message: Seq<char>,
    profile: CurrentProfile,
    date: Seq<char>,
) -> bool {
    if uri_is_valid(address) {
        delivers(r, signed_request_outcome(Method::Get, parsed_uri(address), profile, None, date))
    } else {
        r matches Err(e) && is_bad_gateway(e, message)
    }
}

/// Builds the signed request for the outbox of an actor.
pub fn outbox_request(actor: &Actor, current_profile: &CurrentProfile, date: &HttpDate) -> (r:
    Result<OutgoingRequest, ServerError>)
    ensures
        fetches(r, actor.outbox@, "Invalid outbox URI"@, *current_profile, date.text@),
{
    match Uri::parse(actor.outbox.as_str()) {
        Some(uri) => get_outbox(&uri, current_profile, date),
        None => Err(bad_gateway("Invalid outbox URI")),
    }
}

/// Builds the signed request for the first page of an outbox.
///
/// An outbox that gives its first page inline, and not as a link, needs no
/// request: the answer is `None`.
pub fn first_page_request(outbox: &Outbox, current_profile: &CurrentProfile, date: &HttpDate) -> (r:
    Option<Result<OutgoingRequest, ServerError>>)
    ensures
        match link_text(outbox.first) {
            Some(address) => r matches Some(request) && fetches(
                request,
                address,
                "Invalid outbox page URI"@,
                *current_profile,
                date.text@,
            ),
            None => r.is_none(),
        },
{
    match &outbox.first {
        PageOrLink::Link(address) => match Uri::parse(address.as_str()) {
            Some(uri) => Some(get_outbox_page(&uri, current_profile, date)),
            None => Some(Err(bad_gateway("Invalid outbox page URI"))),
        },
        PageOrLink::Page(_) => None,
    }
}

/// The notes among the first `upto` items of a page, in order. Items that
/// carry anything else are passed over.
pub open spec fn page_notes(items: Seq<CreateActivity>, upto: int) -> Seq<NoteView>
    decreases upto,
{
    if upto <= 0 {
        Seq::empty()
    } else {
        match object_note(items[upto - 1].object) {
            Some(note) => page_notes(items, upto - 1).push(note),
            None => page_notes(items, upto - 1),
        }
    }
}

/// The notes that a page shows, in order.
pub fn notes_of_page(page: &OrderedCollectionPage) -> (r: Vec<&Note>)
    ensures
        r@.map_values(|n: &Note| n@) == page_notes(
            page.ordered_items@,
            page.ordered_items@.len() as int,
        ),
{
    let mut notes: Vec<&Note> = Vec::new();
    let mut i: usize = 0;
    assert(notes@.map_values(|n: &Note| n@) =~= Seq::<NoteView>::empty());
    while i < page.ordered_items.len()
        invariant
            i <= page.ordered_items@.len(),
            notes@.map_values(|n: &Note| n@) == page_notes(page.ordered_items@, i as int),
        decreases page.ordered_items@.len() - i,
    {
        let ghost before = notes@.map_values(|n: &Note| n@);
        match &page.ordered_items[i].object {
            Object::Note(note) => {
                notes.push(note);
                assert(notes@.map_values(|n: &Note| n@) =~= before.push(note@));
            },
            Object::Unknown(_) => {},
        }
        i = i + 1;
    }
    notes
}

} // verus!
