//! The outbox route: the collection, or a page of it.

use crate::activitypub::objects::is_activity_streams;
use crate::activitypub::objects::note::{note_of_post, Post};
use crate::activitypub::objects::outbox::{
    create_of_note, get_outbox, get_outbox_page, link_text, outbox_page_url_text,
    outbox_url_text, OrderedCollectionPage, Outbox,
};
use crate::form::{find_field, form_field, parse_form};
use crate::numeral::{bounded_numeral, parse_numeral};
use crate::text::to_chars;
use vstd::prelude::*;
use vstd::string::*;

verus! {

/// What the outbox route answers with.
#[derive(Debug)]
pub enum OutboxAnswer {
    Collection(Outbox),
    Page(OrderedCollectionPage),
}

/// The page that a query asks for: the number in its one `page` parameter.
/// Without a query, or with one that names no page, the collection itself
/// is asked for.
pub open spec fn asked_page(query: Option<Seq<char>>) -> Option<int> {
    match query {
        None => None,
        Some(q) => match form_field(q, "page"@) {
            None => None,
            Some(number) => {
                let digits = if number.len() > 0 && number[0] == '+' {
                    number.skip(1)
                } else {
                    number
                };
                bounded_numeral(digits, usize::MAX as int)
            },
        },
    }
}

/// Reads which page a query asks for.
pub fn page_in_query(query: Option<&str>) -> (r: Option<usize>)
    ensures
        match r {
            Some(n) => asked_page(
                match query {
                    Some(q) => Some(q@),
                    None => None,
                },
            ) == Some(n as int),
            None => asked_page(
                match query {
                    Some(q) => Some(q@),
                    None => None,
                },
            ).is_none(),
        },
{
    let q = match query {
        Some(q) => q,
        None => {
            return None;
        },
    };
    let pairs = match parse_form(q) {
        Some(pairs) => pairs,
        None => {
            return None;
        },
    };
    let number = match find_field(&pairs, "page") {
        Some(n) => n,
        None => {
            return None;
        },
    };
    let v = to_chars(number.as_str());
    let start: usize = if v.len() > 0 && v[0] == '+' {
        1
    } else {
        0
    };
    assert(v@.subrange(start as int, v@.len() as int) =~= if start == 1 {
        v@.skip(1)
    } else {
        v@
    });
    match parse_numeral(&v, start, v.len(), usize::MAX as u64) {
        Some(n) => Some(n as usize),
        None => None,
    }
}

/// Answers a request for the outbox of a profile with the given posts:
/// with a page where the query asks for one, else with the collection,
/// which counts the posts.
pub fn get(profile_id: i64, domain: &str, query: Option<&str>, posts: &Vec<Post>) -> (r:
    OutboxAnswer)
    requires
        posts@.len() <= i64::MAX,
    ensures
        match r {
            OutboxAnswer::Collection(outbox) => {
                &&& asked_page(
                    match query {
                        Some(q) => Some(q@),
                        None => None,
                    },
                ).is_none()
                &&& outbox.total_items == posts@.len()
                &&& outbox.id@ == outbox_url_text(domain@, profile_id as int)
                &&& link_text(outbox.first) == Some(
                    outbox_page_url_text(domain@, profile_id as int),
                )
                &&& link_text(outbox.last) == Some(outbox_page_url_text(domain@, profile_id as int))
                &&& is_activity_streams(outbox.context)
            },
            OutboxAnswer::Page(page) => {
                &&& asked_page(
                    match query {
                        Some(q) => Some(q@),
                        None => None,
                    },
                ).is_some()
                &&& is_activity_streams(page.context)
                &&& page.next.is_none()
                &&& page.prev.is_none()
                &&& page.ordered_items@.len() == posts@.len()
                &&& forall|i: int|
                    0 <= i < posts@.len() ==> (#[trigger] page.ordered_items@[i])@
                        == create_of_note(note_of_post(posts@[i]@))
            },
        },
{
    match page_in_query(query) {
        Some(page_num) => OutboxAnswer::Page(get_outbox_page(profile_id, domain, posts, page_num)),
        None => OutboxAnswer::Collection(get_outbox(profile_id, domain, posts.len() as i64)),
    }
}

} // verus!
