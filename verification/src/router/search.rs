//! The search for a remote account: which handle the form asks for.

use crate::activitypub::{
    get_full_handle, handle_host, handle_separator, handle_user, FullHandle,
};
use crate::form::{find_field, form_field, parse_form};
use crate::queries::is_bad_request;
use crate::server::error::{map_bad_request, ServerError};
use vstd::prelude::*;
use vstd::string::*;

verus! {

/// What a search form asks for: the handle in its one field `q`. A form
/// without that field is a bad request, and so is a field that holds no
/// handle.
pub open spec fn searched_handle(body: Seq<char>, r: Result<FullHandle, ServerError>) -> bool {
    match form_field(body, "q"@) {
        None => r matches Err(e) && is_bad_request(e, "Invalid form data"@),
        Some(q) => if q.len() == 0 {
            r matches Err(e) && is_bad_request(e, "Missing user name"@)
        } else if handle_separator(q) >= q.len() {
            r matches Err(e) && is_bad_request(e, "Missing host name"@)
        } else {
            r matches Ok(h) && h.preferred_username@ == handle_user(q) && h.host@ == handle_host(q)
        },
    }
}

/// Reads the handle that a search form asks for.
pub fn handle_in_form(body: &str) -> (r: Result<FullHandle, ServerError>)
    ensures
        searched_handle(body@, r),
{
    let pairs = match parse_form(body) {
        Some(pairs) => pairs,
        None => {
            return Err(map_bad_request("Invalid form data"));
        },
    };
    match find_field(&pairs, "q") {
        Some(q) => get_full_handle(q.as_str()),
        None => Err(map_bad_request("Invalid form data")),
    }
}

} // verus!
