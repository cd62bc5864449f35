//! The profile routes: which profile a path names, and what the form for a
//! new profile holds.

use crate::form::{find_field, form_field, parse_form};
use crate::numeral::{int_text, parse_i64, parsed_i64, push_i64};
use crate::queries::is_bad_request;
use crate::server::error::{bad_request, map_bad_request, ServerError};
use crate::text::{find_char, find_last_piece, from_chars, index_from, last_piece, to_chars};
use vstd::prelude::*;
use vstd::string::*;

verus! {

/// The profile id that a path names: its last piece, up to a `#` if it
/// holds one, read as a number.
pub open spec fn named_profile(path: Seq<char>) -> Option<i64> {
    let param = last_piece(path, '/');
    parsed_i64(param.subrange(0, index_from(param, '#', 0)))
}

/// Reads the profile id that a path names.
///
/// A path whose last piece is no number is a bad request.
pub fn profile_id_param(path: &str) -> (r: Result<i64, ServerError>)
    ensures
        match r {
            Ok(id) => named_profile(path@) == Some(id),
            Err(e) => named_profile(path@).is_none() && is_bad_request(e, "Invalid profile ID"@),
        },
{
    let v = to_chars(path);
    let start = find_last_piece(&v, '/');
    let param_text = from_chars(&v, start, v.len());
    let param = to_chars(param_text.as_str());
    let cut = find_char(&param, '#', 0);
    let id_text = from_chars(&param, 0, cut);
    match parse_i64(id_text.as_str()) {
        Some(id) => Ok(id),
        None => Err(bad_request("Invalid profile ID")),
    }
}

/// What the form for a new profile holds.
#[derive(Debug)]
pub struct NewProfile {
    pub preferred_username: String,
    pub display_name: String,
    pub nickname: String,
}

/// The profile that a form body asks for, where it holds each of the three
/// fields once.
pub open spec fn form_profile(body: Seq<char>) -> Option<(Seq<char>, Seq<char>, Seq<char>)> {
    match (
        form_field(body, "preferred_username"@),
        form_field(body, "display_name"@),
        form_field(body, "nickname"@),
    ) {
        (Some(preferred_username), Some(display_name), Some(nickname)) => Some(
            (preferred_username, display_name, nickname),
        ),
        _ => None,
    }
}

/// Reads the form for a new profile.
///
/// A body that lacks a field, or holds one twice, is a bad request.
pub fn parse_profile_form(body: &str) -> (r: Result<NewProfile, ServerError>)
    ensures
        match form_profile(body@) {
            Some(fields) => r matches Ok(form) && (
                form.preferred_username@,
                form.display_name@,
                form.nickname@,
            ) == fields,
            None => r matches Err(e) && is_bad_request(e, "Invalid form data"@),
        },
{
    let pairs = match parse_form(body) {
        Some(pairs) => pairs,
        None => {
            return Err(map_bad_request("Invalid form data"));
        },
    };
    match (
        find_field(&pairs, "preferred_username"),
        find_field(&pairs, "display_name"),
        find_field(&pairs, "nickname"),
    ) {
        (Some(preferred_username), Some(display_name), Some(nickname)) => Ok(
            NewProfile { preferred_username, display_name, nickname },
        ),
        _ => Err(map_bad_request("Invalid form data")),
    }
}

/// The page of a local profile, where its maker is sent once it is made.
pub fn profile_path(profile_id: i64) -> (s: String)
    ensures
        s@ == "/profiles/"@ + int_text(profile_id as int),
{
    let mut s = "/profiles/".to_owned();
    push_i64(&mut s, profile_id);
    s
}

} // verus!
