//! The federation protocol: handles, canonical URLs, objects, requests and
//! signatures.

pub mod objects;
pub mod requests;
pub mod signature;

use crate::numeral::{int_text, push_i64};
use crate::server::error::{bad_request, ServerError, BAD_REQUEST};
use crate::text::{find_char, from_chars, index_from, to_chars, trim_bounds, trimmed};
use vstd::prelude::*;
use vstd::string::*;

verus! {

/// The media type of ActivityPub documents, in its short form.
pub const SHORT_ACCEPT_HEADER: &'static str = "application/activity+json";

/// The media type of ActivityPub documents, in its long form.
pub const LONG_ACCEPT_HEADER: &'static str =
    "application/ld+json;profile=\u{201c}https://www.w3.org/ns/activitystreams";

/// The collection that stands for everybody.
pub const PUBLIC_STREAM: &'static str = "https://www.w3.org/ns/activitystreams#Public";

/// An account name with the host it lives on.
#[derive(Debug)]
pub struct FullHandle {
    pub preferred_username: String,
    pub host: String,
}

/// Where the user name of a handle starts: after the leading `@`, if it has
/// one.
pub open spec fn handle_start(s: Seq<char>) -> int {
    if s.len() > 0 && s[0] == '@' {
        1
    } else {
        0
    }
}

/// The position of the `@` that parts user name and host, or the length of
/// the text when there is none.
pub open spec fn handle_separator(s: Seq<char>) -> int {
    index_from(s, '@', handle_start(s))
}

/// The user name of a handle: what stands before the separator, trimmed.
pub open spec fn handle_user(s: Seq<char>) -> Seq<char> {
    trimmed(s.subrange(handle_start(s), handle_separator(s)))
}

/// The host of a handle, trimmed. After a leading `@` it is all that
/// follows the separator; without one it ends at the next `@`.
pub open spec fn handle_host(s: Seq<char>) -> Seq<char> {
    let from = handle_separator(s) + 1;
    if handle_start(s) == 1 {
        trimmed(s.subrange(from, s.len() as int))
    } else {
        trimmed(s.subrange(from, index_from(s, '@', from)))
    }
}

/// Reads `user@host`, with or without a leading `@`.
///
/// An empty text has no user name; a text without a separator has no host.
/// Both are bad requests.
pub fn get_full_handle(username: &str) -> (r: Result<FullHandle, ServerError>)
    ensures
        match r {
            Ok(h) => {
                &&& username@.len() > 0
                &&& handle_separator(username@) < username@.len()
                &&& h.preferred_username@ == handle_user(username@)
                &&& h.host@ == handle_host(username@)
            },
            Err(e) => {
                &&& e.status_code == BAD_REQUEST
                &&& if username@.len() == 0 {
                    e.message@ == "Missing user name"@
                } else {
                    handle_separator(username@) >= username@.len() && e.message@
                        == "Missing host name"@
                }
            },
        },
{
    let v = to_chars(username);
    if v.len() == 0 {
        return Err(bad_request("Missing user name"));
    }
    let start: usize = if v[0] == '@' {
        1
    } else {
        0
    };
    let sep = find_char(&v, '@', start);
    if sep >= v.len() {
        return Err(bad_request("Missing host name"));
    }
    let (a, b) = trim_bounds(&v, start, sep);
    let preferred_username = from_chars(&v, a, b);
    let host_end = if start == 1 {
        v.len()
    } else {
        find_char(&v, '@', sep + 1)
    };
    let (c, d) = trim_bounds(&v, sep + 1, host_end);
    let host = from_chars(&v, c, d);
    Ok(FullHandle { preferred_username, host })
}

impl FullHandle {
    /// The handle written out: `@user@host`.
    pub open spec fn text(&self) -> Seq<char> {
        "@"@ + self.preferred_username@ + "@"@ + self.host@
    }

    /// The local page that shows the remote account.
    pub fn get_local_url(&self) -> (s: String)
        ensures
            s@ == "/feeds/"@ + self.text(),
    {
        let mut s = "/feeds/".to_owned();
        s.append("@");
        s.append(self.preferred_username.as_str());
        s.append("@");
        s.append(self.host.as_str());
        assert(s@ =~= "/feeds/"@ + self.text());
        s
    }

    /// The handle written out: `@user@host`.
    pub fn to_string(&self) -> (s: String)
        ensures
            s@ == self.text(),
    {
        let mut s = "@".to_owned();
        s.append(self.preferred_username.as_str());
        s.append("@");
        s.append(self.host.as_str());
        s
    }
}

/// The canonical URL of a local profile, which is also its actor id.
pub open spec fn profile_url_text(domain: Seq<char>, profile_id: int) -> Seq<char> {
    "https://"@ + domain + "/profiles/"@ + int_text(profile_id)
}

/// The canonical URL of a local post.
pub open spec fn post_url_text(domain: Seq<char>, post_id: int) -> Seq<char> {
    "https://"@ + domain + "/posts/"@ + int_text(post_id)
}

/// Writes the canonical URL of a local profile.
pub fn profile_url(domain: &str, profile_id: i64) -> (s: String)
    ensures
        s@ == profile_url_text(domain@, profile_id as int),
{
    let mut s = "https://".to_owned();
    s.append(domain);
    s.append("/profiles/");
    push_i64(&mut s, profile_id);
    s
}

/// Writes the canonical URL of a local post.
pub fn post_url(domain: &str, post_id: i64) -> (s: String)
    ensures
        s@ == post_url_text(domain@, post_id as int),
{
    let mut s = "https://".to_owned();
    s.append(domain);
    s.append("/posts/");
    push_i64(&mut s, post_id);
    s
}

/// Writes the id of the key that signs for a local profile.
pub fn key_id(domain: &str, profile_id: i64) -> (s: String)
    ensures
        s@ == profile_url_text(domain@, profile_id as int) + "#main-key"@,
{
    let mut s = profile_url(domain, profile_id);
    s.append("#main-key");
    s
}

} // verus!
