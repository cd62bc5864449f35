//! Outgoing requests, ready to be sent.

use crate::activitypub::{key_id, profile_url_text, SHORT_ACCEPT_HEADER};
use crate::activitypub::signature::{
    get_signature_header, reports, signature_header_outcome, Failure, Method,
};
use crate::crypto::{base64_encode, base64_text, sha256, sha256_digest};
use crate::date::HttpDate;
use crate::server::error::{header_error, ServerError};
use crate::server::server_request::CurrentProfile;
use crate::text::{check_header_value, is_header_value, opt_text};
use crate::uri::{Uri, UriView};
use vstd::prelude::*;
use vstd::string::*;
use vstd::utf8::encode_utf8;

verus! {

/// A name with a value: a header, or a parameter of a query.
#[derive(Debug)]
pub struct Header {
    pub name: String,
    pub value: String,
}

/// The name and value of each header, in order.
pub open spec fn header_pairs(headers: Seq<Header>) -> Seq<(Seq<char>, Seq<char>)> {
    headers.map_values(|h: Header| (h.name@, h.value@))
}

/// A request as the HTTP client needs it: the client adds the query to the
/// URL, encoded, and sends the headers in the order given.
#[derive(Debug)]
pub struct OutgoingRequest {
    pub method: Method,
    pub url: String,
    pub query: Vec<Header>,
    pub headers: Vec<Header>,
    pub body: Option<String>,
}

/// What an outgoing request holds.
pub struct RequestView {
    pub method: Method,
    pub url: Seq<char>,
    pub query: Seq<(Seq<char>, Seq<char>)>,
    pub headers: Seq<(Seq<char>, Seq<char>)>,
    pub body: Option<Seq<char>>,
}

impl View for OutgoingRequest {
    type V = RequestView;

    open spec fn view(&self) -> RequestView {
        RequestView {
            method: self.method,
            url: self.url@,
            query: header_pairs(self.query@),
            headers: header_pairs(self.headers@),
            body: opt_text(self.body),
        }
    }
}

/// The user agent that signed requests name.
pub const SIGNED_USER_AGENT: &'static str = "Mastodon/3.1.3";

/// The user agent that WebFinger queries name.
pub const PLAIN_USER_AGENT: &'static str = "curl/8.4.0";

/// The value of the `Digest` header for a body: the SHA-256 digest of its
/// bytes in base64, marked with the algorithm.
pub open spec fn digest_text(body: Seq<char>) -> Seq<char> {
    "sha-256="@ + base64_text(sha256_digest(encode_utf8(body)))
}

/// The digest of an optional body.
pub open spec fn digest_of(body: Option<Seq<char>>) -> Option<Seq<char>> {
    match body {
        Some(b) => Some(digest_text(b)),
        None => None,
    }
}

/// Writes the value of the `Digest` header for a body.
pub fn body_digest(body: &str) -> (s: String)
    ensures
        s@ == digest_text(body@),
{
    let hash = sha256(body.as_bytes());
    let encoded = base64_encode(hash.as_slice());
    let mut s = "sha-256=".to_owned();
    s.append(encoded.as_str());
    s
}

/// The headers of a signed request, in order: date, user agent, accept,
/// the content type and the digest where there is a body, and the
/// signature.
pub open spec fn signed_headers_of(
    date: Seq<char>,
    digest: Option<Seq<char>>,
    signature: Seq<char>,
) -> Seq<(Seq<char>, Seq<char>)> {
    let head = seq![
        ("date"@, date),
        ("user-agent"@, SIGNED_USER_AGENT@),
        ("accept"@, SHORT_ACCEPT_HEADER@),
    ];
    let middle = match digest {
        Some(d) => seq![("content-type"@, SHORT_ACCEPT_HEADER@), ("digest"@, d)],
        None => Seq::empty(),
    };
    head + middle + seq![("signature"@, signature)]
}

/// The signed request that `profile` sends to `uri` at `date`: every header
/// can be put on the wire, the digest is that of the body, and the
/// signature is made with the profile's key under the profile's key id.
pub open spec fn signed_request_outcome(
    method: Method,
    uri: UriView,
    profile: CurrentProfile,
    body: Option<Seq<char>>,
    date: Seq<char>,
) -> Result<RequestView, Failure> {
    let digest = digest_of(body);
    if !is_header_value(date) {
        Err(Failure::UnsendableHeader)
    } else if digest matches Some(d) && !is_header_value(d) {
        Err(Failure::UnsendableHeader)
    } else {
        match signature_header_outcome(
            method,
            profile_url_text(profile.domain@, profile.profile_id as int) + "#main-key"@,
            uri,
            date,
            profile.private_key_pem@,
            digest,
        ) {
            Err(f) => Err(f),
            Ok(signature) => Ok(
                RequestView {
                    method,
                    url: uri.text,
                    query: Seq::empty(),
                    headers: signed_headers_of(date, digest, signature),
                    body,
                },
            ),
        }
    }
}

/// Whether a result carries the request, or reports the failure, of an
/// expected outcome.
pub open spec fn delivers(
    r: Result<OutgoingRequest, ServerError>,
    outcome: Result<RequestView, Failure>,
) -> bool {
    match outcome {
        Ok(view) => r matches Ok(request) && request@ == view,
        Err(f) => r matches Err(e) && reports(e, f),
    }
}

fn header(name: &str, value: &str) -> (h: Header)
    ensures
        h.name@ == name@,
        h.value@ == value@,
{
    Header { name: name.to_owned(), value: value.to_owned() }
}

/// Builds the signed request that `current_profile` sends to `uri` at
/// `date`, with the body if there is one.
pub fn build_activitypub_request(
    method: Method,
    uri: &Uri,
    current_profile: &CurrentProfile,
    body: Option<String>,
    date: &HttpDate,
) -> (r: Result<OutgoingRequest, ServerError>)
    ensures
        delivers(
            r,
            signed_request_outcome(method, uri@, *current_profile, opt_text(body), date.text@),
        ),
{
    if !check_header_value(date.text.as_str()) {
        return Err(header_error("Invalid date header"));
    }
    let digest = match &body {
        Some(b) => Some(body_digest(b.as_str())),
        None => None,
    };
    if let Some(d) = &digest {
        if !check_header_value(d.as_str()) {
            return Err(header_error("Invalid digest header"));
        }
    }
    let key = key_id(current_profile.domain.as_str(), current_profile.profile_id);
    let signature = match get_signature_header(
        &method,
        key.as_str(),
        uri,
        date,
        current_profile.private_key_pem.as_str(),
        &digest,
    ) {
        Ok(s) => s,
        Err(e) => {
            return Err(e);
        },
    };
    let mut headers: Vec<Header> = Vec::new();
    headers.push(header("date", date.text.as_str()));
    headers.push(header("user-agent", SIGNED_USER_AGENT));
    headers.push(header("accept", SHORT_ACCEPT_HEADER));
    if let Some(d) = &digest {
        headers.push(header("content-type", SHORT_ACCEPT_HEADER));
        headers.push(header("digest", d.as_str()));
    }
    headers.push(header("signature", signature.as_str()));
    let request = OutgoingRequest {
        method,
        url: uri.text.clone(),
        query: Vec::new(),
        headers,
        body,
    };
    proof {
        assert(request@.headers =~= signed_headers_of(
            date.text@,
            opt_text(digest),
            signature@,
        ));
        assert(request@.query =~= Seq::empty());
    }
    Ok(request)
}

/// The WebFinger query that asks `host` for the account `account_name`.
pub open spec fn webfinger_request_of(host: Seq<char>, account_name: Seq<char>) -> RequestView {
    RequestView {
        method: Method::Get,
        url: "https://"@ + host + "/.well-known/webfinger"@,
        query: seq![("resource"@, "acct:"@ + account_name + "@"@ + host)],
        headers: seq![("user-agent"@, PLAIN_USER_AGENT@), ("accept"@, SHORT_ACCEPT_HEADER@)],
        body: None,
    }
}

/// Builds the unsigned WebFinger query for an account on a host.
pub fn get_webfinger(host: &str, account_name: &str) -> (request: OutgoingRequest)
    ensures
        request@ == webfinger_request_of(host@, account_name@),
{
    let mut url = "https://".to_owned();
    url.append(host);
    url.append("/.well-known/webfinger");
    let mut resource = "acct:".to_owned();
    resource.append(account_name);
    resource.append("@");
    resource.append(host);
    let mut query: Vec<Header> = Vec::new();
    query.push(header("resource", resource.as_str()));
    let mut headers: Vec<Header> = Vec::new();
    headers.push(header("user-agent", PLAIN_USER_AGENT));
    headers.push(header("accept", SHORT_ACCEPT_HEADER));
    let request = OutgoingRequest { method: Method::Get, url, query, headers, body: None };
    proof {
        assert(request@.query =~= webfinger_request_of(host@, account_name@).query);
        assert(request@.headers =~= webfinger_request_of(host@, account_name@).headers);
    }
    request
}

/// Builds the signed request that fetches the document at `uri`.
pub fn get_from_ap(uri: &Uri, current_profile: &CurrentProfile, date: &HttpDate) -> (r: Result<
    OutgoingRequest,
    ServerError,
>)
    ensures
        delivers(
            r,
            signed_request_outcome(Method::Get, uri@, *current_profile, None, date.text@),
        ),
{
    build_activitypub_request(Method::Get, uri, current_profile, None, date)
}

/// Builds the signed request that fetches the actor document at `uri`.
pub fn get_actor(uri: &Uri, current_profile: &CurrentProfile, date: &HttpDate) -> (r: Result<
    OutgoingRequest,
    ServerError,
>)
    ensures
        delivers(
            r,
            signed_request_outcome(Method::Get, uri@, *current_profile, None, date.text@),
        ),
{
    get_from_ap(uri, current_profile, date)
}

/// Builds the signed request that fetches the outbox at `uri`.
pub fn get_outbox(uri: &Uri, current_profile: &CurrentProfile, date: &HttpDate) -> (r: Result<
    OutgoingRequest,
    ServerError,
>)
    ensures
        delivers(
            r,
            signed_request_outcome(Method::Get, uri@, *current_profile, None, date.text@),
        ),
{
    get_from_ap(uri, current_profile, date)
}

/// Builds the signed request that fetches the outbox page at `uri`.
pub fn get_outbox_page(uri: &Uri, current_profile: &CurrentProfile, date: &HttpDate) -> (r:
    Result<OutgoingRequest, ServerError>)
    ensures
        delivers(
            r,
            signed_request_outcome(Method::Get, uri@, *current_profile, None, date.text@),
        ),
{
    get_from_ap(uri, current_profile, date)
}

/// Builds the signed request that posts `body` to the inbox at `uri`.
pub fn send_as(uri: &Uri, profile: &CurrentProfile, body: String, date: &HttpDate) -> (r: Result<
    OutgoingRequest,
    ServerError,
>)
    ensures
        delivers(
            r,
            signed_request_outcome(Method::Post, uri@, *profile, Some(body@), date.text@),
        ),
{
    build_activitypub_request(Method::Post, uri, profile, Some(body), date)
}

} // verus!
