//! Answers, as the routes hand them to the server.

use crate::activitypub::requests::{header_pairs, Header};
use crate::server::error::{ServerError, INTERNAL_SERVER_ERROR};
use crate::server::utils::{cookie_text, make_cookie};
use crate::text::{check_header_value, is_header_value};
use vstd::prelude::*;
use vstd::string::*;

verus! {

pub const OK: u16 = 200;

pub const SEE_OTHER: u16 = 303;

/// An answer: status, headers and body.
#[derive(Debug)]
pub struct ServerResponse {
    pub status: u16,
    pub headers: Vec<Header>,
    pub body: String,
}

/// What an answer holds.
pub struct ResponseView {
    pub status: u16,
    pub headers: Seq<(Seq<char>, Seq<char>)>,
    pub body: Seq<char>,
}

impl View for ServerResponse {
    type V = ResponseView;

    open spec fn view(&self) -> ResponseView {
        ResponseView {
            status: self.status,
            headers: header_pairs(self.headers@),
            body: self.body@,
        }
    }
}

/// The answer with a status and a body and no header.
pub open spec fn plain_response(status: u16, body: Seq<char>) -> ResponseView {
    ResponseView { status, headers: Seq::empty(), body }
}

/// An answer with a status and a body.
pub fn send_with_status(status: u16, body: String) -> (r: ServerResponse)
    ensures
        r@ == plain_response(status, body@),
{
    let r = ServerResponse { status, headers: Vec::new(), body };
    assert(r@.headers =~= Seq::empty());
    r
}

/// The answer 200 with a body.
pub fn send(body: String) -> (r: ServerResponse)
    ensures
        r@ == plain_response(OK, body@),
{
    send_with_status(OK, body)
}

/// An answer with a status and an empty body.
pub fn send_status(status: u16) -> (r: ServerResponse)
    ensures
        r@ == plain_response(status, Seq::empty()),
{
    send_with_status(status, String::new())
}

/// The answer to a failure that the caller is told of: its status, with
/// its message as the body.
pub fn send_status_and_message(error: ServerError) -> (r: ServerResponse)
    ensures
        r@ == plain_response(error.status_code, error.message@),
{
    send_with_status(error.status_code, error.message)
}

/// The answer 200 with the body `OK`.
pub fn ok() -> (r: ServerResponse)
    ensures
        r@ == plain_response(OK, "OK"@),
{
    send("OK".to_owned())
}

/// The answer that sends the caller on to `path`, or an error where the
/// path cannot stand in a header.
pub fn redirect(path: &str) -> (r: Result<ServerResponse, ServerError>)
    ensures
        match r {
            Ok(response) => is_header_value(path@) && response@ == (ResponseView {
                status: SEE_OTHER,
                headers: seq![("location"@, path@)],
                body: Seq::empty(),
            }),
            Err(e) => !is_header_value(path@) && e.status_code == INTERNAL_SERVER_ERROR
                && e.prefix@ == "[HEADER ERROR]"@ && e.message@ == "Invalid Redirect Provided"@,
        },
{
    if !check_header_value(path) {
        return Err(
            ServerError {
                prefix: "[HEADER ERROR]",
                message: "Invalid Redirect Provided".to_owned(),
                status_code: INTERNAL_SERVER_ERROR,
            },
        );
    }
    let mut headers: Vec<Header> = Vec::new();
    headers.push(Header { name: "location".to_owned(), value: path.to_owned() });
    let response = ServerResponse { status: SEE_OTHER, headers, body: String::new() };
    assert(response@.headers =~= seq![("location"@, path@)]);
    Ok(response)
}

/// The answer that sends the caller on to `path` and sets a cookie on the
/// way, or an error where the path or the cookie cannot stand in a header.
pub fn redirect_with_cookie(path: &str, key: &str, value: &str) -> (r: Result<
    ServerResponse,
    ServerError,
>)
    ensures
        match r {
            Ok(response) => is_header_value(path@) && is_header_value(cookie_text(key@, value@))
                && response@ == (ResponseView {
                status: SEE_OTHER,
                headers: seq![("location"@, path@), ("set-cookie"@, cookie_text(key@, value@))],
                body: Seq::empty(),
            }),
            Err(e) => !(is_header_value(path@) && is_header_value(cookie_text(key@, value@)))
                && e.status_code == INTERNAL_SERVER_ERROR && e.prefix@ == "[HEADER ERROR]"@,
        },
{
    let mut response = match redirect(path) {
        Ok(response) => response,
        Err(e) => {
            return Err(e);
        },
    };
    let cookie = make_cookie(key, value);
    if !check_header_value(cookie.as_str()) {
        return Err(
            ServerError {
                prefix: "[HEADER ERROR]",
                message: "Invalid Cookie Provided".to_owned(),
                status_code: INTERNAL_SERVER_ERROR,
            },
        );
    }
    let ghost before = response@.headers;
    response.headers.push(Header { name: "set-cookie".to_owned(), value: cookie });
    assert(response@.headers =~= before.push(("set-cookie"@, cookie_text(key@, value@))));
    assert(response@.headers =~= seq![
        ("location"@, path@),
        ("set-cookie"@, cookie_text(key@, value@)),
    ]);
    Ok(response)
}

/// The answer to a failure: a failure of the 4xx family is told with its
/// message, any other with its status alone.
pub open spec fn failure_response(error: ServerError) -> ResponseView {
    plain_response(error.status_code, error.outward_text())
}

/// Answers a failure.
pub fn serve(error: ServerError) -> (r: ServerResponse)
    ensures
        r@ == failure_response(error),
{
    if 400 <= error.status_code && error.status_code <= 499 {
        send_status_and_message(error)
    } else {
        send_status(error.status_code)
    }
}

} // verus!
