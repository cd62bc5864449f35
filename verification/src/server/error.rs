//! The error every fallible operation of the engine reports: an HTTP status
//! with a message and a prefix for the log.

use crate::text::join2;
use vstd::prelude::*;
use vstd::std_specs::cmp::PartialEqSpecImpl;
use vstd::string::*;

verus! {

pub const BAD_REQUEST: u16 = 400;

pub const FORBIDDEN: u16 = 403;

pub const NOT_FOUND: u16 = 404;

pub const INTERNAL_SERVER_ERROR: u16 = 500;

pub const BAD_GATEWAY: u16 = 502;

/// A failure with the HTTP status it is answered with.
///
/// Two errors are equal when their messages and statuses are; the prefix is
/// for the log only.
#[derive(Debug)]
pub struct ServerError {
    pub prefix: &'static str,
    pub message: String,
    pub status_code: u16,
}

impl PartialEq for ServerError {
    fn eq(&self, other: &Self) -> (r: bool) {
        self.message == other.message && self.status_code == other.status_code
    }
}

impl PartialEqSpecImpl for ServerError {
    open spec fn obeys_eq_spec() -> bool {
        true
    }

    open spec fn eq_spec(&self, other: &Self) -> bool {
        self.message@ == other.message@ && self.status_code == other.status_code
    }
}

impl ServerError {
    /// Whether the status is one of the 4xx family, whose messages are shown
    /// to the caller.
    pub open spec fn is_client_error(&self) -> bool {
        400 <= self.status_code <= 499
    }

    /// The line written to the log: prefix, a space, the message.
    pub fn to_string(&self) -> (s: String)
        ensures
            s@ == self.prefix@ + seq![' '] + self.message@,
    {
        let mut s = join2(self.prefix, " ");
        s.append(self.message.as_str());
        proof {
            reveal_strlit(" ");
            assert(" "@ =~= seq![' ']);
        }
        s
    }

    /// What the caller is told: the message of an error of the 4xx family,
    /// and nothing of any other.
    pub open spec fn outward_text(&self) -> Seq<char> {
        if self.is_client_error() {
            self.message@
        } else {
            Seq::empty()
        }
    }

    /// Writes what the caller is told of this error.
    pub fn outward_message(&self) -> (s: String)
        ensures
            s@ == self.outward_text(),
    {
        if 400 <= self.status_code && self.status_code <= 499 {
            self.message.clone()
        } else {
            String::new()
        }
    }

    /// A copy of this error.
    pub fn duplicate(&self) -> (e: ServerError)
        ensures
            e == *self,
    {
        ServerError {
            prefix: self.prefix,
            message: self.message.clone(),
            status_code: self.status_code,
        }
    }
}

/// A request the caller got wrong, with the reason given to it verbatim.
pub fn bad_request(message: &str) -> (e: ServerError)
    ensures
        e.prefix@ == "[BAD REQUEST]"@,
        e.message@ == message@,
        e.status_code == BAD_REQUEST,
{
    ServerError { prefix: "[BAD REQUEST]", message: message.to_owned(), status_code: BAD_REQUEST }
}

/// A request that could not be read into what the route expects; `detail`
/// describes the decoder's complaint.
pub fn map_bad_request(detail: &str) -> (e: ServerError)
    ensures
        e.prefix@ == "[BAD REQUEST]"@,
        e.message@ == detail@,
        e.status_code == BAD_REQUEST,
{
    ServerError { prefix: "[BAD REQUEST]", message: detail.to_owned(), status_code: BAD_REQUEST }
}

/// A failure of a remote server, with a message of our own.
pub fn bad_gateway(message: &str) -> (e: ServerError)
    ensures
        e.prefix@ == "[BAD GATEWAY]"@,
        e.message@ == message@,
        e.status_code == BAD_GATEWAY,
{
    ServerError { prefix: "[BAD GATEWAY]", message: message.to_owned(), status_code: BAD_GATEWAY }
}

/// A failure of a remote server; `detail` describes what the transport or
/// the decoder reported.
pub fn map_bad_gateway(detail: &str) -> (e: ServerError)
    ensures
        e.prefix@ == "[BAD GATEWAY]"@,
        e.message@ == detail@,
        e.status_code == BAD_GATEWAY,
{
    ServerError { prefix: "[BAD GATEWAY]", message: detail.to_owned(), status_code: BAD_GATEWAY }
}

/// Nothing is known under that name; the answer has an empty body.
pub fn not_found() -> (e: ServerError)
    ensures
        e.prefix@ == ""@,
        e.message@ == ""@,
        e.status_code == NOT_FOUND,
{
    ServerError { prefix: "", message: "".to_owned(), status_code: NOT_FOUND }
}

/// The caller is not allowed to do this.
pub fn forbidden() -> (e: ServerError)
    ensures
        e.prefix@ == ""@,
        e.message@ == ""@,
        e.status_code == FORBIDDEN,
{
    ServerError { prefix: "", message: "".to_owned(), status_code: FORBIDDEN }
}

/// The request body exceeds the limit.
pub fn body_too_large() -> (e: ServerError)
    ensures
        e.prefix@ == ""@,
        e.message@ == "Body was too large"@,
        e.status_code == BAD_REQUEST,
{
    ServerError { prefix: "", message: "Body was too large".to_owned(), status_code: BAD_REQUEST }
}

/// The request body is not UTF-8 text.
pub fn body_not_utf8() -> (e: ServerError)
    ensures
        e.prefix@ == ""@,
        e.message@ == "Body was not UTF8"@,
        e.status_code == BAD_REQUEST,
{
    ServerError { prefix: "", message: "Body was not UTF8".to_owned(), status_code: BAD_REQUEST }
}

/// A failure of the local key material or of the signature computation:
/// fatal, answered with 500.
pub fn crypto_error(detail: &str) -> (e: ServerError)
    ensures
        e.prefix@ == "[OpenSSL ERROR]"@,
        e.message@ == detail@,
        e.status_code == INTERNAL_SERVER_ERROR,
{
    ServerError {
        prefix: "[OpenSSL ERROR]",
        message: detail.to_owned(),
        status_code: INTERNAL_SERVER_ERROR,
    }
}

/// A header that cannot be put on the wire.
pub fn header_error(detail: &str) -> (e: ServerError)
    ensures
        e.prefix@ == "[HYPER ERROR]"@,
        e.message@ == detail@,
        e.status_code == INTERNAL_SERVER_ERROR,
{
    ServerError {
        prefix: "[HYPER ERROR]",
        message: detail.to_owned(),
        status_code: INTERNAL_SERVER_ERROR,
    }
}

/// A failure of the row store.
pub fn storage_error(detail: &str) -> (e: ServerError)
    ensures
        e.prefix@ == "[SQL ERROR]"@,
        e.message@ == detail@,
        e.status_code == INTERNAL_SERVER_ERROR,
{
    ServerError {
        prefix: "[SQL ERROR]",
        message: detail.to_owned(),
        status_code: INTERNAL_SERVER_ERROR,
    }
}

} // verus!
