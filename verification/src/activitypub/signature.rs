//! The signature codec: the canonical signing string of a request, the
//! `Signature` header made from it, and the check of a received one.

use crate::crypto::{
    check, decode, decoded, encode, encoded, sign, signature_bytes, signature_verdict,
};
use crate::date::HttpDate;
use crate::server::error::{
    bad_gateway, bad_request, crypto_error, header_error, ServerError, BAD_GATEWAY, BAD_REQUEST,
    INTERNAL_SERVER_ERROR,
};
use crate::text::{
    check_header_value, find_char, from_chars, index_from, is_header_value, join2, lemma_index_from,
    occurs_at, opt_text, same_text, starts_at, to_chars,
};
use crate::uri::{Uri, UriView};
use vstd::prelude::*;
use vstd::string::*;
use vstd::utf8::encode_utf8;

verus! {

/// The request methods the engine sends and receives.
#[derive(Debug, Clone, Copy, PartialEq, Eq, Structural)]
pub enum Method {
    Get,
    Post,
    Delete,
}

impl Method {
    /// The method in lower case, as the signing string writes it.
    pub open spec fn lower(self) -> Seq<char> {
        match self {
            Method::Get => "get"@,
            Method::Post => "post"@,
            Method::Delete => "delete"@,
        }
    }

    /// The method in upper case, as the request line writes it.
    pub open spec fn upper(self) -> Seq<char> {
        match self {
            Method::Get => "GET"@,
            Method::Post => "POST"@,
            Method::Delete => "DELETE"@,
        }
    }

    /// The method in lower case.
    pub fn as_lower_str(&self) -> (s: &'static str)
        ensures
            s@ == self.lower(),
    {
        match self {
            Method::Get => "get",
            Method::Post => "post",
            Method::Delete => "delete",
        }
    }

    /// The method in upper case.
    pub fn as_str(&self) -> (s: &'static str)
        ensures
            s@ == self.upper(),
    {
        match self {
            Method::Get => "GET",
            Method::Post => "POST",
            Method::Delete => "DELETE",
        }
    }
}

/// The line of the signing string that carries the body digest, or nothing
/// when the request has no body.
pub open spec fn digest_line(digest: Option<Seq<char>>) -> Seq<char> {
    match digest {
        Some(d) => "\ndigest: "@ + d,
        None => Seq::empty(),
    }
}

/// The canonical signing string: request target, host and date, each on a
/// line of its own, and the digest where there is one.
pub open spec fn signing_string(
    method: Method,
    path_and_query: Seq<char>,
    host: Seq<char>,
    date: Seq<char>,
    digest: Option<Seq<char>>,
) -> Seq<char> {
    "(request-target): "@ + method.lower() + " "@ + path_and_query + "\nhost: "@ + host
        + "\ndate: "@ + date + digest_line(digest)
}

/// Whether a URI has what a signature covers: a host and a path.
pub open spec fn is_signable(uri: UriView) -> bool {
    uri.host.is_some() && uri.path_and_query.is_some()
}

/// The signing string of a request to `uri`.
pub open spec fn signing_string_for(
    method: Method,
    uri: UriView,
    date: Seq<char>,
    digest: Option<Seq<char>>,
) -> Seq<char>
    recommends
        is_signable(uri),
{
    signing_string(method, uri.path_and_query.unwrap(), uri.host.unwrap(), date, digest)
}

/// The error for a URI that a signature cannot cover.
pub open spec fn is_unsignable_error(e: ServerError) -> bool {
    e.status_code == BAD_REQUEST && e.message@ == "URI lacks a host or a path"@
}

/// Builds the canonical signing string of a request.
///
/// Fails, with a bad-request error, exactly when the URI lacks a host or a
/// path.
pub fn canonical_string(method: &Method, uri: &Uri, date: &HttpDate, digest: &Option<String>) -> (r:
    Result<String, ServerError>)
    ensures
        match r {
            Ok(s) => is_signable(uri@) && s@ == signing_string_for(
                *method,
                uri@,
                date.text@,
                opt_text(*digest),
            ),
            Err(e) => !is_signable(uri@) && is_unsignable_error(e),
        },
{
    match (&uri.host, &uri.path_and_query) {
        (Some(host), Some(target)) => {
            let mut s = "(request-target): ".to_owned();
            s.append(method.as_lower_str());
            s.append(" ");
            s.append(target.as_str());
            s.append("\nhost: ");
            s.append(host.as_str());
            s.append("\ndate: ");
            s.append(date.text.as_str());
            match digest {
                Some(d) => {
                    s.append("\ndigest: ");
                    s.append(d.as_str());
                },
                None => {
                    assert(s@ + Seq::<char>::empty() =~= s@);
                },
            }
            Ok(s)
        },
        _ => Err(bad_request("URI lacks a host or a path")),
    }
}

/// The base64 text of the signature of `message` under the key in
/// `private_key_pem`, or `None` where the key cannot sign.
pub open spec fn signature_text(private_key_pem: Seq<char>, message: Seq<char>) -> Option<
    Seq<char>,
> {
    match signature_bytes(private_key_pem, encode_utf8(message)) {
        Some(sig) => encoded(sig),
        None => None,
    }
}

/// The error for key material that cannot sign.
pub open spec fn is_crypto_error(e: ServerError) -> bool {
    e.status_code == INTERNAL_SERVER_ERROR && e.prefix@ == "[OpenSSL ERROR]"@
}

/// The error for a header that cannot be put on the wire.
pub open spec fn is_header_error(e: ServerError) -> bool {
    e.status_code == INTERNAL_SERVER_ERROR && e.prefix@ == "[HYPER ERROR]"@
}

/// Signs a text with RSA PKCS#1 v1.5 over SHA-256 and writes the signature
/// in base64.
///
/// Fails, with a crypto error, exactly when the key cannot sign.
pub fn sign_text(private_key_pem: &str, message: &str) -> (r: Result<String, ServerError>)
    ensures
        match r {
            Ok(s) => signature_text(private_key_pem@, message@) == Some(s@),
            Err(e) => signature_text(private_key_pem@, message@).is_none() && is_crypto_error(e),
        },
{
    match sign(private_key_pem, message.as_bytes()) {
        Ok(sig) => match encode(sig.as_slice()) {
            Some(text) => Ok(text),
            None => Err(crypto_error("Signature too long")),
        },
        Err(detail) => Err(crypto_error(detail.as_str())),
    }
}

/// Why a request could not be signed or sent.
pub enum Failure {
    /// The URI lacks a host or a path.
    Unsignable,
    /// The key cannot be read or cannot sign.
    KeyFailure,
    /// A header holds a character that cannot be put on the wire.
    UnsendableHeader,
}

/// Whether an error is the one that reports a failure.
pub open spec fn reports(e: ServerError, f: Failure) -> bool {
    match f {
        Failure::Unsignable => is_unsignable_error(e),
        Failure::KeyFailure => is_crypto_error(e),
        Failure::UnsendableHeader => is_header_error(e),
    }
}

/// Whether a result carries the text, or reports the failure, of an
/// expected outcome.
pub open spec fn carries(
    r: Result<String, ServerError>,
    outcome: Result<Seq<char>, Failure>,
) -> bool {
    match outcome {
        Ok(text) => r matches Ok(s) && s@ == text,
        Err(f) => r matches Err(e) && reports(e, f),
    }
}

/// The signature of a request in base64: that of its signing string, unless
/// the URI cannot be signed for or the key cannot sign.
pub open spec fn signature_outcome(
    method: Method,
    uri: UriView,
    date: Seq<char>,
    private_key_pem: Seq<char>,
    digest: Option<Seq<char>>,
) -> Result<Seq<char>, Failure> {
    if !is_signable(uri) {
        Err(Failure::Unsignable)
    } else {
        match signature_text(private_key_pem, signing_string_for(method, uri, date, digest)) {
            Some(sig) => Ok(sig),
            None => Err(Failure::KeyFailure),
        }
    }
}

/// Signs the canonical string of a request and returns the signature in
/// base64.
pub fn get_signature(
    method: &Method,
    uri: &Uri,
    date: &HttpDate,
    private_key_pem: &str,
    digest: &Option<String>,
) -> (r: Result<String, ServerError>)
    ensures
        carries(
            r,
            signature_outcome(*method, uri@, date.text@, private_key_pem@, opt_text(*digest)),
        ),
{
    match canonical_string(method, uri, date, digest) {
        Ok(message) => sign_text(private_key_pem, message.as_str()),
        Err(e) => Err(e),
    }
}

/// The list of signed headers that the `Signature` header declares.
pub open spec fn signed_headers(with_digest: bool) -> Seq<char> {
    if with_digest {
        "(request-target) host date digest"@
    } else {
        "(request-target) host date"@
    }
}

/// The value of the `Signature` header for a key id and a signature.
pub open spec fn header_text(key_id: Seq<char>, with_digest: bool, signature: Seq<char>) -> Seq<
    char,
> {
    "keyId=\""@ + key_id + "\",headers=\""@ + signed_headers(with_digest) + "\",signature=\""@
        + signature + "\""@
}

/// Writes the `Signature` header for a key id and a signature.
pub fn format_signature_header(key_id: &str, with_digest: bool, signature: &str) -> (s: String)
    ensures
        s@ == header_text(key_id@, with_digest, signature@),
{
    let mut s = "keyId=\"".to_owned();
    s.append(key_id);
    s.append("\",headers=\"");
    if with_digest {
        s.append("(request-target) host date digest");
    } else {
        s.append("(request-target) host date");
    }
    s.append("\",signature=\"");
    s.append(signature);
    s.append("\"");
    s
}

/// The `Signature` header of a request: key id, the list of signed headers
/// and the signature, unless signing fails or the finished header holds a
/// character that a header cannot hold.
pub open spec fn signature_header_outcome(
    method: Method,
    key_id: Seq<char>,
    uri: UriView,
    date: Seq<char>,
    private_key_pem: Seq<char>,
    digest: Option<Seq<char>>,
) -> Result<Seq<char>, Failure> {
    match signature_outcome(method, uri, date, private_key_pem, digest) {
        Err(f) => Err(f),
        Ok(sig) => {
            let header = header_text(key_id, digest.is_some(), sig);
            if is_header_value(header) {
                Ok(header)
            } else {
                Err(Failure::UnsendableHeader)
            }
        },
    }
}

/// Builds the `Signature` header of an outgoing request.
///
/// The URI must have a host and a path, the key must be able to sign, and
/// the finished header must be made of characters a header may hold; each
/// failure has an error of its own.
pub fn get_signature_header(
    method: &Method,
    key_id: &str,
    uri: &Uri,
    date: &HttpDate,
    private_key_pem: &str,
    digest: &Option<String>,
) -> (r: Result<String, ServerError>)
    ensures
        carries(
            r,
            signature_header_outcome(
                *method,
                key_id@,
                uri@,
                date.text@,
                private_key_pem@,
                opt_text(*digest),
            ),
        ),
{
    match get_signature(method, uri, date, private_key_pem, digest) {
        Ok(signature) => {
            let header = format_signature_header(key_id, digest.is_some(), signature.as_str());
            if check_header_value(header.as_str()) {
                Ok(header)
            } else {
                Err(header_error("Invalid header value"))
            }
        },
        Err(e) => Err(e),
    }
}

/// Signing is a function of its arguments: two results for the same method,
/// key id, URI, date, key and digest are both headers with the same text,
/// or both errors with the same status.
pub proof fn lemma_signing_is_deterministic(
    first: Result<String, ServerError>,
    second: Result<String, ServerError>,
    method: Method,
    key_id: Seq<char>,
    uri: UriView,
    date: Seq<char>,
    private_key_pem: Seq<char>,
    digest: Option<Seq<char>>,
)
    requires
        carries(
            first,
            signature_header_outcome(method, key_id, uri, date, private_key_pem, digest),
        ),
        carries(
            second,
            signature_header_outcome(method, key_id, uri, date, private_key_pem, digest),
        ),
    ensures
        first.is_ok() == second.is_ok(),
        first matches Ok(a) ==> second matches Ok(b) && a@ == b@,
        first matches Err(a) ==> second matches Err(b) && a.status_code == b.status_code,
{
}

/// A received request, as far as a signature can cover it.
#[derive(Debug)]
pub struct InboundRequest {
    pub method: Method,
    pub path_and_query: String,
    pub host: Option<String>,
    pub date: Option<String>,
    pub digest: Option<String>,
    /// The value of the `Signature` header.
    pub signature: Option<String>,
}

/// What a received request holds.
pub struct InboundView {
    pub method: Method,
    pub path_and_query: Seq<char>,
    pub host: Option<Seq<char>>,
    pub date: Option<Seq<char>>,
    pub digest: Option<Seq<char>>,
    pub signature: Option<Seq<char>>,
}

impl View for InboundRequest {
    type V = InboundView;

    open spec fn view(&self) -> InboundView {
        InboundView {
            method: self.method,
            path_and_query: self.path_and_query@,
            host: opt_text(self.host),
            date: opt_text(self.date),
            digest: opt_text(self.digest),
            signature: opt_text(self.signature),
        }
    }
}

/// The value that a piece of a `Signature` header gives to the parameter
/// `name`: the piece must read `name="value"`.
pub open spec fn param_value(piece: Seq<char>, name: Seq<char>) -> Option<Seq<char>> {
    let prefix = name + "=\""@;
    if piece.len() > prefix.len() && occurs_at(piece, prefix, 0) && piece.last() == '"' {
        Some(piece.subrange(prefix.len() as int, piece.len() - 1))
    } else {
        None
    }
}

/// The value of the parameter `name` in a `Signature` header whose pieces,
/// parted by commas, start at `from`: that of the first piece that gives
/// it one.
pub open spec fn find_param(header: Seq<char>, name: Seq<char>, from: int) -> Option<Seq<char>>
    decreases header.len() - from,
    via find_param_decreases
{
    if from < 0 || from > header.len() {
        None
    } else {
        let end = index_from(header, ',', from);
        match param_value(header.subrange(from, end), name) {
            Some(v) => Some(v),
            None => if end >= header.len() {
                None
            } else {
                find_param(header, name, end + 1)
            },
        }
    }
}

#[via_fn]
proof fn find_param_decreases(header: Seq<char>, name: Seq<char>, from: int) {
    if 0 <= from <= header.len() {
        lemma_index_from(header, ',', from);
    }
}

/// Reads the parameter `name` out of a `Signature` header.
pub fn signature_param(header: &str, name: &str) -> (r: Option<String>)
    ensures
        opt_text(r) == find_param(header@, name@, 0),
{
    let h = to_chars(header);
    let prefix_text = join2(name, "=\"");
    let prefix = to_chars(prefix_text.as_str());
    let mut from: usize = 0;
    loop
        invariant
            from <= h@.len(),
            h@ == header@,
            prefix@ == name@ + "=\""@,
            find_param(h@, name@, 0) == find_param(h@, name@, from as int),
        decreases h@.len() - from,
    {
        let end = find_char(&h, ',', from);
        let ghost piece = h@.subrange(from as int, end as int);
        if end - from > prefix.len() && starts_at(&h, &prefix, from) && h[end - 1] == '"' {
            proof {
                assert(piece.subrange(0, prefix@.len() as int) =~= h@.subrange(
                    from as int,
                    from + prefix@.len(),
                ));
                assert(piece.subrange(prefix@.len() as int, piece.len() - 1) =~= h@.subrange(
                    from + prefix@.len(),
                    end - 1,
                ));
            }
            return Some(from_chars(&h, from + prefix.len(), end - 1));
        }
        proof {
            if piece.len() > prefix@.len() {
                assert(piece.subrange(0, prefix@.len() as int) =~= h@.subrange(
                    from as int,
                    from + prefix@.len(),
                ));
            }
        }
        if end >= h.len() {
            return None;
        }
        from = end + 1;
    }
}

/// The line of the signing string for one covered header, or `None` where
/// the header is not one that a signature can cover or the request lacks it.
pub open spec fn header_line(name: Seq<char>, request: InboundView) -> Option<Seq<char>> {
    if name == "(request-target)"@ {
        Some(name + ": "@ + request.method.lower() + " "@ + request.path_and_query)
    } else if name == "host"@ {
        match request.host {
            Some(v) => Some(name + ": "@ + v),
            None => None,
        }
    } else if name == "date"@ {
        match request.date {
            Some(v) => Some(name + ": "@ + v),
            None => None,
        }
    } else if name == "digest"@ {
        match request.digest {
            Some(v) => Some(name + ": "@ + v),
            None => None,
        }
    } else {
        None
    }
}

/// The signing string that a list of header names, parted by spaces and
/// starting at `from`, declares for a request: one line for each name, in
/// order.
pub open spec fn covered_text(names: Seq<char>, from: int, request: InboundView) -> Option<
    Seq<char>,
>
    decreases names.len() - from,
    via covered_text_decreases
{
    if from < 0 || from > names.len() {
        None
    } else {
        let end = index_from(names, ' ', from);
        match header_line(names.subrange(from, end), request) {
            None => None,
            Some(line) => if end >= names.len() {
                Some(line)
            } else {
                match covered_text(names, end + 1, request) {
                    Some(rest) => Some(line + "\n"@ + rest),
                    None => None,
                }
            },
        }
    }
}

#[via_fn]
proof fn covered_text_decreases(names: Seq<char>, from: int, request: InboundView) {
    if 0 <= from <= names.len() {
        lemma_index_from(names, ' ', from);
    }
}

fn line_with(name: &str, value: &Option<String>) -> (r: Option<String>)
    ensures
        opt_text(r) == match opt_text(*value) {
            Some(v) => Some(name@ + ": "@ + v),
            None => None,
        },
{
    match value {
        Some(v) => {
            let mut line = join2(name, ": ");
            line.append(v.as_str());
            Some(line)
        },
        None => None,
    }
}

/// Writes the line of the signing string for one covered header.
pub fn line_for(name: &str, request: &InboundRequest) -> (r: Option<String>)
    ensures
        opt_text(r) == header_line(name@, request@),
{
    if same_text(name, "(request-target)") {
        let mut line = join2(name, ": ");
        line.append(request.method.as_lower_str());
        line.append(" ");
        line.append(request.path_and_query.as_str());
        Some(line)
    } else if same_text(name, "host") {
        line_with(name, &request.host)
    } else if same_text(name, "date") {
        line_with(name, &request.date)
    } else if same_text(name, "digest") {
        line_with(name, &request.digest)
    } else {
        None
    }
}

/// Rebuilds the signing string that a list of header names declares.
pub fn covered_string(names: &Vec<char>, from: usize, request: &InboundRequest) -> (r: Option<
    String,
>)
    requires
        from <= names@.len(),
    ensures
        opt_text(r) == covered_text(names@, from as int, request@),
    decreases names@.len() - from,
{
    let end = find_char(names, ' ', from);
    let name = from_chars(names, from, end);
    match line_for(name.as_str(), request) {
        None => None,
        Some(line) => {
            if end >= names.len() {
                Some(line)
            } else {
                match covered_string(names, end + 1, request) {
                    Some(rest) => {
                        let mut text = line;
                        text.append("\n");
                        text.append(rest.as_str());
                        Some(text)
                    },
                    None => None,
                }
            }
        },
    }
}

/// Why a received signature cannot be checked.
pub enum Rejection {
    /// The request has no `Signature` header.
    MissingSignature,
    /// The header lacks the list of headers or the signature, or the
    /// signature is not base64.
    MalformedSignature,
    /// The header declares a header that cannot be covered or is not there.
    UncoveredHeader,
    /// The sender's key cannot be read.
    UnreadableKey,
}

/// Whether an error is the one that reports a rejection.
pub open spec fn rejects(e: ServerError, why: Rejection) -> bool {
    match why {
        Rejection::MissingSignature => e.status_code == BAD_REQUEST && e.message@
            == "Missing signature header"@,
        Rejection::MalformedSignature => e.status_code == BAD_REQUEST && e.message@
            == "Malformed signature header"@,
        Rejection::UncoveredHeader => e.status_code == BAD_REQUEST && e.message@
            == "Signature covers a header that the request lacks"@,
        Rejection::UnreadableKey => e.status_code == BAD_GATEWAY && e.message@
            == "Unreadable public key"@,
    }
}

/// The text that a received signature must sign: the signing string rebuilt
/// from the request's own fields, in the order that the header declares.
pub open spec fn text_to_verify(request: InboundView) -> Result<Seq<char>, Rejection> {
    match request.signature {
        None => Err(Rejection::MissingSignature),
        Some(header) => match find_param(header, "headers"@, 0) {
            None => Err(Rejection::MalformedSignature),
            Some(names) => match covered_text(names, 0, request) {
                None => Err(Rejection::UncoveredHeader),
                Some(text) => Ok(text),
            },
        },
    }
}

/// What the check of a signature comes to, once the text and the encoded
/// signature are known.
pub open spec fn verdict_on(
    text: Seq<char>,
    signature: Seq<char>,
    public_key_pem: Seq<char>,
) -> Result<bool, Rejection> {
    match decoded(signature) {
        None => Err(Rejection::MalformedSignature),
        Some(bytes) => match signature_verdict(public_key_pem, encode_utf8(text), bytes) {
            Some(valid) => Ok(valid),
            None => Err(Rejection::UnreadableKey),
        },
    }
}

/// Whether the signature of a received request is that of its sender: the
/// signature that the header carries, read as base64, must be valid for the
/// rebuilt signing string under the sender's public key.
pub open spec fn verify_outcome(request: InboundView, public_key_pem: Seq<char>) -> Result<
    bool,
    Rejection,
> {
    match text_to_verify(request) {
        Err(why) => Err(why),
        Ok(text) => match find_param(request.signature.unwrap(), "signature"@, 0) {
            None => Err(Rejection::MalformedSignature),
            Some(encoded) => verdict_on(text, encoded, public_key_pem),
        },
    }
}

/// Rebuilds the signing string of a received request.
pub fn signed_text(request: &InboundRequest) -> (r: Result<String, ServerError>)
    ensures
        match text_to_verify(request@) {
            Ok(text) => r matches Ok(s) && s@ == text,
            Err(why) => r matches Err(e) && rejects(e, why),
        },
{
    let header = match &request.signature {
        Some(h) => h,
        None => {
            return Err(bad_request("Missing signature header"));
        },
    };
    let names = match signature_param(header.as_str(), "headers") {
        Some(n) => n,
        None => {
            return Err(bad_request("Malformed signature header"));
        },
    };
    let v = to_chars(names.as_str());
    match covered_string(&v, 0, request) {
        Some(text) => Ok(text),
        None => Err(bad_request("Signature covers a header that the request lacks")),
    }
}

/// The id of the key that a received request claims to be signed with.
pub fn signature_key_id(request: &InboundRequest) -> (r: Option<String>)
    ensures
        opt_text(r) == match request@.signature {
            Some(header) => find_param(header, "keyId"@, 0),
            None => None,
        },
{
    match &request.signature {
        Some(header) => signature_param(header.as_str(), "keyId"),
        None => None,
    }
}

/// Checks the signature of a received request against the public key of
/// the sender it names.
///
/// The answer is `true` exactly when the signature is valid for the
/// signing string rebuilt from the request; a request whose signature
/// cannot be checked at all is rejected with an error.
pub fn verify(request: &InboundRequest, public_key_pem: &str) -> (r: Result<bool, ServerError>)
    ensures
        match verify_outcome(request@, public_key_pem@) {
            Ok(valid) => r matches Ok(v) && v == valid,
            Err(why) => r matches Err(e) && rejects(e, why),
        },
{
    let text = match signed_text(request) {
        Ok(t) => t,
        Err(e) => {
            return Err(e);
        },
    };
    let header = match &request.signature {
        Some(h) => h,
        None => {
            return Err(bad_request("Missing signature header"));
        },
    };
    let encoded = match signature_param(header.as_str(), "signature") {
        Some(s) => s,
        None => {
            return Err(bad_request("Malformed signature header"));
        },
    };
    let bytes = match decode(encoded.as_str()) {
        Some(b) => b,
        None => {
            return Err(bad_request("Malformed signature header"));
        },
    };
    match check(public_key_pem, text.as_str().as_bytes(), bytes.as_slice()) {
        Some(valid) => Ok(valid),
        None => Err(bad_gateway("Unreadable public key")),
    }
}

/// The first separator at or after `from` is at `at` when nothing before
/// `at` is one.
pub proof fn lemma_index_from_is(s: Seq<char>, c: char, from: int, at: int)
    requires
        0 <= from <= at <= s.len(),
        forall|j: int| from <= j < at ==> s[j] != c,
        at < s.len() ==> s[at] == c,
    ensures
        index_from(s, c, from) == at,
    decreases at - from,
{
    if from < at {
        lemma_index_from_is(s, c, from + 1, at);
    }
}

/// A request that arrives as it was signed declares and carries what the
/// signer signed: the signing string rebuilt on arrival is the one that was
/// signed.
pub proof fn lemma_received_text_is_signed_text(
    method: Method,
    uri: UriView,
    date: Seq<char>,
    digest: Option<Seq<char>>,
    request: InboundView,
)
    requires
        is_signable(uri),
        request.method == method,
        request.path_and_query == uri.path_and_query.unwrap(),
        request.host == uri.host,
        request.date == Some(date),
        request.digest == digest,
    ensures
        covered_text(signed_headers(digest.is_some()), 0, request) == Some(
            signing_string_for(method, uri, date, digest),
        ),
{
    reveal_strlit("(request-target) host date digest");
    reveal_strlit("(request-target) host date");
    reveal_strlit("(request-target)");
    reveal_strlit("host");
    reveal_strlit("date");
    reveal_strlit("digest");
    reveal_strlit(": ");
    reveal_strlit(" ");
    reveal_strlit("\n");
    reveal_strlit("(request-target): ");
    reveal_strlit("\nhost: ");
    reveal_strlit("\ndate: ");
    reveal_strlit("\ndigest: ");
    let names = signed_headers(digest.is_some());
    let target_line = "(request-target): "@ + method.lower() + " "@ + request.path_and_query;
    let host_line = "host: "@ + uri.host.unwrap();
    let date_line = "date: "@ + date;
    lemma_index_from_is(names, ' ', 0, 16);
    lemma_index_from_is(names, ' ', 17, 21);
    assert(names.subrange(0, 16) =~= "(request-target)"@);
    assert(names.subrange(17, 21) =~= "host"@);
    assert(header_line(names.subrange(0, 16), request) == Some(
        "(request-target)"@ + ": "@ + method.lower() + " "@ + request.path_and_query,
    ));
    assert("(request-target)"@ + ": "@ =~= "(request-target): "@);
    assert("host"@ + ": "@ + uri.host.unwrap() =~= "host: "@ + uri.host.unwrap()) by {
        reveal_strlit("host: ");
    }
    assert("date"@ + ": "@ + date =~= "date: "@ + date) by {
        reveal_strlit("date: ");
    }
    assert("date"@ != "host"@) by {
        assert("date"@[0] == 'd' && "host"@[0] == 'h');
    }
    if digest.is_some() {
        let d = digest.unwrap();
        lemma_index_from_is(names, ' ', 22, 26);
        lemma_index_from_is(names, ' ', 27, 33);
        assert(names.subrange(22, 26) =~= "date"@);
        assert(names.subrange(27, 33) =~= "digest"@);
        let digest_line = "digest"@ + ": "@ + d;
        assert(covered_text(names, 27, request) == Some(digest_line));
        assert(covered_text(names, 22, request) == Some(
            "date"@ + ": "@ + date + "\n"@ + digest_line,
        ));
        assert(covered_text(names, 17, request) == Some(
            "host"@ + ": "@ + uri.host.unwrap() + "\n"@ + ("date"@ + ": "@ + date + "\n"@
                + digest_line),
        ));
        assert(covered_text(names, 0, request).unwrap() =~= signing_string_for(
            method,
            uri,
            date,
            digest,
        )) by {
            reveal_strlit("host: ");
            reveal_strlit("date: ");
        }
    } else {
        lemma_index_from_is(names, ' ', 22, 26);
        assert(names.subrange(22, 26) =~= "date"@);
        assert(covered_text(names, 22, request) == Some("date"@ + ": "@ + date));
        assert(covered_text(names, 17, request) == Some(
            "host"@ + ": "@ + uri.host.unwrap() + "\n"@ + ("date"@ + ": "@ + date),
        ));
        assert(covered_text(names, 0, request).unwrap() =~= signing_string_for(
            method,
            uri,
            date,
            digest,
        )) by {
            reveal_strlit("host: ");
            reveal_strlit("date: ");
        }
    }
}

/// Whether a text can be the value of a parameter of a `Signature`
/// header: it holds neither a comma nor a quote.
pub open spec fn is_param_text(s: Seq<char>) -> bool {
    forall|i: int| 0 <= i < s.len() ==> #[trigger] s[i] != ',' && s[i] != '"'
}

/// The list of signed headers holds neither a comma nor a quote.
pub proof fn lemma_signed_headers_are_param_text(with_digest: bool)
    ensures
        is_param_text(signed_headers(with_digest)),
{
    reveal_strlit("(request-target) host date digest");
    reveal_strlit("(request-target) host date");
    let names = signed_headers(with_digest);
    assert forall|i: int| 0 <= i < names.len() implies #[trigger] names[i] != ',' && names[i]
        != '"' by {
        if i < 8 {
        } else if i < 16 {
        } else if i < 24 {
        } else {
        }
    }
}

/// A `Signature` header gives back what it was written from: the key id,
/// the list of signed headers and the signature are the values of its
/// three parameters.
pub proof fn lemma_header_gives_back_its_params(
    key_id: Seq<char>,
    with_digest: bool,
    signature: Seq<char>,
)
    requires
        is_param_text(key_id),
        is_param_text(signature),
    ensures
        find_param(header_text(key_id, with_digest, signature), "keyId"@, 0) == Some(key_id),
        find_param(header_text(key_id, with_digest, signature), "headers"@, 0) == Some(
            signed_headers(with_digest),
        ),
        find_param(header_text(key_id, with_digest, signature), "signature"@, 0) == Some(
            signature,
        ),
{
    reveal_strlit("keyId=\"");
    reveal_strlit("\",headers=\"");
    reveal_strlit("\",signature=\"");
    reveal_strlit("\"");
    reveal_strlit("=\"");
    reveal_strlit("keyId");
    reveal_strlit("headers");
    reveal_strlit("signature");
    lemma_signed_headers_are_param_text(with_digest);
    let names = signed_headers(with_digest);
    let h = header_text(key_id, with_digest, signature);
    let k = key_id.len() as int;
    let n = names.len() as int;
    let g = signature.len() as int;
    let first = 7 + k + 1;
    let second = first + 10 + n + 1;
    assert(h.len() == second + 12 + g + 1);
    assert forall|j: int| 0 <= j < first implies h[j] != ',' by {
        if j < 7 {
        } else if j < 7 + k {
            assert(h[j] == key_id[j - 7]);
        } else {
        }
    }
    assert(h[first] == ',');
    lemma_index_from_is(h, ',', 0, first);
    assert forall|j: int| first + 1 <= j < second implies h[j] != ',' by {
        if j < first + 10 {
        } else if j < first + 10 + n {
            assert(h[j] == names[j - first - 10]);
        } else {
        }
    }
    assert(h[second] == ',');
    lemma_index_from_is(h, ',', first + 1, second);
    assert forall|j: int| second + 1 <= j < h.len() implies h[j] != ',' by {
        if j < second + 12 {
        } else if j < second + 12 + g {
            assert(h[j] == signature[j - second - 12]);
        } else {
        }
    }
    lemma_index_from_is(h, ',', second + 1, h.len() as int);
    let piece0 = h.subrange(0, first);
    let piece1 = h.subrange(first + 1, second);
    let piece2 = h.subrange(second + 1, h.len() as int);
    assert(piece0 =~= "keyId"@ + "=\""@ + key_id + "\""@);
    assert(piece1 =~= "headers"@ + "=\""@ + names + "\""@);
    assert(piece2 =~= "signature"@ + "=\""@ + signature + "\""@);
    assert(param_value(piece0, "keyId"@) == Some(key_id)) by {
        let prefix = "keyId"@ + "=\""@;
        assert(piece0.subrange(0, prefix.len() as int) =~= prefix);
        assert(piece0.subrange(prefix.len() as int, piece0.len() - 1) =~= key_id);
    }
    assert(param_value(piece1, "headers"@) == Some(names)) by {
        let prefix = "headers"@ + "=\""@;
        assert(piece1.subrange(0, prefix.len() as int) =~= prefix);
        assert(piece1.subrange(prefix.len() as int, piece1.len() - 1) =~= names);
    }
    assert(param_value(piece2, "signature"@) == Some(signature)) by {
        let prefix = "signature"@ + "=\""@;
        assert(piece2.subrange(0, prefix.len() as int) =~= prefix);
        assert(piece2.subrange(prefix.len() as int, piece2.len() - 1) =~= signature);
    }
    assert(param_value(piece0, "headers"@).is_none()) by {
        let prefix = "headers"@ + "=\""@;
        if occurs_at(piece0, prefix, 0) {
            assert(piece0.subrange(0, prefix.len() as int)[0] == prefix[0]);
        }
    }
    assert(param_value(piece0, "signature"@).is_none()) by {
        let prefix = "signature"@ + "=\""@;
        if occurs_at(piece0, prefix, 0) {
            assert(piece0.subrange(0, prefix.len() as int)[0] == prefix[0]);
        }
    }
    assert(param_value(piece1, "signature"@).is_none()) by {
        let prefix = "signature"@ + "=\""@;
        if occurs_at(piece1, prefix, 0) {
            assert(piece1.subrange(0, prefix.len() as int)[0] == prefix[0]);
        }
    }
    assert(find_param(h, "signature"@, second + 1) == Some(signature));
    assert(find_param(h, "signature"@, first + 1) == Some(signature));
    assert(find_param(h, "headers"@, first + 1) == Some(names));
}

/// Verification is the counterpart of signing: for a request that arrives
/// as it was signed, with the header that signing wrote, the check is the
/// check of the carried signature against the very text that was signed,
/// under whatever key is offered.
pub proof fn lemma_verification_checks_the_signed_text(
    method: Method,
    key_id: Seq<char>,
    uri: UriView,
    date: Seq<char>,
    digest: Option<Seq<char>>,
    signature: Seq<char>,
    public_key_pem: Seq<char>,
    request: InboundView,
)
    requires
        is_signable(uri),
        is_param_text(key_id),
        is_param_text(signature),
        request.method == method,
        request.path_and_query == uri.path_and_query.unwrap(),
        request.host == uri.host,
        request.date == Some(date),
        request.digest == digest,
        request.signature == Some(header_text(key_id, digest.is_some(), signature)),
    ensures
        text_to_verify(request) == Ok::<Seq<char>, Rejection>(
            signing_string_for(method, uri, date, digest),
        ),
        verify_outcome(request, public_key_pem) == verdict_on(
            signing_string_for(method, uri, date, digest),
            signature,
            public_key_pem,
        ),
{
    lemma_header_gives_back_its_params(key_id, digest.is_some(), signature);
    lemma_received_text_is_signed_text(method, uri, date, digest, request);
}

} // verus!
