//! The WebFinger responder: which account a query asks for, and the
//! document that answers it.

use crate::activitypub::{profile_url, profile_url_text};
use crate::activitypub::objects::actor::LinkType;
use crate::activitypub::objects::webfinger::{WebFinger, WebFingerLink};
use crate::form::{find_field, form_field, parse_form};
use crate::queries::{is_bad_request, is_not_found};
use crate::server::error::{bad_request, not_found, ServerError};
use crate::text::{find_char, from_chars, index_from, opt_text, same_text, to_chars};
use vstd::prelude::*;
use vstd::string::*;

verus! {

/// The account that a WebFinger query asks for.
#[derive(Debug)]
pub struct Account {
    pub handle: String,
    pub domain: String,
}

/// The ways a resource can fail to name an account.
pub enum ResourceError {
    /// The resource has no scheme.
    MissingScheme,
    /// The scheme is not `acct`.
    UnsupportedScheme,
    /// The identifier has no `@`.
    InvalidHandle,
}

/// The message that reports each failure.
pub open spec fn resource_error_text(e: ResourceError) -> Seq<char> {
    match e {
        ResourceError::MissingScheme =>
            "Invalid resource query provided (missing scheme i.e. 'acct:')"@,
        ResourceError::UnsupportedScheme =>
            "Sorry, that scheme is not supported yet (expected 'acct:')"@,
        ResourceError::InvalidHandle => "Invalid handle resource provided"@,
    }
}

/// The account that a resource names: `acct:` before the first colon, the
/// handle up to the next `@`, the domain behind it.
pub open spec fn account_of(resource: Seq<char>) -> Result<(Seq<char>, Seq<char>), ResourceError> {
    let colon = index_from(resource, ':', 0);
    if colon >= resource.len() {
        Err(ResourceError::MissingScheme)
    } else if resource.subrange(0, colon) != "acct"@ {
        Err(ResourceError::UnsupportedScheme)
    } else {
        let at = index_from(resource, '@', colon + 1);
        if at >= resource.len() {
            Err(ResourceError::InvalidHandle)
        } else {
            Ok((resource.subrange(colon + 1, at), resource.subrange(at + 1, resource.len() as int)))
        }
    }
}

/// Reads the account that a resource names.
///
/// A resource without a scheme, with another scheme than `acct`, or without
/// an `@` is a bad request, each with a message of its own.
pub fn parse_resource(resource: &str) -> (r: Result<Account, ServerError>)
    ensures
        match r {
            Ok(account) => account_of(resource@) == Ok::<_, ResourceError>(
                (account.handle@, account.domain@),
            ),
            Err(e) => account_of(resource@) matches Err(reason) && is_bad_request(
                e,
                resource_error_text(reason),
            ),
        },
{
    let v = to_chars(resource);
    let colon = find_char(&v, ':', 0);
    if colon >= v.len() {
        return Err(
            bad_request("Invalid resource query provided (missing scheme i.e. 'acct:')"),
        );
    }
    let scheme = from_chars(&v, 0, colon);
    if !same_text(scheme.as_str(), "acct") {
        return Err(bad_request("Sorry, that scheme is not supported yet (expected 'acct:')"));
    }
    let at = find_char(&v, '@', colon + 1);
    if at >= v.len() {
        return Err(bad_request("Invalid handle resource provided"));
    }
    Ok(Account { handle: from_chars(&v, colon + 1, at), domain: from_chars(&v, at + 1, v.len()) })
}

/// What a query asks for: the account named by its one `resource`
/// parameter.
pub open spec fn asked_account(query: Option<Seq<char>>, r: Result<Account, ServerError>) -> bool {
    match query {
        None => r matches Err(e) && is_bad_request(e, "Missing query parameter"@),
        Some(q) => match form_field(q, "resource"@) {
            None => r matches Err(e) && is_bad_request(e, "Invalid query string provided"@),
            Some(resource) => match account_of(resource) {
                Ok(parts) => r matches Ok(account) && (account.handle@, account.domain@) == parts,
                Err(reason) => r matches Err(e) && is_bad_request(e, resource_error_text(reason)),
            },
        },
    }
}

/// Reads the account that a WebFinger query asks for.
///
/// The query must be there, hold exactly one `resource` parameter, and
/// that resource must name an account; each failure is a bad request with a
/// message of its own.
pub fn account_in_query(query: Option<&str>) -> (r: Result<Account, ServerError>)
    ensures
        asked_account(
            match query {
                Some(q) => Some(q@),
                None => None,
            },
            r,
        ),
{
    match query {
        None => Err(bad_request("Missing query parameter")),
        Some(q) => match parse_form(q) {
            None => Err(bad_request("Invalid query string provided")),
            Some(pairs) => match find_field(&pairs, "resource") {
                None => Err(bad_request("Invalid query string provided")),
                Some(resource) => parse_resource(resource.as_str()),
            },
        },
    }
}

/// The subject of the document for an account.
pub open spec fn subject_text(handle: Seq<char>, domain: Seq<char>) -> Seq<char> {
    "acct:"@ + handle + "@"@ + domain
}

/// Whether `doc` is the answer for an account that is the local profile
/// `profile_id`: the subject names the account, and the one link leads to
/// the profile's canonical URL as an actor document.
pub open spec fn answers(doc: WebFinger, account: Account, profile_id: i64) -> bool {
    &&& opt_text(doc.subject) == Some(subject_text(account.handle@, account.domain@))
    &&& doc.aliases.is_none()
    &&& doc.properties.is_none()
    &&& doc.links matches Some(links)
    &&& links@.len() == 1
    &&& links@[0].is_actor_link()
    &&& opt_text(links@[0].href) == Some(profile_url_text(account.domain@, profile_id as int))
}

/// Answers a WebFinger query for `account`, where `profile` is the id of
/// the local profile with that handle, if there is one.
///
/// Nothing is found when there is no such profile, or when the account's
/// domain is not the server's own.
pub fn get(account: &Account, own_domain: &str, profile: Option<i64>) -> (r: Result<
    WebFinger,
    ServerError,
>)
    ensures
        match r {
            Ok(doc) => {
                &&& account.domain@ == own_domain@
                &&& profile matches Some(id)
                &&& answers(doc, *account, id)
            },
            Err(e) => (account.domain@ != own_domain@ || profile.is_none()) && is_not_found(e),
        },
{
    let profile_id = match profile {
        Some(id) => id,
        None => {
            return Err(not_found());
        },
    };
    if !same_text(account.domain.as_str(), own_domain) {
        return Err(not_found());
    }
    let self_link = WebFingerLink {
        rel: "self".to_owned(),
        link_type: Some(LinkType::ActivityJson),
        href: Some(profile_url(account.domain.as_str(), profile_id)),
    };
    let mut links: Vec<WebFingerLink> = Vec::new();
    links.push(self_link);
    let mut subject = "acct:".to_owned();
    subject.append(account.handle.as_str());
    subject.append("@");
    subject.append(account.domain.as_str());
    Ok(WebFinger { subject: Some(subject), aliases: None, properties: None, links: Some(links) })
}

} // verus!
