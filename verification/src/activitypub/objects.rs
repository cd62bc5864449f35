//! The documents exchanged with other servers.

pub mod actor;
pub mod note;
pub mod outbox;
pub mod webfinger;

use vstd::prelude::*;

verus! {

/// A JSON-LD context that a document names.
#[derive(Debug)]
pub enum Context {
    /// `https://www.w3.org/ns/activitystreams`
    ActivityStreams,
    /// `https://w3id.org/security/v1`
    SecurityV1,
    /// Any other context, kept as the JSON text it was given as.
    Unknown(String),
}

/// The `@context` of a document: one context or a list of them.
#[derive(Debug)]
pub enum AtContext {
    Context(Context),
    Collection(Vec<Context>),
}

/// Whether a document names the ActivityStreams context and no other.
pub open spec fn is_activity_streams(c: AtContext) -> bool {
    c matches AtContext::Context(Context::ActivityStreams)
}

} // verus!
