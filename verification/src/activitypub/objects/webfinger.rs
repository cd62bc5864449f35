//! WebFinger documents.

use crate::activitypub::objects::actor::LinkType;
use crate::text::opt_text;
use vstd::prelude::*;
use vstd::string::*;

verus! {

/// One link of a WebFinger document.
#[derive(Debug)]
pub struct WebFingerLink {
    pub rel: String,
    pub link_type: Option<LinkType>,
    pub href: Option<String>,
}

impl WebFingerLink {
    /// Whether this link leads to the actor document: its relation is
    /// `self` and its type is the ActivityPub media type.
    pub open spec fn is_actor_link(&self) -> bool {
        self.rel@ == "self"@ && self.link_type matches Some(LinkType::ActivityJson)
    }

    /// Decides `is_actor_link`.
    pub fn leads_to_actor(&self) -> (r: bool)
        ensures
            r == self.is_actor_link(),
    {
        let rel_is_self = crate::text::same_text(self.rel.as_str(), "self");
        match &self.link_type {
            Some(LinkType::ActivityJson) => rel_is_self,
            _ => false,
        }
    }
}

/// The answer to a WebFinger query.
#[derive(Debug)]
pub struct WebFinger {
    pub subject: Option<String>,
    pub aliases: Option<Vec<String>>,
    /// The properties, kept as the JSON text they were given as.
    pub properties: Option<String>,
    pub links: Option<Vec<WebFingerLink>>,
}

/// The position of the first actor link at or after `from`, or the number
/// of links when there is none.
pub open spec fn actor_link_from(links: Seq<WebFingerLink>, from: int) -> int
    decreases links.len() - from,
{
    if from < 0 || from >= links.len() {
        links.len() as int
    } else if links[from].is_actor_link() {
        from
    } else {
        actor_link_from(links, from + 1)
    }
}

/// The address of the actor document that a WebFinger document points to:
/// the `href` of its first actor link.
pub open spec fn actor_href(doc: WebFinger) -> Option<Seq<char>> {
    match doc.links {
        None => None,
        Some(links) => {
            let i = actor_link_from(links@, 0);
            if i < links@.len() {
                opt_text(links@[i].href)
            } else {
                None
            }
        },
    }
}

impl WebFinger {
    /// The address of the actor document this document points to.
    pub fn actor_link(&self) -> (r: Option<String>)
        ensures
            opt_text(r) == actor_href(*self),
    {
        match &self.links {
            None => None,
            Some(links) => {
                let mut i: usize = 0;
                while i < links.len()
                    invariant
                        i <= links@.len(),
                        self.links == Some(*links),
                        actor_link_from(links@, 0) == actor_link_from(links@, i as int),
                    decreases links@.len() - i,
                {
                    if links[i].leads_to_actor() {
                        let href = match &links[i].href {
                            Some(h) => Some(h.clone()),
                            None => None,
                        };
                        return href;
                    }
                    i = i + 1;
                }
                None
            },
        }
    }
}

} // verus!
