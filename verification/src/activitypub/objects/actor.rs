//! Actors and the keys they sign with.

use crate::activitypub::{profile_url, profile_url_text};
use crate::activitypub::objects::Context;
use crate::crypto::{public_half, public_pem_of};
use crate::server::error::{crypto_error, ServerError, INTERNAL_SERVER_ERROR};
use crate::text::{opt_text, trim_text, trimmed};
use vstd::prelude::*;
use vstd::string::*;

verus! {

/// The one type a local actor has.
#[derive(Debug)]
pub enum ActorType {
    Person,
}

/// The picture of an actor.
#[derive(Debug)]
pub struct Icon {
    pub icon_type: String,
    pub media_type: String,
    pub url: String,
}

/// The public key that others check an actor's signatures with.
#[derive(Debug)]
pub struct PublicKey {
    pub id: String,
    pub owner: String,
    pub public_key_pem: String,
}

/// What a public key holds.
pub struct PublicKeyView {
    pub id: Seq<char>,
    pub owner: Seq<char>,
    pub public_key_pem: Seq<char>,
}

impl View for PublicKey {
    type V = PublicKeyView;

    open spec fn view(&self) -> PublicKeyView {
        PublicKeyView { id: self.id@, owner: self.owner@, public_key_pem: self.public_key_pem@ }
    }
}

/// The key of actor `id` with the given PEM text: the key's id is the
/// actor's with `#main-key` behind it, and the PEM is trimmed.
pub open spec fn public_key_of(id: Seq<char>, public_pem: Seq<char>) -> PublicKeyView {
    PublicKeyView { id: id + "#main-key"@, owner: id, public_key_pem: trimmed(public_pem) }
}

impl PublicKey {
    /// The key of actor `id`, given the PEM text of the public key.
    pub fn from_public_pem(id: &str, public_pem: &str) -> (key: PublicKey)
        ensures
            key@ == public_key_of(id@, public_pem@),
    {
        let mut key_id = id.to_owned();
        key_id.append("#main-key");
        PublicKey { id: key_id, owner: id.to_owned(), public_key_pem: trim_text(public_pem) }
    }

    /// The public key of actor `id`, derived from the actor's private key.
    ///
    /// The private key must be one that can be read; `try_new` is for keys
    /// of which that is not known.
    pub fn new(id: &str, private_key_pem: &str) -> (key: PublicKey)
        requires
            public_half(private_key_pem@).is_some(),
        ensures
            key@ == public_key_of(id@, public_half(private_key_pem@).unwrap()),
    {
        match public_pem_of(private_key_pem) {
            Some(pem) => PublicKey::from_public_pem(id, pem.as_str()),
            None => vstd::pervasive::unreached(),
        }
    }

    /// The public key of actor `id`, derived from the actor's private key,
    /// or `None` where the private key cannot be read.
    pub fn try_new(id: &str, private_key_pem: &str) -> (r: Option<PublicKey>)
        ensures
            match r {
                Some(key) => public_half(private_key_pem@).is_some() && key@ == public_key_of(
                    id@,
                    public_half(private_key_pem@).unwrap(),
                ),
                None => public_half(private_key_pem@).is_none(),
            },
    {
        match public_pem_of(private_key_pem) {
            Some(_) => Some(PublicKey::new(id, private_key_pem)),
            None => None,
        }
    }
}

/// An actor document.
#[derive(Debug)]
pub struct Actor {
    pub context: Vec<Context>,
    pub id: String,
    pub url: String,
    pub summary: Option<String>,
    pub name: String,
    pub actor_type: ActorType,
    pub preferred_username: String,
    pub inbox: String,
    pub outbox: String,
    pub public_key: PublicKey,
    pub icon: Option<Icon>,
}

/// What an actor document holds, apart from its context and its icon.
pub struct ActorView {
    pub id: Seq<char>,
    pub url: Seq<char>,
    pub summary: Option<Seq<char>>,
    pub name: Seq<char>,
    pub preferred_username: Seq<char>,
    pub inbox: Seq<char>,
    pub outbox: Seq<char>,
    pub public_key: PublicKeyView,
}

impl View for Actor {
    type V = ActorView;

    open spec fn view(&self) -> ActorView {
        ActorView {
            id: self.id@,
            url: self.url@,
            summary: opt_text(self.summary),
            name: self.name@,
            preferred_username: self.preferred_username@,
            inbox: self.inbox@,
            outbox: self.outbox@,
            public_key: self.public_key@,
        }
    }
}

/// The media type of a WebFinger link.
#[derive(Debug)]
pub enum LinkType {
    /// `application/activity+json`
    ActivityJson,
    /// Any other type, kept as the JSON text it was given as.
    Unknown(String),
}

/// A local profile as the store holds it.
#[derive(Debug)]
pub struct LocalProfile {
    pub profile_id: i64,
    pub preferred_username: String,
    pub display_name: String,
    pub private_key_pem: String,
}

/// The summary every local actor shows.
pub const ACTOR_SUMMARY: &'static str = "We can't rewind, we've gone too far";

/// The document of a local profile on `domain`: id and URL are the
/// canonical profile URL, inbox and outbox lie below it, and the key is the
/// public half of the profile's key.
pub open spec fn actor_of_profile(
    domain: Seq<char>,
    profile: LocalProfile,
    public_pem: Seq<char>,
) -> ActorView {
    let id = profile_url_text(domain, profile.profile_id as int);
    ActorView {
        id,
        url: id,
        summary: Some(ACTOR_SUMMARY@),
        name: profile.display_name@,
        preferred_username: profile.preferred_username@,
        inbox: id + "/inbox"@,
        outbox: id + "/outbox"@,
        public_key: public_key_of(id, public_pem),
    }
}

/// Builds the actor document of a local profile.
///
/// Fails, with a crypto error, exactly when the profile's private key
/// cannot be read.
pub fn actor_document(domain: &str, profile: &LocalProfile) -> (r: Result<Actor, ServerError>)
    ensures
        match r {
            Ok(actor) => {
                &&& public_half(profile.private_key_pem@).is_some()
                &&& actor@ == actor_of_profile(
                    domain@,
                    *profile,
                    public_half(profile.private_key_pem@).unwrap(),
                )
                &&& actor.context@.len() == 2
                &&& actor.context@[0] is ActivityStreams
                &&& actor.context@[1] is SecurityV1
                &&& actor.icon.is_none()
            },
            Err(e) => {
                &&& public_half(profile.private_key_pem@).is_none()
                &&& e.status_code == INTERNAL_SERVER_ERROR
                &&& e.prefix@ == "[OpenSSL ERROR]"@
            },
        },
{
    let id = profile_url(domain, profile.profile_id);
    match PublicKey::try_new(id.as_str(), profile.private_key_pem.as_str()) {
        Some(public_key) => {
            let mut inbox = id.clone();
            inbox.append("/inbox");
            let mut outbox = id.clone();
            outbox.append("/outbox");
            let context = vec![Context::ActivityStreams, Context::SecurityV1];
            Ok(
                Actor {
                    context,
                    id: id.clone(),
                    url: id,
                    summary: Some(ACTOR_SUMMARY.to_owned()),
                    name: profile.display_name.clone(),
                    actor_type: ActorType::Person,
                    preferred_username: profile.preferred_username.clone(),
                    inbox,
                    outbox,
                    public_key,
                    icon: None,
                },
            )
        },
        None => Err(crypto_error("Unreadable private key")),
    }
}

} // verus!
