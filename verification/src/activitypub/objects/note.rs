//! Local posts and the notes that stand for them on the network.

use crate::activitypub::{post_url, post_url_text, profile_url, profile_url_text, PUBLIC_STREAM};
use crate::activitypub::objects::outbox::{create_of_note, CreateActivity};
use crate::text::{opt_text, texts};
use vstd::prelude::*;
use vstd::string::*;

verus! {

/// A local post with the URLs it is known under.
#[derive(Debug)]
pub struct Post {
    pub post_id: i64,
    pub content: String,
    pub created_at: String,
    pub url: String,
    pub actor_id: String,
}

/// What a post holds.
pub struct PostView {
    pub post_id: int,
    pub content: Seq<char>,
    pub created_at: Seq<char>,
    pub url: Seq<char>,
    pub actor_id: Seq<char>,
}

impl View for Post {
    type V = PostView;

    open spec fn view(&self) -> PostView {
        PostView {
            post_id: self.post_id as int,
            content: self.content@,
            created_at: self.created_at@,
            url: self.url@,
            actor_id: self.actor_id@,
        }
    }
}

/// The one type a note has.
#[derive(Debug)]
pub enum NoteType {
    Note,
}

/// A note: a post as other servers see it.
#[derive(Debug)]
pub struct Note {
    pub id: String,
    pub _type: NoteType,
    pub url: String,
    pub summary: Option<String>,
    pub published: Option<String>,
    pub attributed_to: String,
    pub to: Vec<String>,
    pub cc: Vec<String>,
    pub sensitive: bool,
    pub content: String,
    pub tag: Vec<String>,
}

/// What a note holds.
pub struct NoteView {
    pub id: Seq<char>,
    pub url: Seq<char>,
    pub summary: Option<Seq<char>>,
    pub published: Option<Seq<char>>,
    pub attributed_to: Seq<char>,
    pub to: Seq<Seq<char>>,
    pub cc: Seq<Seq<char>>,
    pub sensitive: bool,
    pub content: Seq<char>,
    pub tag: Seq<Seq<char>>,
}

impl View for Note {
    type V = NoteView;

    open spec fn view(&self) -> NoteView {
        NoteView {
            id: self.id@,
            url: self.url@,
            summary: opt_text(self.summary),
            published: opt_text(self.published),
            attributed_to: self.attributed_to@,
            to: texts(self.to@),
            cc: texts(self.cc@),
            sensitive: self.sensitive,
            content: self.content@,
            tag: texts(self.tag@),
        }
    }
}

/// The followers collection of an actor.
pub open spec fn followers_url_text(actor_id: Seq<char>) -> Seq<char> {
    actor_id + "/followers"@
}

/// The note that stands for a post: id and URL are the post's URL, it is
/// attributed to the post's author, addressed to everybody and copied to the
/// author's followers.
pub open spec fn note_of_post(post: PostView) -> NoteView {
    NoteView {
        id: post.url,
        url: post.url,
        summary: None,
        published: Some(post.created_at),
        attributed_to: post.actor_id,
        to: seq![PUBLIC_STREAM@],
        cc: seq![followers_url_text(post.actor_id)],
        sensitive: false,
        content: post.content,
        tag: Seq::empty(),
    }
}

/// The post of a row of the store, under its canonical URLs.
pub open spec fn post_of_row(
    post_id: int,
    profile_id: int,
    content: Seq<char>,
    created_at: Seq<char>,
    domain: Seq<char>,
) -> PostView {
    PostView {
        post_id,
        content,
        created_at,
        url: post_url_text(domain, post_id),
        actor_id: profile_url_text(domain, profile_id),
    }
}

/// A post that comes from a row of the store is known under one URL: its
/// note has that URL as id and as URL, and both the note and the activity
/// that announces it name the owning profile's actor URL as their author.
pub proof fn lemma_note_is_known_under_its_canonical_url(
    post_id: int,
    profile_id: int,
    content: Seq<char>,
    created_at: Seq<char>,
    domain: Seq<char>,
)
    ensures
        ({
            let note = note_of_post(post_of_row(post_id, profile_id, content, created_at, domain));
            let create = create_of_note(note);
            &&& note.id == post_url_text(domain, post_id)
            &&& note.url == note.id
            &&& note.attributed_to == profile_url_text(domain, profile_id)
            &&& create.id == note.id
            &&& create.actor == note.attributed_to
            &&& create.note == Some(note)
            &&& create.to == note.to
            &&& create.cc == note.cc
        }),
{
}

/// Writes the followers collection of an actor.
pub fn followers_url(actor_id: &str) -> (s: String)
    ensures
        s@ == followers_url_text(actor_id@),
{
    let mut s = actor_id.to_owned();
    s.append("/followers");
    s
}

impl Post {
    /// The post of a row of the store: its URL and its author's id are the
    /// canonical ones on `domain`.
    pub fn from_row(
        post_id: i64,
        profile_id: i64,
        content: String,
        created_at: String,
        domain: &str,
    ) -> (post: Post)
        ensures
            post@ == post_of_row(
                post_id as int,
                profile_id as int,
                content@,
                created_at@,
                domain@,
            ),
    {
        Post {
            post_id,
            content,
            created_at,
            url: post_url(domain, post_id),
            actor_id: profile_url(domain, profile_id),
        }
    }

    /// The note that stands for this post.
    pub fn into_note(self) -> (note: Note)
        ensures
            note@ == note_of_post(self@),
    {
        let cc = vec![followers_url(self.actor_id.as_str())];
        let to = vec![PUBLIC_STREAM.to_owned()];
        let note = Note {
            id: self.url.clone(),
            _type: NoteType::Note,
            url: self.url,
            summary: None,
            published: Some(self.created_at),
            attributed_to: self.actor_id,
            to,
            cc,
            sensitive: false,
            content: self.content,
            tag: Vec::new(),
        };
        proof {
            assert(note@.to =~= seq![PUBLIC_STREAM@]);
            assert(note@.cc =~= seq![followers_url_text(self@.actor_id)]);
            assert(note@.tag =~= Seq::empty());
        }
        note
    }

    /// The activity that announces this post.
    pub fn into_create(self) -> (create: CreateActivity)
        ensures
            create@ == create_of_note(note_of_post(self@)),
    {
        self.into_note().into_create()
    }

    /// A copy of this post.
    pub fn duplicate(&self) -> (post: Post)
        ensures
            post@ == self@,
    {
        Post {
            post_id: self.post_id,
            content: self.content.clone(),
            created_at: self.created_at.clone(),
            url: self.url.clone(),
            actor_id: self.actor_id.clone(),
        }
    }
}

} // verus!
