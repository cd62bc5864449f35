//! Activities and the outbox collection that lists them.

use crate::activitypub::{profile_url, profile_url_text, PUBLIC_STREAM};
use crate::activitypub::objects::{is_activity_streams, AtContext, Context};
use crate::activitypub::objects::note::{
    followers_url, followers_url_text, note_of_post, Note, NoteView, Post,
};
use crate::text::{opt_text, texts};
use vstd::prelude::*;
use vstd::string::*;

verus! {

/// The one type an outbox has.
#[derive(Debug)]
pub enum OrderedCollectionType {
    OrderedCollection,
}

/// A page of a collection, or the link to one.
#[derive(Debug)]
pub enum PageOrLink {
    Link(String),
    Page(OrderedCollectionPage),
}

/// The link that a `PageOrLink` holds, if it is one.
pub open spec fn link_text(p: PageOrLink) -> Option<Seq<char>> {
    match p {
        PageOrLink::Link(s) => Some(s@),
        PageOrLink::Page(_) => None,
    }
}

/// One page of an ordered collection.
#[derive(Debug)]
pub struct OrderedCollectionPage {
    pub context: AtContext,
    pub next: Option<Box<PageOrLink>>,
    pub prev: Option<Box<PageOrLink>>,
    pub ordered_items: Vec<CreateActivity>,
}

/// The collection of what a profile has published.
#[derive(Debug)]
pub struct Outbox {
    pub context: AtContext,
    pub _type: OrderedCollectionType,
    pub id: String,
    pub total_items: i64,
    pub first: PageOrLink,
    pub last: PageOrLink,
    pub current: Option<PageOrLink>,
    /// Items given inline, each kept as the JSON text it was given as.
    pub items: Option<Vec<String>>,
}

/// The kinds of activity the engine knows.
#[derive(Debug)]
pub enum ActivityType {
    Accept,
    Follow,
    Create,
    Undo,
    /// Any other kind, kept as the JSON text it was given as.
    Unknown(String),
}

/// A request to follow `object`, made by `actor`. Not every sender gives
/// its request an id.
#[derive(Debug)]
pub struct FollowActivity {
    pub context: Option<AtContext>,
    pub id: Option<String>,
    pub activity_type: ActivityType,
    pub actor: String,
    pub object: String,
}

/// The confirmation of the activity in `object`, made by `actor`.
#[derive(Debug)]
pub struct AcceptActivity<A> {
    pub context: AtContext,
    pub activity_type: ActivityType,
    pub id: String,
    pub actor: String,
    pub object: A,
}

/// The retraction of the activity in `object`, made by `actor`.
#[derive(Debug)]
pub struct UndoActivity<A> {
    pub context: Option<AtContext>,
    pub id: Option<String>,
    pub activity_type: ActivityType,
    pub actor: String,
    pub object: A,
}

/// What an activity carries.
#[derive(Debug)]
pub enum Object {
    Note(Note),
    /// Anything else, kept as the JSON text it was given as.
    Unknown(String),
}

/// The note that an object is, if it is one.
pub open spec fn object_note(o: Object) -> Option<NoteView> {
    match o {
        Object::Note(n) => Some(n@),
        Object::Unknown(_) => None,
    }
}

/// The announcement of a new object.
#[derive(Debug)]
pub struct CreateActivity {
    pub context: Option<AtContext>,
    pub activity_type: ActivityType,
    pub id: String,
    pub actor: String,
    pub published: Option<String>,
    pub to: Vec<String>,
    pub cc: Vec<String>,
    pub object: Object,
}

/// What the announcement of a note holds.
pub struct CreateView {
    pub activity_streams: bool,
    pub is_create: bool,
    pub id: Seq<char>,
    pub actor: Seq<char>,
    pub published: Option<Seq<char>>,
    pub to: Seq<Seq<char>>,
    pub cc: Seq<Seq<char>>,
    pub note: Option<NoteView>,
}

impl View for CreateActivity {
    type V = CreateView;

    open spec fn view(&self) -> CreateView {
        CreateView {
            activity_streams: self.context matches Some(c) && is_activity_streams(c),
            is_create: self.activity_type is Create,
            id: self.id@,
            actor: self.actor@,
            published: opt_text(self.published),
            to: texts(self.to@),
            cc: texts(self.cc@),
            note: object_note(self.object),
        }
    }
}

/// The activity that announces a note: it has the note's URL as id and the
/// note's author as actor, is addressed to everybody, copied to the author's
/// followers, and carries the note.
pub open spec fn create_of_note(note: NoteView) -> CreateView {
    CreateView {
        activity_streams: true,
        is_create: true,
        id: note.url,
        actor: note.attributed_to,
        published: note.published,
        to: seq![PUBLIC_STREAM@],
        cc: seq![followers_url_text(note.attributed_to)],
        note: Some(note),
    }
}

impl Note {
    /// The activity that announces this note.
    pub fn into_create(self) -> (create: CreateActivity)
        ensures
            create@ == create_of_note(self@),
    {
        let to = vec![PUBLIC_STREAM.to_owned()];
        let cc = vec![followers_url(self.attributed_to.as_str())];
        let create = CreateActivity {
            context: Some(AtContext::Context(Context::ActivityStreams)),
            activity_type: ActivityType::Create,
            id: self.url.clone(),
            actor: self.attributed_to.clone(),
            published: self.published.clone(),
            to,
            cc,
            object: Object::Note(self),
        };
        proof {
            assert(create@.to =~= seq![PUBLIC_STREAM@]);
            assert(create@.cc =~= seq![followers_url_text(self@.attributed_to)]);
        }
        create
    }
}

/// The URL of a profile's outbox.
pub open spec fn outbox_url_text(domain: Seq<char>, profile_id: int) -> Seq<char> {
    profile_url_text(domain, profile_id) + "/outbox"@
}

/// The URL of the one page of a profile's outbox.
pub open spec fn outbox_page_url_text(domain: Seq<char>, profile_id: int) -> Seq<char> {
    outbox_url_text(domain, profile_id) + "?page=1"@
}

/// Writes the URL of a profile's outbox.
pub fn outbox_url(domain: &str, profile_id: i64) -> (s: String)
    ensures
        s@ == outbox_url_text(domain@, profile_id as int),
{
    let mut s = profile_url(domain, profile_id);
    s.append("/outbox");
    s
}

/// Writes the URL of the one page of a profile's outbox.
pub fn outbox_page_url(domain: &str, profile_id: i64) -> (s: String)
    ensures
        s@ == outbox_page_url_text(domain@, profile_id as int),
{
    let mut s = outbox_url(domain, profile_id);
    s.append("?page=1");
    s
}

/// The outbox of a profile: a collection that counts `total_items` and
/// whose first and last page are both page 1.
pub fn get_outbox(profile_id: i64, domain: &str, total_items: i64) -> (outbox: Outbox)
    ensures
        is_activity_streams(outbox.context),
        outbox.id@ == outbox_url_text(domain@, profile_id as int),
        outbox.total_items == total_items,
        link_text(outbox.first) == Some(outbox_page_url_text(domain@, profile_id as int)),
        link_text(outbox.last) == Some(outbox_page_url_text(domain@, profile_id as int)),
        outbox.current.is_none(),
        outbox.items.is_none(),
{
    Outbox {
        context: AtContext::Context(Context::ActivityStreams),
        _type: OrderedCollectionType::OrderedCollection,
        id: outbox_url(domain, profile_id),
        total_items,
        items: None,
        first: PageOrLink::Link(outbox_page_url(domain, profile_id)),
        last: PageOrLink::Link(outbox_page_url(domain, profile_id)),
        current: None,
    }
}

/// A page of a profile's outbox: one announcement for each of `posts`, in
/// their order.
///
/// Whatever page is asked for, the answer is the one page there is. It is
/// the first page and the last, so it names neither a page before it nor a
/// page after it.
pub fn get_outbox_page(profile_id: i64, domain: &str, posts: &Vec<Post>, page_num: usize) -> (page:
    OrderedCollectionPage)
    ensures
        is_activity_streams(page.context),
        page.next.is_none(),
        page.prev.is_none(),
        page.ordered_items@.len() == posts@.len(),
        forall|i: int|
            0 <= i < posts@.len() ==> (#[trigger] page.ordered_items@[i])@ == create_of_note(
                note_of_post(posts@[i]@),
            ),
{
    let mut items: Vec<CreateActivity> = Vec::new();
    let mut i: usize = 0;
    while i < posts.len()
        invariant
            i <= posts@.len(),
            items@.len() == i,
            forall|j: int|
                0 <= j < i ==> (#[trigger] items@[j])@ == create_of_note(note_of_post(posts@[j]@)),
        decreases posts@.len() - i,
    {
        items.push(posts[i].duplicate().into_create());
        i = i + 1;
    }
    OrderedCollectionPage {
        context: AtContext::Context(Context::ActivityStreams),
        next: None,
        prev: None,
        ordered_items: items,
    }
}

} // verus!
