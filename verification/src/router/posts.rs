//! The fan-out notifier: a new post is announced to every follower's inbox,
//! each delivery on its own.

use crate::activitypub::objects::note::{note_of_post, Post};
use crate::activitypub::objects::outbox::{create_of_note, CreateActivity};
use crate::activitypub::requests::{delivers, send_as, signed_request_outcome, OutgoingRequest};
use crate::activitypub::signature::Method;
use crate::date::HttpDate;
use crate::form::{find_field, form_field, parse_form};
use crate::numeral::{parse_i64, parsed_i64};
use crate::queries::{is_bad_gateway, is_bad_request};
use crate::router::inbox::invalid_inbox_text;
use crate::server::error::{bad_gateway, bad_request, body_not_utf8, map_bad_request, ServerError};
use crate::server::server_response::{plain_response, send, ServerResponse, OK};
use crate::server::server_request::CurrentProfile;
use crate::text::texts;
use crate::uri::{parsed_uri, uri_is_valid, Uri};
use vstd::prelude::*;
use vstd::string::*;

verus! {

/// What the form for a new post holds.
#[derive(Debug)]
pub struct PostForm {
    pub profile_id: i64,
    pub content: String,
}

/// What a form body asks to be posted: it must hold the fields
/// `profile_id` and `content`, once each, and the profile id must be a
/// number.
pub open spec fn post_form_of(body: Seq<char>, r: Result<PostForm, ServerError>) -> bool {
    match (form_field(body, "profile_id"@), form_field(body, "content"@)) {
        (Some(id), Some(content)) => match parsed_i64(id) {
            Some(n) => r matches Ok(form) && form.profile_id == n && form.content@ == content,
            None => r matches Err(e) && is_bad_request(e, "Body was not UTF8"@),
        },
        _ => r matches Err(e) && is_bad_request(e, "Invalid form data"@),
    }
}

/// Reads the form for a new post.
pub fn parse_post_form(body: &str) -> (r: Result<PostForm, ServerError>)
    ensures
        post_form_of(body@, r),
{
    let pairs = match parse_form(body) {
        Some(pairs) => pairs,
        None => {
            return Err(map_bad_request("Invalid form data"));
        },
    };
    match (find_field(&pairs, "profile_id"), find_field(&pairs, "content")) {
        (Some(id), Some(content)) => match parse_i64(id.as_str()) {
            Some(profile_id) => Ok(PostForm { profile_id, content }),
            None => Err(body_not_utf8()),
        },
        _ => Err(map_bad_request("Invalid form data")),
    }
}

/// One delivery of a fan-out: the inbox it goes to and the request to
/// send, or the reason why there is none.
#[derive(Debug)]
pub struct Delivery {
    pub inbox: String,
    pub request: Result<OutgoingRequest, ServerError>,
}

/// Whether `delivery` is the delivery of `body` to `inbox`: a signed post
/// with the body and its digest, or, where the inbox is no URI, the error
/// that says so. Nothing but the inbox sets one delivery apart from another.
pub open spec fn is_delivery_to(
    delivery: Delivery,
    inbox: Seq<char>,
    profile: CurrentProfile,
    body: Seq<char>,
    date: Seq<char>,
) -> bool {
    &&& delivery.inbox@ == inbox
    &&& if uri_is_valid(inbox) {
        delivers(
            delivery.request,
            signed_request_outcome(Method::Post, parsed_uri(inbox), profile, Some(body), date),
        )
    } else {
        delivery.request matches Err(e) && is_bad_gateway(e, invalid_inbox_text(inbox))
    }
}

/// Plans the delivery of `body` to one inbox.
pub fn plan_delivery(inbox: &str, profile: &CurrentProfile, body: &str, date: &HttpDate) -> (d:
    Delivery)
    ensures
        is_delivery_to(d, inbox@, *profile, body@, date.text@),
{
    let request = match Uri::parse(inbox) {
        Some(uri) => send_as(&uri, profile, body.to_owned(), date),
        None => {
            let mut message = inbox.to_owned();
            message.append(" is not a valid inbox URI");
            Err(bad_gateway(message.as_str()))
        },
    };
    Delivery { inbox: inbox.to_owned(), request }
}

/// Plans the delivery of one body to every inbox: one delivery for each,
/// in order, each decided by its own inbox alone, so that an inbox that
/// cannot be delivered to takes nothing from the others.
pub fn plan_fan_out(
    inboxes: &Vec<String>,
    profile: &CurrentProfile,
    body: &str,
    date: &HttpDate,
) -> (r: Vec<Delivery>)
    ensures
        r@.len() == inboxes@.len(),
        forall|i: int|
            0 <= i < inboxes@.len() ==> is_delivery_to(
                #[trigger] r@[i],
                inboxes@[i]@,
                *profile,
                body@,
                date.text@,
            ),
{
    let mut deliveries: Vec<Delivery> = Vec::new();
    let mut i: usize = 0;
    while i < inboxes.len()
        invariant
            i <= inboxes@.len(),
            deliveries@.len() == i,
            forall|j: int|
                0 <= j < i ==> is_delivery_to(
                    #[trigger] deliveries@[j],
                    inboxes@[j]@,
                    *profile,
                    body@,
                    date.text@,
                ),
        decreases inboxes@.len() - i,
    {
        deliveries.push(plan_delivery(inboxes[i].as_str(), profile, body, date));
        i = i + 1;
    }
    deliveries
}

/// What came of one delivery.
#[derive(Debug, Clone, Copy, PartialEq, Eq, Structural)]
pub enum DeliveryOutcome {
    /// No request could be built for the inbox.
    NotSent,
    /// The request was sent and no answer came.
    TransportError,
    /// The inbox answered with this status.
    Responded(u16),
}

/// Whether a delivery reached its inbox: it was answered with a status of
/// the 2xx family.
pub open spec fn is_delivered(outcome: DeliveryOutcome) -> bool {
    outcome matches DeliveryOutcome::Responded(code) && 200 <= code <= 299
}

/// How many of the deliveries reached their inbox.
pub open spec fn count_delivered(outcomes: Seq<DeliveryOutcome>) -> nat
    decreases outcomes.len(),
{
    if outcomes.len() == 0 {
        0
    } else {
        count_delivered(outcomes.drop_last()) + if is_delivered(outcomes.last()) {
            1nat
        } else {
            0nat
        }
    }
}

/// The sum of a fan-out.
#[derive(Debug, Clone, Copy, PartialEq, Eq, Structural)]
pub struct FanOutReport {
    pub delivered: usize,
    pub failed: usize,
}

/// Decides `is_delivered`.
pub fn reached_inbox(outcome: &DeliveryOutcome) -> (r: bool)
    ensures
        r == is_delivered(*outcome),
{
    match outcome {
        DeliveryOutcome::Responded(code) => 200 <= *code && *code <= 299,
        _ => false,
    }
}

/// Sums up a fan-out: every delivery counts once, as delivered or as
/// failed.
pub fn tally(outcomes: &Vec<DeliveryOutcome>) -> (report: FanOutReport)
    ensures
        report.delivered == count_delivered(outcomes@),
        report.delivered + report.failed == outcomes@.len(),
{
    let mut delivered: usize = 0;
    let mut failed: usize = 0;
    let mut i: usize = 0;
    while i < outcomes.len()
        invariant
            i <= outcomes@.len(),
            delivered == count_delivered(outcomes@.subrange(0, i as int)),
            delivered + failed == i,
        decreases outcomes@.len() - i,
    {
        assert(outcomes@.subrange(0, i as int + 1).drop_last() =~= outcomes@.subrange(0, i as int));
        if reached_inbox(&outcomes[i]) {
            delivered = delivered + 1;
        } else {
            failed = failed + 1;
        }
        i = i + 1;
    }
    assert(outcomes@.subrange(0, i as int) =~= outcomes@);
    FanOutReport { delivered, failed }
}

/// Where every delivery reaches its inbox, all are counted.
pub proof fn lemma_all_delivered(outcomes: Seq<DeliveryOutcome>)
    requires
        forall|i: int| 0 <= i < outcomes.len() ==> is_delivered(#[trigger] outcomes[i]),
    ensures
        count_delivered(outcomes) == outcomes.len(),
    decreases outcomes.len(),
{
    if outcomes.len() > 0 {
        assert(is_delivered(outcomes[outcomes.len() - 1]));
        lemma_all_delivered(outcomes.drop_last());
    }
}

/// With any number of followers of which one always fails, the delivery
/// reaches all the others.
pub proof fn lemma_one_failure_reaches_the_rest(outcomes: Seq<DeliveryOutcome>, failing: int)
    requires
        0 <= failing < outcomes.len(),
        !is_delivered(outcomes[failing]),
        forall|i: int|
            0 <= i < outcomes.len() && i != failing ==> is_delivered(#[trigger] outcomes[i]),
    ensures
        count_delivered(outcomes) == outcomes.len() - 1,
    decreases outcomes.len(),
{
    let front = outcomes.drop_last();
    if failing == outcomes.len() - 1 {
        lemma_all_delivered(front);
    } else {
        assert(is_delivered(outcomes[outcomes.len() - 1]));
        lemma_one_failure_reaches_the_rest(front, failing);
    }
}

/// How far the handling of a new post has come.
#[derive(Debug)]
pub enum PostState {
    /// Nothing has been read yet.
    Received,
    /// The post is being stored.
    AwaitingRow,
    /// The caller is answered; the announcement is being written out for
    /// these inboxes, the followers' as they stood when the post was stored.
    AwaitingBody(Vec<String>),
    /// The handling has ended.
    Done,
}

/// What happened since the last step.
#[derive(Debug)]
pub enum PostEvent {
    /// The form of a new post was sent in.
    Posted(String),
    /// The post was stored: here is its row, and the inboxes of the
    /// followers that the profile has now.
    Stored(Post, Vec<String>),
    /// The announcement was written out as JSON.
    Serialized(String),
}

/// What is to be done next.
#[derive(Debug)]
pub enum PostAction {
    /// Store this post and come back with its row and the followers'
    /// inboxes.
    Store(PostForm),
    /// Answer the caller with this response now. Then, without holding the
    /// answer back, write the activity out and come back with the text.
    Announce(CreateActivity, ServerResponse),
    /// Send each of these on its own. What comes of one has no bearing on
    /// any other, nor on the answer, which is given already.
    Deliver(Vec<Delivery>),
    /// Answer with this error.
    Fail(ServerError),
}

/// Whether `plan` is the fan-out of `body` to `inboxes`: one delivery for
/// each inbox, in order, each the delivery to its own inbox.
pub open spec fn is_fan_out(
    plan: Seq<Delivery>,
    inboxes: Seq<Seq<char>>,
    profile: CurrentProfile,
    body: Seq<char>,
    date: Seq<char>,
) -> bool {
    &&& plan.len() == inboxes.len()
    &&& forall|i: int|
        0 <= i < inboxes.len() ==> is_delivery_to(
            #[trigger] plan[i],
            inboxes[i],
            profile,
            body,
            date,
        )
}

/// Whether `(next, action)` is the step that the handler takes in `state`
/// on `event`.
///
/// The post is stored first. The caller is answered as soon as the post is
/// stored, with the post's URL, before anything is delivered. The
/// deliveries are planned last, for the inboxes that came with the stored
/// post and for no others.
pub open spec fn post_step(
    state: PostState,
    event: PostEvent,
    profile: CurrentProfile,
    date: Seq<char>,
    next: PostState,
    action: PostAction,
) -> bool {
    match (state, event) {
        (PostState::Received, PostEvent::Posted(body)) => match action {
            PostAction::Store(form) => next is AwaitingRow && post_form_of(body@, Ok(form)),
            PostAction::Fail(e) => next is Done && post_form_of(body@, Err(e)),
            _ => false,
        },
        (PostState::AwaitingRow, PostEvent::Stored(post, inboxes)) => {
            &&& next matches PostState::AwaitingBody(kept)
            &&& texts(kept@) == texts(inboxes@)
            &&& action matches PostAction::Announce(create, response)
            &&& create@ == create_of_note(note_of_post(post@))
            &&& response@ == plain_response(OK, post.url@)
        },
        (PostState::AwaitingBody(inboxes), PostEvent::Serialized(body)) => {
            &&& next is Done
            &&& action matches PostAction::Deliver(plan)
            &&& is_fan_out(plan@, texts(inboxes@), profile, body@, date)
        },
        _ => {
            &&& next is Done
            &&& action matches PostAction::Fail(e)
            &&& is_bad_request(e, "Unexpected event"@)
        },
    }
}

/// Takes one step of handling a new post, as the profile that posts.
///
/// The caller performs the action and hands back what came of it as the
/// next event, until the state is `Done`.
pub fn post(state: PostState, event: PostEvent, profile: &CurrentProfile, date: &HttpDate) -> (r: (
    PostState,
    PostAction,
))
    ensures
        post_step(state, event, *profile, date.text@, r.0, r.1),
{
    match (state, event) {
        (PostState::Received, PostEvent::Posted(body)) => match parse_post_form(body.as_str()) {
            Ok(form) => (PostState::AwaitingRow, PostAction::Store(form)),
            Err(e) => (PostState::Done, PostAction::Fail(e)),
        },
        (PostState::AwaitingRow, PostEvent::Stored(post, inboxes)) => {
            let response = send(post.url.clone());
            let create = post.into_create();
            (PostState::AwaitingBody(inboxes), PostAction::Announce(create, response))
        },
        (PostState::AwaitingBody(inboxes), PostEvent::Serialized(body)) => {
            let plan = plan_fan_out(&inboxes, profile, body.as_str(), date);
            assert forall|i: int| 0 <= i < texts(inboxes@).len() implies is_delivery_to(
                #[trigger] plan@[i],
                texts(inboxes@)[i],
                *profile,
                body@,
                date.text@,
            ) by {
                assert(texts(inboxes@)[i] == inboxes@[i]@);
            }
            (PostState::Done, PostAction::Deliver(plan))
        },
        _ => (PostState::Done, PostAction::Fail(bad_request("Unexpected event"))),
    }
}

/// Whether a delivery can be sent to `inbox`: the inbox is a URI, and the
/// post to it can be signed.
pub open spec fn can_be_sent(
    inbox: Seq<char>,
    profile: CurrentProfile,
    body: Seq<char>,
    date: Seq<char>,
) -> bool {
    uri_is_valid(inbox) && signed_request_outcome(
        Method::Post,
        parsed_uri(inbox),
        profile,
        Some(body),
        date,
    ).is_ok()
}

/// The fan-out sends to every inbox that can be sent to, whatever the
/// other inboxes are and wherever among them it stands: its delivery holds
/// a post of the one body to that inbox. So an inbox that always fails takes
/// no request from any other.
pub proof fn lemma_fan_out_sends_to_every_inbox(
    inboxes: Vec<String>,
    body: String,
    profile: CurrentProfile,
    date: Seq<char>,
    next: PostState,
    action: PostAction,
    i: int,
)
    requires
        post_step(
            PostState::AwaitingBody(inboxes),
            PostEvent::Serialized(body),
            profile,
            date,
            next,
            action,
        ),
        0 <= i < inboxes@.len(),
        can_be_sent(inboxes@[i]@, profile, body@, date),
    ensures
        action matches PostAction::Deliver(plan) && plan@.len() == inboxes@.len()
            && plan@[i].inbox@ == inboxes@[i]@ && (plan@[i].request matches Ok(request)
            && request@.method == Method::Post && request@.url == inboxes@[i]@ && request@.body
            == Some(body@)),
{
    assert(texts(inboxes@)[i] == inboxes@[i]@);
}

/// The caller of a new post is answered before anything is delivered, and
/// the answer does not depend on the followers: whatever inboxes there are,
/// and whatever becomes of the deliveries, the answer is 200 with the URL of
/// the post.
pub proof fn lemma_post_is_answered_before_delivery(
    post: Post,
    inboxes: Vec<String>,
    profile: CurrentProfile,
    date: Seq<char>,
    next: PostState,
    action: PostAction,
)
    requires
        post_step(
            PostState::AwaitingRow,
            PostEvent::Stored(post, inboxes),
            profile,
            date,
            next,
            action,
        ),
    ensures
        action matches PostAction::Announce(_, response) && response@ == plain_response(
            OK,
            post.url@,
        ),
        next is AwaitingBody,
{
}

} // verus!
