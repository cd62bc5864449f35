//! The follow protocol handler: what an inbox does with a `Follow` and with
//! the `Undo` of one.
//!
//! The handler never does I/O. Each step says what is to be done next, and
//! the caller comes back with what came of it.
//!
//! The handler takes the sender of an activity at its word. A caller that
//! holds senders to their keys checks the signature of the request, with
//! the signature codec, before the first step.

use crate::activitypub::{profile_url, profile_url_text};
use crate::activitypub::objects::{is_activity_streams, AtContext, Context};
use crate::activitypub::objects::actor::Actor;
use crate::activitypub::objects::outbox::{
    AcceptActivity, ActivityType, FollowActivity, UndoActivity,
};
use crate::activitypub::requests::{
    delivers, get_from_ap, send_as, signed_request_outcome, OutgoingRequest,
};
use crate::activitypub::signature::Method;
use crate::date::HttpDate;
use crate::numeral::{int_text, push_i64};
use crate::queries::{get_profile_id_from_url, is_bad_gateway, is_bad_request, profile_id_in_path};
use crate::server::error::{bad_gateway, bad_request, ServerError};
use crate::server::server_response::{
    failure_response, plain_response, send_status, serve, ResponseView, ServerResponse, OK,
};
use crate::server::server_request::CurrentProfile;
use crate::store::{
    count_edge, edges_unique, follower_inboxes, known_of_actor, lemma_actor_recorded_twice,
    lemma_find_recorded_actor, lemma_follow_state_machine, lemma_follow_twice_leaves_one_edge,
    lemma_known_follower_is_reached, with_actor, with_edge, without_edge, Directory, Edge,
    FollowerEdge, KnownActor, KnownActorView,
};
use crate::uri::{parsed_uri, uri_is_valid, uri_path, Uri};
use vstd::prelude::*;
use vstd::string::*;

verus! {

/// What an inbox accepts.
#[derive(Debug)]
pub enum InboxPost {
    Follow(FollowActivity),
    Undo(UndoActivity<FollowActivity>),
}

/// The id that every confirmation carries.
pub const ACCEPT_ID: &'static str = "1223234932098";

/// A follow whose sender and target are read, waiting for the target's
/// signing capability.
#[derive(Debug)]
pub struct PendingFollow {
    pub activity: FollowActivity,
    pub actor_uri: Uri,
    pub profile_id: i64,
}

/// A follow whose sender is being fetched.
#[derive(Debug)]
pub struct PendingFetch {
    pub activity: FollowActivity,
    pub actor_uri: Uri,
    pub profile: CurrentProfile,
}

/// A follow that is confirmed: what to store, and the confirmation to send
/// once it is stored.
#[derive(Debug)]
pub struct Confirmation {
    pub known_actor: KnownActor,
    pub follower: FollowerEdge,
    pub accept: AcceptActivity<FollowActivity>,
    pub inbox_uri: Uri,
    pub profile: CurrentProfile,
}

/// The first step on a follow: it must come from an actor whose id is a
/// URI, and its object must be the URL of a profile.
pub open spec fn follow_begins(
    activity: FollowActivity,
    r: Result<PendingFollow, ServerError>,
) -> bool {
    if !uri_is_valid(activity.actor@) {
        r matches Err(e) && is_bad_request(e, "Invalid actor URI provided"@)
    } else if !uri_is_valid(activity.object@) {
        r matches Err(e) && is_bad_request(e, "Invalid URI provided"@)
    } else {
        match profile_id_in_path(uri_path(activity.object@)) {
            None => r matches Err(e) && is_bad_request(e, "URI names no local profile"@),
            Some(id) => {
                &&& r matches Ok(pending)
                &&& pending.activity == activity
                &&& pending.actor_uri@ == parsed_uri(activity.actor@)
                &&& pending.profile_id == id
            },
        }
    }
}

/// Reads sender and target of a follow.
pub fn begin_follow(activity: FollowActivity) -> (r: Result<PendingFollow, ServerError>)
    ensures
        follow_begins(activity, r),
{
    let actor_uri = match Uri::parse(activity.actor.as_str()) {
        Some(uri) => uri,
        None => {
            return Err(bad_request("Invalid actor URI provided"));
        },
    };
    match get_profile_id_from_url(activity.object.as_str()) {
        Ok(profile_id) => Ok(PendingFollow { activity, actor_uri, profile_id }),
        Err(e) => Err(e),
    }
}

/// The message for a profile that has no signing capability.
pub open spec fn feed_not_found_text(profile_id: int) -> Seq<char> {
    "Feed "@ + int_text(profile_id) + " not found"@
}

/// The second step on a follow: with the target's signing capability, the
/// signed request for the sender's actor document; without it, a bad
/// request.
pub open spec fn actor_is_requested(
    pending: PendingFollow,
    profile: Option<CurrentProfile>,
    date: Seq<char>,
    r: Result<(PendingFetch, OutgoingRequest), ServerError>,
) -> bool {
    match profile {
        None => r matches Err(e) && is_bad_request(
            e,
            feed_not_found_text(pending.profile_id as int),
        ),
        Some(p) => {
            let outcome = signed_request_outcome(Method::Get, pending.actor_uri@, p, None, date);
            match r {
                Ok((fetch, request)) => {
                    &&& delivers(Ok(request), outcome)
                    &&& fetch.activity == pending.activity
                    &&& fetch.actor_uri == pending.actor_uri
                    &&& fetch.profile == p
                },
                Err(e) => delivers(Err(e), outcome),
            }
        },
    }
}

/// Builds the request for the sender's actor document, signed as the
/// profile that is to be followed.
pub fn request_actor(
    pending: PendingFollow,
    profile: Option<CurrentProfile>,
    date: &HttpDate,
) -> (r: Result<(PendingFetch, OutgoingRequest), ServerError>)
    ensures
        actor_is_requested(pending, profile, date.text@, r),
{
    match profile {
        None => {
            let mut message = "Feed ".to_owned();
            push_i64(&mut message, pending.profile_id);
            message.append(" not found");
            Err(bad_request(message.as_str()))
        },
        Some(p) => match get_from_ap(&pending.actor_uri, &p, date) {
            Ok(request) => Ok(
                (
                    PendingFetch {
                        activity: pending.activity,
                        actor_uri: pending.actor_uri,
                        profile: p,
                    },
                    request,
                ),
            ),
            Err(e) => Err(e),
        },
    }
}

/// The message for a sender whose actor document could not be had.
pub open spec fn actor_unavailable_text(actor_uri: Seq<char>) -> Seq<char> {
    "Unable to retrieve parse valid actor from URI "@ + actor_uri
}

/// The message for an actor whose inbox is no URI.
pub open spec fn invalid_inbox_text(inbox: Seq<char>) -> Seq<char> {
    inbox + " is not a valid inbox URI"@
}

/// Whether `accept` confirms `activity` in the name of the profile.
pub open spec fn is_accept_of(
    accept: AcceptActivity<FollowActivity>,
    activity: FollowActivity,
    profile: CurrentProfile,
) -> bool {
    &&& is_activity_streams(accept.context)
    &&& accept.activity_type is Accept
    &&& accept.id@ == ACCEPT_ID@
    &&& accept.actor@ == profile_url_text(profile.domain@, profile.profile_id as int)
    &&& accept.object == activity
}

/// The third step on a follow: once the sender's actor document is there
/// and names an inbox that is a URI, the follow is confirmed. The actor is
/// to be remembered, the edge from the sender to the profile recorded, and
/// the follow itself sent back to the sender's inbox, wrapped in an
/// accept.
pub open spec fn follow_is_confirmed(
    pending: PendingFetch,
    fetched: Result<Actor, ServerError>,
    r: Result<Confirmation, ServerError>,
) -> bool {
    match fetched {
        Err(_) => r matches Err(e) && is_bad_gateway(
            e,
            actor_unavailable_text(pending.actor_uri.text@),
        ),
        Ok(actor) => if !uri_is_valid(actor.inbox@) {
            r matches Err(e) && is_bad_gateway(e, invalid_inbox_text(actor.inbox@))
        } else {
            &&& r matches Ok(c)
            &&& c.known_actor@ == known_of_actor(actor@)
            &&& c.follower@ == (pending.profile.profile_id as int, pending.activity.actor@)
            &&& is_accept_of(c.accept, pending.activity, pending.profile)
            &&& c.inbox_uri@ == parsed_uri(actor.inbox@)
            &&& c.profile == pending.profile
        },
    }
}

/// Confirms a follow whose sender was fetched.
pub fn confirm_follow(pending: PendingFetch, fetched: Result<Actor, ServerError>) -> (r: Result<
    Confirmation,
    ServerError,
>)
    ensures
        follow_is_confirmed(pending, fetched, r),
{
    let actor = match fetched {
        Ok(actor) => actor,
        Err(_) => {
            let mut message = "Unable to retrieve parse valid actor from URI ".to_owned();
            message.append(pending.actor_uri.text.as_str());
            return Err(bad_gateway(message.as_str()));
        },
    };
    let inbox_uri = match Uri::parse(actor.inbox.as_str()) {
        Some(uri) => uri,
        None => {
            let mut message = actor.inbox.clone();
            message.append(" is not a valid inbox URI");
            return Err(bad_gateway(message.as_str()));
        },
    };
    let known_actor = KnownActor::from_actor(&actor);
    let follower = FollowerEdge {
        profile_id: pending.profile.profile_id,
        actor_id: pending.activity.actor.clone(),
    };
    let accept = AcceptActivity {
        context: AtContext::Context(Context::ActivityStreams),
        activity_type: ActivityType::Accept,
        id: ACCEPT_ID.to_owned(),
        actor: profile_url(pending.profile.domain.as_str(), pending.profile.profile_id),
        object: pending.activity,
    };
    Ok(Confirmation { known_actor, follower, accept, inbox_uri, profile: pending.profile })
}

/// What the undo of a follow deletes: the edge from the one who undoes to
/// the profile that the follow names.
pub open spec fn undo_deletes(
    activity: UndoActivity<FollowActivity>,
    r: Result<FollowerEdge, ServerError>,
) -> bool {
    if !uri_is_valid(activity.object.object@) {
        r matches Err(e) && is_bad_request(e, "Invalid URI provided"@)
    } else {
        match profile_id_in_path(uri_path(activity.object.object@)) {
            None => r matches Err(e) && is_bad_request(e, "URI names no local profile"@),
            Some(id) => r matches Ok(edge) && edge@ == (id as int, activity.actor@),
        }
    }
}

/// Reads which edge the undo of a follow deletes.
pub fn undo_follow(activity: &UndoActivity<FollowActivity>) -> (r: Result<
    FollowerEdge,
    ServerError,
>)
    ensures
        undo_deletes(*activity, r),
{
    match get_profile_id_from_url(activity.object.object.as_str()) {
        Ok(profile_id) => Ok(FollowerEdge { profile_id, actor_id: activity.actor.clone() }),
        Err(e) => Err(e),
    }
}

/// Builds the signed request that delivers a confirmation, given the
/// confirmation's `accept` written out as JSON.
pub fn accept_request(confirmation: &Confirmation, accept_body: String, date: &HttpDate) -> (r:
    Result<OutgoingRequest, ServerError>)
    ensures
        delivers(
            r,
            signed_request_outcome(
                Method::Post,
                confirmation.inbox_uri@,
                confirmation.profile,
                Some(accept_body@),
                date.text@,
            ),
        ),
{
    send_as(&confirmation.inbox_uri, &confirmation.profile, accept_body, date)
}

impl Directory {
    /// Stores what a confirmed follow brings: the actor is remembered and
    /// the edge recorded. A follow that was stored before changes no edge.
    pub fn record_follow(&mut self, confirmation: &Confirmation)
        ensures
            final(self).actor_rows() == with_actor(
                old(self).actor_rows(),
                confirmation.known_actor@,
            ),
            final(self).follower_rows() == with_edge(
                old(self).follower_rows(),
                confirmation.follower@,
            ),
            old(self).wf() ==> final(self).wf(),
    {
        self.upsert_known_actor(confirmation.known_actor.duplicate());
        self.upsert_follower(
            confirmation.follower.profile_id,
            confirmation.follower.actor_id.as_str(),
        );
    }

    /// Stores what the undo of a follow brings: the edge is gone. An undo
    /// of what was never stored changes nothing.
    pub fn record_undo(&mut self, edge: &FollowerEdge)
        ensures
            final(self).follower_rows() == without_edge(old(self).follower_rows(), edge@),
            final(self).actor_rows() == old(self).actor_rows(),
            old(self).wf() ==> final(self).wf(),
    {
        self.remove_follower(edge.profile_id, edge.actor_id.as_str());
    }
}

/// Processing the same follow twice is processing it once: the second time
/// changes neither the follower rows nor the known actors, and the pair has
/// exactly one edge.
pub proof fn lemma_same_follow_twice(
    followers: Seq<Edge>,
    known: Seq<KnownActorView>,
    edge: Edge,
    actor: KnownActorView,
)
    requires
        edges_unique(followers),
    ensures
        with_edge(with_edge(followers, edge), edge) == with_edge(followers, edge),
        with_actor(with_actor(known, actor), actor) == with_actor(known, actor),
        count_edge(with_edge(with_edge(followers, edge), edge), edge) == 1,
{
    lemma_follow_twice_leaves_one_edge(followers, edge);
    lemma_actor_recorded_twice(known, actor);
}

/// A follower whose document names itself as the follow names it is
/// delivered to from then on: once the follow is stored, the inbox of the
/// sender is among the inboxes that a post of the profile goes to. The
/// actor is remembered under the id that its document gives; a document
/// that gives another id than the follow names is remembered all the same,
/// but the edge does not lead to it.
pub proof fn lemma_confirmed_follower_is_reached(
    followers: Seq<Edge>,
    known: Seq<KnownActorView>,
    edge: Edge,
    actor: KnownActorView,
)
    requires
        actor.actor_id == edge.1,
    ensures
        follower_inboxes(with_edge(followers, edge), with_actor(known, actor), edge.0).contains(
            actor.inbox,
        ),
{
    lemma_follow_state_machine(followers, edge, (edge.0 + 1, edge.1));
    lemma_find_recorded_actor(known, actor);
    lemma_known_follower_is_reached(
        with_edge(followers, edge),
        with_actor(known, actor),
        edge,
        actor,
    );
}

/// How far the handling of a posted activity has come.
#[derive(Debug)]
pub enum InboxState {
    /// Nothing has been read yet.
    Received,
    /// The signing capability of the followed profile is being loaded.
    AwaitingProfile(PendingFollow),
    /// The sender's actor document is being fetched.
    AwaitingActor(PendingFetch),
    /// The handling has ended.
    Done,
}

/// What happened since the last step.
#[derive(Debug)]
pub enum InboxEvent {
    /// An activity was posted.
    Posted(InboxPost),
    /// The store was asked for the profile's signing capability.
    Profile(Option<CurrentProfile>),
    /// The sender's actor document was asked for.
    Actor(Result<Actor, ServerError>),
}

/// What is to be done next.
#[derive(Debug)]
pub enum InboxAction {
    /// Load the signing capability of this profile and come back with it.
    LoadProfile(i64),
    /// Send this request for the sender's actor document and come back with
    /// the answer.
    FetchActor(OutgoingRequest),
    /// Store the follow, answer 200, then deliver the confirmation without
    /// holding the answer back for it.
    Confirm(Confirmation),
    /// Delete this edge and answer 200.
    RemoveFollower(FollowerEdge),
    /// Answer with this error.
    Fail(ServerError),
}

/// Whether `(next, action)` is the step that the handler takes in `state`
/// on `event`.
pub open spec fn inbox_step(
    state: InboxState,
    event: InboxEvent,
    date: Seq<char>,
    next: InboxState,
    action: InboxAction,
) -> bool {
    match (state, event) {
        (InboxState::Received, InboxEvent::Posted(InboxPost::Follow(activity))) => match action {
            InboxAction::LoadProfile(id) => {
                &&& next matches InboxState::AwaitingProfile(pending)
                &&& pending.profile_id == id
                &&& follow_begins(activity, Ok(pending))
            },
            InboxAction::Fail(e) => next is Done && follow_begins(activity, Err(e)),
            _ => false,
        },
        (InboxState::Received, InboxEvent::Posted(InboxPost::Undo(activity))) => match action {
            InboxAction::RemoveFollower(edge) => next is Done && undo_deletes(activity, Ok(edge)),
            InboxAction::Fail(e) => next is Done && undo_deletes(activity, Err(e)),
            _ => false,
        },
        (InboxState::AwaitingProfile(pending), InboxEvent::Profile(profile)) => match action {
            InboxAction::FetchActor(request) => {
                &&& next matches InboxState::AwaitingActor(fetch)
                &&& actor_is_requested(pending, profile, date, Ok((fetch, request)))
            },
            InboxAction::Fail(e) => next is Done && actor_is_requested(
                pending,
                profile,
                date,
                Err(e),
            ),
            _ => false,
        },
        (InboxState::AwaitingActor(pending), InboxEvent::Actor(fetched)) => match action {
            InboxAction::Confirm(c) => next is Done && follow_is_confirmed(pending, fetched, Ok(c)),
            InboxAction::Fail(e) => next is Done && follow_is_confirmed(pending, fetched, Err(e)),
            _ => false,
        },
        _ => {
            &&& next is Done
            &&& action matches InboxAction::Fail(e)
            &&& is_bad_request(e, "Unexpected event"@)
        },
    }
}

/// The steps of a follow come in one order: nothing is stored before the
/// sender's actor document is there, and whatever fails before that leaves
/// the store as it was.
pub proof fn lemma_follow_order(
    state: InboxState,
    event: InboxEvent,
    date: Seq<char>,
    next: InboxState,
    action: InboxAction,
)
    requires
        inbox_step(state, event, date, next, action),
    ensures
        action is Confirm ==> state is AwaitingActor && event matches InboxEvent::Actor(Ok(_)),
        action is FetchActor ==> state is AwaitingProfile && event matches InboxEvent::Profile(
            Some(_),
        ),
        action is LoadProfile ==> state is Received,
        action is RemoveFollower ==> state is Received,
        state is Done ==> action is Fail,
        (action is Confirm || action is RemoveFollower || action is Fail) ==> next is Done,
{
}

/// Takes one step of handling an activity posted to an inbox.
///
/// The caller performs the action and hands back what came of it as the
/// next event, until the state is `Done`.
pub fn post(state: InboxState, event: InboxEvent, date: &HttpDate) -> (r: (InboxState, InboxAction))
    ensures
        inbox_step(state, event, date.text@, r.0, r.1),
{
    match (state, event) {
        (InboxState::Received, InboxEvent::Posted(InboxPost::Follow(activity))) => {
            match begin_follow(activity) {
                Ok(pending) => {
                    let id = pending.profile_id;
                    (InboxState::AwaitingProfile(pending), InboxAction::LoadProfile(id))
                },
                Err(e) => (InboxState::Done, InboxAction::Fail(e)),
            }
        },
        (InboxState::Received, InboxEvent::Posted(InboxPost::Undo(activity))) => {
            match undo_follow(&activity) {
                Ok(edge) => (InboxState::Done, InboxAction::RemoveFollower(edge)),
                Err(e) => (InboxState::Done, InboxAction::Fail(e)),
            }
        },
        (InboxState::AwaitingProfile(pending), InboxEvent::Profile(profile)) => {
            match request_actor(pending, profile, date) {
                Ok((fetch, request)) => (
                    InboxState::AwaitingActor(fetch),
                    InboxAction::FetchActor(request),
                ),
                Err(e) => (InboxState::Done, InboxAction::Fail(e)),
            }
        },
        (InboxState::AwaitingActor(pending), InboxEvent::Actor(fetched)) => {
            match confirm_follow(pending, fetched) {
                Ok(c) => (InboxState::Done, InboxAction::Confirm(c)),
                Err(e) => (InboxState::Done, InboxAction::Fail(e)),
            }
        },
        _ => (InboxState::Done, InboxAction::Fail(bad_request("Unexpected event"))),
    }
}

/// The answer that an action ends the handling with. A follow that is
/// confirmed and an undo are answered 200 with an empty body, a failure
/// with its status; an action that asks the caller to come back ends
/// nothing and has no answer.
pub open spec fn answer_of(action: InboxAction) -> Option<ResponseView> {
    match action {
        InboxAction::Confirm(_) => Some(plain_response(OK, Seq::empty())),
        InboxAction::RemoveFollower(_) => Some(plain_response(OK, Seq::empty())),
        InboxAction::Fail(e) => Some(failure_response(e)),
        InboxAction::LoadProfile(_) => None,
        InboxAction::FetchActor(_) => None,
    }
}

/// Writes the answer that an action ends the handling with.
pub fn answer(action: &InboxAction) -> (r: Option<ServerResponse>)
    ensures
        match answer_of(*action) {
            Some(view) => r matches Some(response) && response@ == view,
            None => r.is_none(),
        },
{
    match action {
        InboxAction::Confirm(_) => Some(send_status(OK)),
        InboxAction::RemoveFollower(_) => Some(send_status(OK)),
        InboxAction::Fail(e) => Some(serve(e.duplicate())),
        InboxAction::LoadProfile(_) => None,
        InboxAction::FetchActor(_) => None,
    }
}

/// A follow that can be served is served: where the activity names its
/// sender and a local profile by URIs, the profile has a key that can sign,
/// and the sender's actor document comes back with an inbox that is a URI,
/// the three steps end in a confirmation. The edge from the sender to the
/// profile is then there whatever the rows held before, the confirmation
/// wraps the follow as it came, whether it had an id or not, and the answer
/// is 200.
pub proof fn lemma_follow_is_confirmed_and_answered(
    activity: FollowActivity,
    profile: CurrentProfile,
    actor: Actor,
    date: Seq<char>,
    rows: Seq<Edge>,
    first: (InboxState, InboxAction),
    second: (InboxState, InboxAction),
    third: (InboxState, InboxAction),
)
    requires
        uri_is_valid(activity.actor@),
        uri_is_valid(activity.object@),
        profile_id_in_path(uri_path(activity.object@)) == Some(profile.profile_id),
        signed_request_outcome(
            Method::Get,
            parsed_uri(activity.actor@),
            profile,
            None,
            date,
        ).is_ok(),
        uri_is_valid(actor.inbox@),
        inbox_step(
            InboxState::Received,
            InboxEvent::Posted(InboxPost::Follow(activity)),
            date,
            first.0,
            first.1,
        ),
        inbox_step(first.0, InboxEvent::Profile(Some(profile)), date, second.0, second.1),
        inbox_step(second.0, InboxEvent::Actor(Ok(actor)), date, third.0, third.1),
    ensures
        first.1 matches InboxAction::LoadProfile(id) && id == profile.profile_id,
        second.1 is FetchActor,
        third.0 is Done,
        third.1 matches InboxAction::Confirm(c) && c.follower@ == (
            profile.profile_id as int,
            activity.actor@,
        ) && c.known_actor@ == known_of_actor(actor@) && is_accept_of(c.accept, activity, profile)
            && c.inbox_uri@ == parsed_uri(actor.inbox@) && with_edge(rows, c.follower@).contains(
            c.follower@,
        ),
        answer_of(third.1) == Some(plain_response(OK, Seq::empty())),
{
    let edge: Edge = (profile.profile_id as int, activity.actor@);
    lemma_follow_state_machine(rows, edge, (profile.profile_id as int + 1, activity.actor@));
}

} // verus!
