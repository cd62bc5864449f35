use sailboat::activitypub::objects::actor::{Actor, ActorType, PublicKey};
use sailboat::activitypub::objects::outbox::{ActivityType, FollowActivity, UndoActivity};
use sailboat::activitypub::objects::{AtContext, Context};
use sailboat::activitypub::requests::body_digest;
use sailboat::activitypub::signature::{verify, InboundRequest, Method};
use sailboat::date::HttpDate;
use sailboat::router::inbox::{
    accept_request, answer, begin_follow, confirm_follow, post, request_actor, undo_follow,
    InboxAction, InboxEvent, InboxPost, InboxState,
};
use sailboat::server::error::{bad_gateway, bad_request, ServerError};
use sailboat::server::server_request::CurrentProfile;
use sailboat::store::Directory;

const BOB: &str = "https://remote.example/users/bob";
const ALICE: &str = "https://example.com/profiles/1";

fn new_private_key() -> String {
    let rsa = openssl::rsa::Rsa::generate(2048).unwrap();
    let key = openssl::pkey::PKey::from_rsa(rsa).unwrap();
    String::from_utf8(key.private_key_to_pem_pkcs8().unwrap()).unwrap()
}

fn follow(actor: &str, object: &str) -> FollowActivity {
    FollowActivity {
        context: Some(AtContext::Context(Context::ActivityStreams)),
        id: Some("https://remote.example/follows/1".to_owned()),
        activity_type: ActivityType::Follow,
        actor: actor.to_owned(),
        object: object.to_owned(),
    }
}

fn undo(actor: &str, object: &str) -> UndoActivity<FollowActivity> {
    UndoActivity {
        context: None,
        id: Some("https://remote.example/undos/1".to_owned()),
        activity_type: ActivityType::Undo,
        actor: actor.to_owned(),
        object: follow(actor, object),
    }
}

fn bob(inbox: &str) -> Actor {
    Actor {
        context: vec![Context::ActivityStreams],
        id: BOB.to_owned(),
        url: "https://remote.example/@bob".to_owned(),
        summary: None,
        name: "Bob".to_owned(),
        actor_type: ActorType::Person,
        preferred_username: "bob".to_owned(),
        inbox: inbox.to_owned(),
        outbox: "https://remote.example/users/bob/outbox".to_owned(),
        public_key: PublicKey::from_public_pem(BOB, "PEM"),
        icon: None,
    }
}

fn date() -> HttpDate {
    HttpDate::from_unix_seconds(784111777).unwrap()
}

fn failure(action: InboxAction) -> ServerError {
    match action {
        InboxAction::Fail(e) => e,
        other => panic!("expected a failure, got {:?}", other),
    }
}

#[test]
fn follow_is_stored_and_accepted() {
    let key = new_private_key();
    let mut directory = Directory::new();

    let event = InboxEvent::Posted(InboxPost::Follow(follow(BOB, ALICE)));
    let (state, action) = post(InboxState::Received, event, &date());
    match action {
        InboxAction::LoadProfile(id) => assert_eq!(id, 1),
        other => panic!("unexpected {:?}", other),
    }

    let profile = CurrentProfile::new(1, "example.com", &key);
    let (state, action) = post(state, InboxEvent::Profile(profile), &date());
    match action {
        InboxAction::FetchActor(request) => {
            assert_eq!(request.method, Method::Get);
            assert_eq!(request.url, BOB);
            assert_eq!(request.body, None);
            assert!(request.headers.iter().any(|h| h.name == "signature"));
        }
        other => panic!("unexpected {:?}", other),
    }

    let fetched = Ok(bob("https://remote.example/users/bob/inbox"));
    let (state, action) = post(state, InboxEvent::Actor(fetched), &date());
    assert!(matches!(state, InboxState::Done));
    let response = answer(&action).unwrap();
    assert_eq!((response.status, response.body.as_str()), (200, ""));
    let confirmation = match action {
        InboxAction::Confirm(c) => c,
        other => panic!("unexpected {:?}", other),
    };
    assert_eq!(confirmation.follower.profile_id, 1);
    assert_eq!(confirmation.follower.actor_id, BOB);
    assert_eq!(confirmation.known_actor.actor_id, BOB);
    assert_eq!(confirmation.known_actor.name, "Bob");
    assert_eq!(confirmation.known_actor.preferred_username, "bob");
    assert_eq!(confirmation.known_actor.url, "https://remote.example/@bob");
    assert_eq!(confirmation.known_actor.inbox, "https://remote.example/users/bob/inbox");
    assert_eq!(confirmation.known_actor.outbox, "https://remote.example/users/bob/outbox");
    assert!(matches!(confirmation.accept.activity_type, ActivityType::Accept));
    assert!(matches!(confirmation.accept.context, AtContext::Context(Context::ActivityStreams)));
    assert_eq!(confirmation.accept.actor, ALICE);
    assert_eq!(confirmation.accept.id, "1223234932098");
    assert_eq!(
        confirmation.accept.object.id,
        Some("https://remote.example/follows/1".to_owned())
    );
    assert_eq!(confirmation.accept.object.actor, BOB);
    assert_eq!(confirmation.accept.object.object, ALICE);
    assert_eq!(confirmation.inbox_uri.text, "https://remote.example/users/bob/inbox");

    directory.record_follow(&confirmation);
    assert!(directory.is_follower(1, BOB));
    assert_eq!(directory.follower_edge_count(1, BOB), 1);
    assert_eq!(directory.known_actor(BOB).unwrap().inbox, "https://remote.example/users/bob/inbox");

    let body = "{\"type\":\"Accept\"}".to_owned();
    let request = accept_request(&confirmation, body.clone(), &date()).unwrap();
    assert_eq!(request.method, Method::Post);
    assert_eq!(request.url, "https://remote.example/users/bob/inbox");
    assert_eq!(request.body, Some(body.clone()));
    let header = |name: &str| {
        request.headers.iter().find(|h| h.name == name).map(|h| h.value.clone())
    };
    assert_eq!(header("digest"), Some(body_digest(&body)));
    let inbound = InboundRequest {
        method: Method::Post,
        path_and_query: "/users/bob/inbox".to_owned(),
        host: Some("remote.example".to_owned()),
        date: header("date"),
        digest: header("digest"),
        signature: header("signature"),
    };
    let public = PublicKey::try_new(ALICE, &key).unwrap().public_key_pem;
    assert_eq!(verify(&inbound, &public), Ok(true));
}

#[test]
fn same_follow_twice_leaves_one_edge() {
    let key = new_private_key();
    let mut directory = Directory::new();
    for _ in 0..2 {
        let pending = begin_follow(follow(BOB, ALICE)).unwrap();
        let profile = CurrentProfile::new(1, "example.com", &key);
        let (fetch, _) = request_actor(pending, profile, &date()).unwrap();
        let c = confirm_follow(fetch, Ok(bob("https://remote.example/users/bob/inbox"))).unwrap();
        directory.record_follow(&c);
    }
    assert_eq!(directory.follower_edge_count(1, BOB), 1);
    assert_eq!(directory.followers.len(), 1);
    assert_eq!(directory.known_actors.len(), 1);
}

#[test]
fn undo_deletes_the_edge() {
    let mut directory = Directory::new();
    directory.upsert_follower(1, BOB);
    let event = InboxEvent::Posted(InboxPost::Undo(undo(BOB, ALICE)));
    let (state, action) = post(InboxState::Received, event, &date());
    assert!(matches!(state, InboxState::Done));
    let edge = match action {
        InboxAction::RemoveFollower(edge) => edge,
        other => panic!("unexpected {:?}", other),
    };
    assert_eq!((edge.profile_id, edge.actor_id.as_str()), (1, BOB));
    directory.record_undo(&edge);
    assert!(!directory.is_follower(1, BOB));
}

#[test]
fn undo_without_an_edge_succeeds_and_changes_nothing() {
    let mut directory = Directory::new();
    directory.upsert_follower(2, BOB);
    let edge = undo_follow(&undo(BOB, ALICE)).unwrap();
    directory.record_undo(&edge);
    assert_eq!(directory.followers.len(), 1);
    assert!(directory.is_follower(2, BOB));
}

#[test]
fn follow_with_a_bad_actor_or_object_is_a_bad_request() {
    let e = begin_follow(follow("not a uri", ALICE)).unwrap_err();
    assert_eq!(e, bad_request("Invalid actor URI provided"));
    let e = begin_follow(follow(BOB, "not a uri")).unwrap_err();
    assert_eq!(e, bad_request("Invalid URI provided"));
    let e = begin_follow(follow(BOB, "https://example.com/profiles/alice")).unwrap_err();
    assert_eq!(e, bad_request("URI names no local profile"));
    let event = InboxEvent::Posted(InboxPost::Follow(follow("not a uri", ALICE)));
    let (state, action) = post(InboxState::Received, event, &date());
    assert!(matches!(state, InboxState::Done));
    assert_eq!(failure(action), bad_request("Invalid actor URI provided"));
    let e = undo_follow(&undo(BOB, "nowhere at all")).unwrap_err();
    assert_eq!(e, bad_request("Invalid URI provided"));
}

#[test]
fn follow_of_a_profile_without_a_key_is_a_bad_request() {
    let pending = begin_follow(follow(BOB, "https://example.com/profiles/12")).unwrap();
    let e = request_actor(pending, None, &date()).unwrap_err();
    assert_eq!(e, bad_request("Feed 12 not found"));
}

#[test]
fn follow_from_an_actor_that_cannot_be_had_is_a_bad_gateway() {
    let key = new_private_key();
    let pending = begin_follow(follow(BOB, ALICE)).unwrap();
    let profile = CurrentProfile::new(1, "example.com", &key);
    let (fetch, _) = request_actor(pending, profile, &date()).unwrap();
    let e = confirm_follow(fetch, Err(bad_gateway("timeout"))).unwrap_err();
    assert_eq!(e.status_code, 502);
    assert_eq!(
        e.message,
        "Unable to retrieve parse valid actor from URI https://remote.example/users/bob"
    );

    let pending = begin_follow(follow(BOB, ALICE)).unwrap();
    let profile = CurrentProfile::new(1, "example.com", &key);
    let (fetch, _) = request_actor(pending, profile, &date()).unwrap();
    let e = confirm_follow(fetch, Ok(bob("no inbox here"))).unwrap_err();
    assert_eq!(e.status_code, 502);
    assert_eq!(e.message, "no inbox here is not a valid inbox URI");
}

#[test]
fn an_event_out_of_turn_ends_the_handling() {
    let (state, action) = post(InboxState::Received, InboxEvent::Profile(None), &date());
    assert!(matches!(state, InboxState::Done));
    assert_eq!(failure(action), bad_request("Unexpected event"));
    let event = InboxEvent::Posted(InboxPost::Follow(follow(BOB, ALICE)));
    let (state, action) = post(InboxState::Done, event, &date());
    assert!(matches!(state, InboxState::Done));
    assert_eq!(failure(action), bad_request("Unexpected event"));
}

#[test]
fn follow_without_an_id_is_answered_200() {
    let key = new_private_key();
    let mut directory = Directory::new();
    let activity = FollowActivity {
        context: None,
        id: None,
        activity_type: ActivityType::Follow,
        actor: BOB.to_owned(),
        object: ALICE.to_owned(),
    };
    let event = InboxEvent::Posted(InboxPost::Follow(activity));
    let (state, action) = post(InboxState::Received, event, &date());
    assert!(answer(&action).is_none());
    assert!(matches!(action, InboxAction::LoadProfile(1)));
    let profile = CurrentProfile::new(1, "example.com", &key);
    let (state, action) = post(state, InboxEvent::Profile(profile), &date());
    assert!(answer(&action).is_none());
    assert!(matches!(action, InboxAction::FetchActor(_)));
    let fetched = Ok(bob("https://remote.example/users/bob/inbox"));
    let (state, action) = post(state, InboxEvent::Actor(fetched), &date());
    assert!(matches!(state, InboxState::Done));
    let response = answer(&action).unwrap();
    assert_eq!(response.status, 200);
    match action {
        InboxAction::Confirm(c) => {
            directory.record_follow(&c);
            assert_eq!(c.accept.object.id, None);
            assert_eq!(c.accept.object.actor, BOB);
            assert_eq!(c.accept.object.object, ALICE);
        }
        other => panic!("unexpected {:?}", other),
    }
    assert!(directory.is_follower(1, BOB));
    assert_eq!(directory.followers.len(), 1);
}

#[test]
fn every_end_of_the_handling_has_its_answer() {
    let event = InboxEvent::Posted(InboxPost::Undo(undo(BOB, ALICE)));
    let (_, action) = post(InboxState::Received, event, &date());
    let response = answer(&action).unwrap();
    assert_eq!((response.status, response.body.as_str()), (200, ""));

    let event = InboxEvent::Posted(InboxPost::Follow(follow("not a uri", ALICE)));
    let (_, action) = post(InboxState::Received, event, &date());
    let response = answer(&action).unwrap();
    assert_eq!((response.status, response.body.as_str()), (400, "Invalid actor URI provided"));

    let key = new_private_key();
    let pending = begin_follow(follow(BOB, ALICE)).unwrap();
    let profile = CurrentProfile::new(1, "example.com", &key);
    let (fetch, _) = request_actor(pending, profile, &date()).unwrap();
    let state = InboxState::AwaitingActor(fetch);
    let (_, action) = post(state, InboxEvent::Actor(Err(bad_gateway("down"))), &date());
    let response = answer(&action).unwrap();
    assert_eq!((response.status, response.body.as_str()), (502, ""));
}
