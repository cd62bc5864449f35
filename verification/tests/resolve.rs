use sailboat::activitypub::get_full_handle;
use sailboat::activitypub::objects::actor::{Actor, ActorType, LinkType, PublicKey};
use sailboat::activitypub::objects::webfinger::{WebFinger, WebFingerLink};
use sailboat::activitypub::objects::Context;
use sailboat::activitypub::signature::Method;
use sailboat::date::HttpDate;
use sailboat::queries::{
    actor_request_for, get_or_search_for_actor, ResolveAction, ResolveEvent, ResolveState,
};
use sailboat::server::error::{bad_gateway, bad_request};
use sailboat::server::server_request::CurrentProfile;

fn profile() -> CurrentProfile {
    let rsa = openssl::rsa::Rsa::generate(2048).unwrap();
    let key = openssl::pkey::PKey::from_rsa(rsa).unwrap();
    let pem = String::from_utf8(key.private_key_to_pem_pkcs8().unwrap()).unwrap();
    CurrentProfile::new(1, "example.com", &pem).unwrap()
}

fn date() -> HttpDate {
    HttpDate::from_unix_seconds(784111777).unwrap()
}

fn doc(href: Option<&str>) -> WebFinger {
    WebFinger {
        subject: Some("acct:bob@remote.example".to_owned()),
        aliases: None,
        properties: None,
        links: Some(vec![WebFingerLink {
            rel: "self".to_owned(),
            link_type: Some(LinkType::ActivityJson),
            href: href.map(|h| h.to_owned()),
        }]),
    }
}

fn bob() -> Actor {
    Actor {
        context: vec![Context::ActivityStreams],
        id: "https://remote.example/users/bob".to_owned(),
        url: "https://remote.example/@bob".to_owned(),
        summary: None,
        name: "Bob".to_owned(),
        actor_type: ActorType::Person,
        preferred_username: "bob".to_owned(),
        inbox: "https://remote.example/users/bob/inbox".to_owned(),
        outbox: "https://remote.example/users/bob/outbox".to_owned(),
        public_key: PublicKey::from_public_pem("https://remote.example/users/bob", "PEM"),
        icon: None,
    }
}

#[test]
fn handle_is_resolved_by_webfinger_then_actor() {
    let handle = get_full_handle("@bob@remote.example").unwrap();
    let p = profile();
    let (state, action) =
        get_or_search_for_actor(ResolveState::Start, ResolveEvent::Begin, &handle, &p, &date());
    assert_eq!(state, ResolveState::AwaitingWebFinger);
    match action {
        ResolveAction::FetchWebFinger(request) => {
            assert_eq!(request.url, "https://remote.example/.well-known/webfinger");
            assert_eq!(request.query[0].value, "acct:bob@remote.example");
            assert!(!request.headers.iter().any(|h| h.name == "signature"));
        }
        other => panic!("unexpected {:?}", other),
    }
    let event = ResolveEvent::WebFinger(Ok(doc(Some("https://remote.example/users/bob"))));
    let (state, action) = get_or_search_for_actor(state, event, &handle, &p, &date());
    assert_eq!(state, ResolveState::AwaitingActor);
    match action {
        ResolveAction::FetchActor(request) => {
            assert_eq!(request.method, Method::Get);
            assert_eq!(request.url, "https://remote.example/users/bob");
            let accept = request.headers.iter().find(|h| h.name == "accept").unwrap();
            assert_eq!(accept.value, "application/activity+json");
            assert!(request.headers.iter().any(|h| h.name == "signature"));
        }
        other => panic!("unexpected {:?}", other),
    }
    let (state, action) =
        get_or_search_for_actor(state, ResolveEvent::Actor(Ok(bob())), &handle, &p, &date());
    assert_eq!(state, ResolveState::Done);
    match action {
        ResolveAction::Resolved(actor) => assert_eq!(actor.id, "https://remote.example/users/bob"),
        other => panic!("unexpected {:?}", other),
    }
}

#[test]
fn webfinger_without_an_actor_link_is_not_found() {
    let p = profile();
    let e = actor_request_for(&doc(None), &p, &date()).unwrap_err();
    assert_eq!(e.status_code, 404);
    let empty = WebFinger { subject: None, aliases: None, properties: None, links: None };
    assert_eq!(actor_request_for(&empty, &p, &date()).unwrap_err().status_code, 404);
}

#[test]
fn webfinger_with_a_malformed_link_is_a_bad_gateway() {
    let p = profile();
    let e = actor_request_for(&doc(Some("not a uri")), &p, &date()).unwrap_err();
    assert_eq!(e, bad_gateway("Invalid actor URI"));
}

#[test]
fn failures_end_the_resolution() {
    let handle = get_full_handle("bob@remote.example").unwrap();
    let p = profile();
    let event = ResolveEvent::WebFinger(Err(bad_gateway("unreachable")));
    let (state, action) =
        get_or_search_for_actor(ResolveState::AwaitingWebFinger, event, &handle, &p, &date());
    assert_eq!(state, ResolveState::Done);
    assert!(matches!(action, ResolveAction::Failed(e) if e == bad_gateway("unreachable")));
    let event = ResolveEvent::Actor(Err(bad_gateway("schema")));
    let (state, action) =
        get_or_search_for_actor(ResolveState::AwaitingActor, event, &handle, &p, &date());
    assert_eq!(state, ResolveState::Done);
    assert!(matches!(action, ResolveAction::Failed(e) if e == bad_gateway("schema")));
    let (state, action) = get_or_search_for_actor(
        ResolveState::Start,
        ResolveEvent::Actor(Ok(bob())),
        &handle,
        &p,
        &date(),
    );
    assert_eq!(state, ResolveState::Done);
    assert!(matches!(action, ResolveAction::Failed(e) if e == bad_request("Unexpected event")));
}
