use sailboat::activitypub::objects::note::Post;
use sailboat::activitypub::requests::body_digest;
use sailboat::activitypub::signature::Method;
use sailboat::date::HttpDate;
use sailboat::router::posts::{
    parse_post_form, plan_delivery, plan_fan_out, post, reached_inbox, tally, DeliveryOutcome,
    FanOutReport, PostAction, PostEvent, PostState,
};
use sailboat::server::error::body_not_utf8;
use sailboat::server::server_request::CurrentProfile;
use sailboat::store::{Directory, KnownActor};

fn new_private_key() -> String {
    let rsa = openssl::rsa::Rsa::generate(2048).unwrap();
    let key = openssl::pkey::PKey::from_rsa(rsa).unwrap();
    String::from_utf8(key.private_key_to_pem_pkcs8().unwrap()).unwrap()
}

fn date() -> HttpDate {
    HttpDate::from_unix_seconds(784111777).unwrap()
}

#[test]
fn one_bad_inbox_takes_nothing_from_the_others() {
    let key = new_private_key();
    let profile = CurrentProfile::new(1, "example.com", &key).unwrap();
    let inboxes: Vec<String> = vec![
        "https://a.example/inbox".to_owned(),
        "not an inbox".to_owned(),
        "https://c.example/users/c/inbox".to_owned(),
    ];
    let body = "{\"type\":\"Create\"}";
    let plan = plan_fan_out(&inboxes, &profile, body, &date());
    assert_eq!(plan.len(), 3);
    for (delivery, inbox) in plan.iter().zip(inboxes.iter()) {
        assert_eq!(&delivery.inbox, inbox);
    }
    let e = plan[1].request.as_ref().unwrap_err();
    assert_eq!(e.status_code, 502);
    assert_eq!(e.message, "not an inbox is not a valid inbox URI");
    for i in [0, 2] {
        let request = plan[i].request.as_ref().unwrap();
        assert_eq!(request.method, Method::Post);
        assert_eq!(request.url, inboxes[i]);
        assert_eq!(request.body.as_deref(), Some(body));
        let digest = request.headers.iter().find(|h| h.name == "digest").unwrap();
        assert_eq!(digest.value, body_digest(body));
    }
    let alone = plan_delivery(&inboxes[2], &profile, body, &date());
    let planned = plan[2].request.as_ref().unwrap();
    let single = alone.request.as_ref().unwrap();
    let pairs = |r: &sailboat::activitypub::requests::OutgoingRequest| -> Vec<(String, String)> {
        r.headers.iter().map(|h| (h.name.clone(), h.value.clone())).collect()
    };
    assert_eq!(pairs(planned), pairs(single));
}

#[test]
fn one_failing_inbox_leaves_the_rest_delivered() {
    for n in 1..6usize {
        for failing in 0..n {
            let outcomes: Vec<DeliveryOutcome> = (0..n)
                .map(|i| if i == failing {
                    DeliveryOutcome::Responded(500)
                } else {
                    DeliveryOutcome::Responded(202)
                })
                .collect();
            assert_eq!(tally(&outcomes), FanOutReport { delivered: n - 1, failed: 1 });
        }
    }
}

#[test]
fn only_answers_of_the_2xx_family_count_as_delivered() {
    assert!(reached_inbox(&DeliveryOutcome::Responded(200)));
    assert!(reached_inbox(&DeliveryOutcome::Responded(299)));
    assert!(!reached_inbox(&DeliveryOutcome::Responded(199)));
    assert!(!reached_inbox(&DeliveryOutcome::Responded(300)));
    assert!(!reached_inbox(&DeliveryOutcome::Responded(404)));
    assert!(!reached_inbox(&DeliveryOutcome::TransportError));
    assert!(!reached_inbox(&DeliveryOutcome::NotSent));
    let outcomes = vec![
        DeliveryOutcome::Responded(200),
        DeliveryOutcome::TransportError,
        DeliveryOutcome::NotSent,
        DeliveryOutcome::Responded(204),
        DeliveryOutcome::Responded(302),
    ];
    assert_eq!(tally(&outcomes), FanOutReport { delivered: 2, failed: 3 });
    assert_eq!(tally(&Vec::new()), FanOutReport { delivered: 0, failed: 0 });
}

#[test]
fn new_post_goes_to_the_inboxes_of_the_followers() {
    let key = new_private_key();
    let profile = CurrentProfile::new(1, "example.com", &key).unwrap();
    let mut directory = Directory::new();
    for name in ["bob", "eve"] {
        let id = format!("https://remote.example/users/{}", name);
        directory.upsert_known_actor(KnownActor {
            actor_id: id.clone(),
            name: name.to_owned(),
            preferred_username: name.to_owned(),
            url: id.clone(),
            inbox: format!("{}/inbox", id),
            outbox: format!("{}/outbox", id),
        });
        directory.upsert_follower(1, &id);
    }
    let form = parse_post_form("profile_id=1&content=hello+world").unwrap();
    assert_eq!((form.profile_id, form.content.as_str()), (1, "hello world"));
    let post = Post::from_row(9, form.profile_id, form.content, "now".to_owned(), "example.com");
    let create = post.into_create();
    assert_eq!(create.id, "https://example.com/posts/9");
    let inboxes = directory.inboxes_of_followers(1);
    let plan = plan_fan_out(&inboxes, &profile, "{}", &date());
    let urls: Vec<&str> =
        plan.iter().map(|d| d.request.as_ref().unwrap().url.as_str()).collect();
    assert_eq!(
        urls,
        vec!["https://remote.example/users/bob/inbox", "https://remote.example/users/eve/inbox"]
    );
}

#[test]
fn post_form_errors() {
    let e = parse_post_form("content=x").unwrap_err();
    assert_eq!((e.status_code, e.message.as_str()), (400, "Invalid form data"));
    let e = parse_post_form("profile_id=1").unwrap_err();
    assert_eq!((e.status_code, e.message.as_str()), (400, "Invalid form data"));
    let e = parse_post_form("profile_id=1&profile_id=2&content=x").unwrap_err();
    assert_eq!((e.status_code, e.message.as_str()), (400, "Invalid form data"));
    let e = parse_post_form("profile_id=one&content=x").unwrap_err();
    assert_eq!(e, body_not_utf8());
}

fn inboxes_with_one_broken(n: usize, broken: usize) -> Vec<String> {
    (0..n)
        .map(|i| if i == broken {
            "not an inbox".to_owned()
        } else {
            format!("https://f{}.example/inbox", i)
        })
        .collect()
}

#[test]
fn new_post_is_stored_answered_and_then_delivered() {
    let key = new_private_key();
    let profile = CurrentProfile::new(1, "example.com", &key).unwrap();
    let event = PostEvent::Posted("profile_id=1&content=hello".to_owned());
    let (state, action) = post(PostState::Received, event, &profile, &date());
    assert!(matches!(state, PostState::AwaitingRow));
    let form = match action {
        PostAction::Store(form) => form,
        other => panic!("unexpected {:?}", other),
    };
    assert_eq!((form.profile_id, form.content.as_str()), (1, "hello"));

    let row = Post::from_row(9, form.profile_id, form.content, "now".to_owned(), "example.com");
    let inboxes = inboxes_with_one_broken(4, 2);
    let (state, action) = post(state, PostEvent::Stored(row, inboxes.clone()), &profile, &date());
    match &state {
        PostState::AwaitingBody(kept) => assert_eq!(kept, &inboxes),
        other => panic!("unexpected {:?}", other),
    }
    match action {
        PostAction::Announce(create, response) => {
            assert_eq!(create.id, "https://example.com/posts/9");
            assert_eq!(create.actor, "https://example.com/profiles/1");
            assert_eq!(response.status, 200);
            assert_eq!(response.body, "https://example.com/posts/9");
        }
        other => panic!("unexpected {:?}", other),
    }

    let body = "{\"type\":\"Create\"}".to_owned();
    let (state, action) = post(state, PostEvent::Serialized(body.clone()), &profile, &date());
    assert!(matches!(state, PostState::Done));
    let plan = match action {
        PostAction::Deliver(plan) => plan,
        other => panic!("unexpected {:?}", other),
    };
    assert_eq!(plan.len(), 4);
    for (i, delivery) in plan.iter().enumerate() {
        assert_eq!(delivery.inbox, inboxes[i]);
        if i == 2 {
            assert_eq!(delivery.request.as_ref().unwrap_err().status_code, 502);
        } else {
            let request = delivery.request.as_ref().unwrap();
            assert_eq!(request.method, Method::Post);
            assert_eq!(request.url, inboxes[i]);
            assert_eq!(request.body.as_ref(), Some(&body));
        }
    }
}

#[test]
fn a_failing_inbox_takes_no_request_from_the_others_wherever_it_stands() {
    let key = new_private_key();
    let profile = CurrentProfile::new(1, "example.com", &key).unwrap();
    for n in 1..5usize {
        for broken in 0..n {
            let inboxes = inboxes_with_one_broken(n, broken);
            let state = PostState::AwaitingBody(inboxes.clone());
            let event = PostEvent::Serialized("{}".to_owned());
            let plan = match post(state, event, &profile, &date()).1 {
                PostAction::Deliver(plan) => plan,
                other => panic!("unexpected {:?}", other),
            };
            let sent: Vec<&str> = plan
                .iter()
                .filter_map(|d| d.request.as_ref().ok())
                .map(|r| r.url.as_str())
                .collect();
            let working: Vec<&str> = inboxes
                .iter()
                .enumerate()
                .filter(|(i, _)| *i != broken)
                .map(|(_, inbox)| inbox.as_str())
                .collect();
            assert_eq!(sent, working);
            assert_eq!(sent.len(), n - 1);
        }
    }
}

#[test]
fn new_post_errors_end_the_handling() {
    let key = new_private_key();
    let profile = CurrentProfile::new(1, "example.com", &key).unwrap();
    let event = PostEvent::Posted("content=x".to_owned());
    let (state, action) = post(PostState::Received, event, &profile, &date());
    assert!(matches!(state, PostState::Done));
    match action {
        PostAction::Fail(e) => assert_eq!((e.status_code, e.message.as_str()), (400, "Invalid form data")),
        other => panic!("unexpected {:?}", other),
    }
    let event = PostEvent::Serialized("{}".to_owned());
    let (state, action) = post(PostState::Received, event, &profile, &date());
    assert!(matches!(state, PostState::Done));
    match action {
        PostAction::Fail(e) => assert_eq!((e.status_code, e.message.as_str()), (400, "Unexpected event")),
        other => panic!("unexpected {:?}", other),
    }
}
