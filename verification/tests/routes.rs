use sailboat::activitypub::objects::actor::{Actor, ActorType, PublicKey};
use sailboat::activitypub::objects::note::Post;
use sailboat::activitypub::objects::outbox::{
    get_outbox, ActivityType, CreateActivity, Object, OrderedCollectionPage, PageOrLink,
};
use sailboat::activitypub::objects::{AtContext, Context};
use sailboat::activitypub::requests::{get_actor, get_outbox_page};
use sailboat::activitypub::signature::Method;
use sailboat::date::HttpDate;
use sailboat::router::feeds::{first_page_request, notes_of_page, outbox_request};
use sailboat::router::follow::parse_follow_form;
use sailboat::router::outbox::{page_in_query, OutboxAnswer};
use sailboat::router::profiles::profile_id_param;
use sailboat::server::error::{bad_gateway, bad_request, not_found};
use sailboat::server::server_request::CurrentProfile;
use sailboat::uri::Uri;

fn profile() -> CurrentProfile {
    let rsa = openssl::rsa::Rsa::generate(2048).unwrap();
    let key = openssl::pkey::PKey::from_rsa(rsa).unwrap();
    let pem = String::from_utf8(key.private_key_to_pem_pkcs8().unwrap()).unwrap();
    CurrentProfile::new(1, "example.com", &pem).unwrap()
}

fn date() -> HttpDate {
    HttpDate::from_unix_seconds(784111777).unwrap()
}

fn post(id: i64) -> Post {
    Post::from_row(id, 1, "text".to_owned(), "then".to_owned(), "example.com")
}

#[test]
fn follow_form_is_read_into_a_known_actor() {
    let body = "id=https%3A%2F%2Fr.example%2Fusers%2Fbob&url=https%3A%2F%2Fr.example%2F%40bob\
&preferred_username=bob&name=Bob&inbox=https%3A%2F%2Fr.example%2Finbox\
&outbox=https%3A%2F%2Fr.example%2Foutbox&summary=hi+there";
    let form = parse_follow_form(body).unwrap();
    assert_eq!(form.actor.actor_id, "https://r.example/users/bob");
    assert_eq!(form.actor.url, "https://r.example/@bob");
    assert_eq!(form.actor.preferred_username, "bob");
    assert_eq!(form.actor.name, "Bob");
    assert_eq!(form.actor.inbox, "https://r.example/inbox");
    assert_eq!(form.actor.outbox, "https://r.example/outbox");
    assert_eq!(form.summary, "hi there");
    let edge = sailboat::router::follow::post(3, &form);
    assert_eq!((edge.profile_id, edge.actor_id.as_str()), (3, "https://r.example/users/bob"));
    let e = parse_follow_form("id=x&url=y").unwrap_err();
    assert_eq!((e.status_code, e.message.as_str()), (400, "Invalid form data"));
}

#[test]
fn outbox_route_answers_with_the_collection_or_a_page() {
    let posts: Vec<Post> = (1..=5).map(post).collect();
    match sailboat::router::outbox::get(1, "example.com", None, &posts) {
        OutboxAnswer::Collection(outbox) => assert_eq!(outbox.total_items, 5),
        OutboxAnswer::Page(_) => panic!("a page"),
    }
    match sailboat::router::outbox::get(1, "example.com", Some("page=abc"), &posts) {
        OutboxAnswer::Collection(outbox) => assert_eq!(outbox.total_items, 5),
        OutboxAnswer::Page(_) => panic!("a page"),
    }
    match sailboat::router::outbox::get(1, "example.com", Some("page=2"), &posts) {
        OutboxAnswer::Page(page) => {
            assert_eq!(page.ordered_items.len(), 5);
            assert!(page.next.is_none());
        }
        OutboxAnswer::Collection(_) => panic!("the collection"),
    }
    assert_eq!(page_in_query(Some("page=1")), Some(1));
    assert_eq!(page_in_query(Some("a=b&page=%2B7")), Some(7));
    assert_eq!(page_in_query(Some("page=0")), Some(0));
    assert_eq!(page_in_query(Some("page=18446744073709551615")), Some(usize::MAX));
    assert_eq!(page_in_query(Some("page=18446744073709551616")), None);
    assert_eq!(page_in_query(Some("page=-1")), None);
    assert_eq!(page_in_query(Some("page=")), None);
    assert_eq!(page_in_query(Some("page=1&page=2")), None);
    assert_eq!(page_in_query(Some("other=1")), None);
    assert_eq!(page_in_query(None), None);
}

#[test]
fn profile_id_is_read_from_the_end_of_the_path() {
    assert_eq!(profile_id_param("/profiles/1"), Ok(1));
    assert_eq!(profile_id_param("/profiles/12#main-key"), Ok(12));
    assert_eq!(profile_id_param("7"), Ok(7));
    assert_eq!(profile_id_param("/profiles/new"), Err(bad_request("Invalid profile ID")));
    assert_eq!(profile_id_param("/profiles/"), Err(bad_request("Invalid profile ID")));
    assert_eq!(profile_id_param("/profiles/#1"), Err(bad_request("Invalid profile ID")));
}

fn actor(outbox: &str) -> Actor {
    Actor {
        context: vec![Context::ActivityStreams],
        id: "https://r.example/users/bob".to_owned(),
        url: "https://r.example/@bob".to_owned(),
        summary: None,
        name: "Bob".to_owned(),
        actor_type: ActorType::Person,
        preferred_username: "bob".to_owned(),
        inbox: "https://r.example/inbox".to_owned(),
        outbox: outbox.to_owned(),
        public_key: PublicKey::from_public_pem("https://r.example/users/bob", "PEM"),
        icon: None,
    }
}

#[test]
fn remote_feed_is_fetched_by_outbox_then_first_page() {
    let p = profile();
    let request = outbox_request(&actor("https://r.example/users/bob/outbox"), &p, &date()).unwrap();
    assert_eq!(request.method, Method::Get);
    assert_eq!(request.url, "https://r.example/users/bob/outbox");
    let e = outbox_request(&actor("no outbox"), &p, &date()).unwrap_err();
    assert_eq!(e, bad_gateway("Invalid outbox URI"));

    let mut outbox = get_outbox(1, "r.example", 3);
    let request = first_page_request(&outbox, &p, &date()).unwrap().unwrap();
    assert_eq!(request.url, "https://r.example/profiles/1/outbox?page=1");
    outbox.first = PageOrLink::Link("nothing useful".to_owned());
    let e = first_page_request(&outbox, &p, &date()).unwrap().unwrap_err();
    assert_eq!(e, bad_gateway("Invalid outbox page URI"));
    outbox.first = PageOrLink::Page(OrderedCollectionPage {
        context: AtContext::Context(Context::ActivityStreams),
        next: None,
        prev: None,
        ordered_items: Vec::new(),
    });
    assert!(first_page_request(&outbox, &p, &date()).is_none());

    let uri = Uri::parse("https://r.example/users/bob").unwrap();
    assert_eq!(get_actor(&uri, &p, &date()).unwrap().url, "https://r.example/users/bob");
    assert_eq!(get_outbox_page(&uri, &p, &date()).unwrap().method, Method::Get);
}

#[test]
fn page_shows_its_notes_and_passes_over_the_rest() {
    let unknown = CreateActivity {
        context: None,
        activity_type: ActivityType::Create,
        id: "x".to_owned(),
        actor: "a".to_owned(),
        published: None,
        to: Vec::new(),
        cc: Vec::new(),
        object: Object::Unknown("{\"type\":\"Question\"}".to_owned()),
    };
    let page = OrderedCollectionPage {
        context: AtContext::Context(Context::ActivityStreams),
        next: None,
        prev: None,
        ordered_items: vec![post(1).into_create(), unknown, post(2).into_create()],
    };
    let notes = notes_of_page(&page);
    let ids: Vec<&str> = notes.iter().map(|n| n.id.as_str()).collect();
    assert_eq!(ids, vec!["https://example.com/posts/1", "https://example.com/posts/2"]);
}

#[test]
fn only_client_errors_show_their_message() {
    assert_eq!(bad_request("tell them").outward_message(), "tell them");
    assert_eq!(not_found().outward_message(), "");
    assert_eq!(bad_gateway("keep this inside").outward_message(), "");
    assert_eq!(sailboat::server::error::crypto_error("secret").outward_message(), "");
}

#[test]
fn profile_form_is_read_into_its_three_fields() {
    let form = sailboat::router::profiles::parse_profile_form(
        "preferred_username=alice&display_name=Alice+A.&nickname=al",
    )
    .unwrap();
    assert_eq!(form.preferred_username, "alice");
    assert_eq!(form.display_name, "Alice A.");
    assert_eq!(form.nickname, "al");
    for body in ["", "preferred_username=a&display_name=b", "preferred_username=a&nickname=c"] {
        let e = sailboat::router::profiles::parse_profile_form(body).unwrap_err();
        assert_eq!((e.status_code, e.message.as_str()), (400, "Invalid form data"), "{}", body);
    }
    let twice = "preferred_username=a&preferred_username=b&display_name=c&nickname=d";
    assert!(sailboat::router::profiles::parse_profile_form(twice).is_err());
    assert_eq!(sailboat::router::profiles::profile_path(12), "/profiles/12");
    assert_eq!(sailboat::router::profiles::profile_path(-3), "/profiles/-3");
}

#[test]
fn search_form_asks_for_a_handle() {
    let handle = sailboat::router::search::handle_in_form("q=%40bob%40remote.example").unwrap();
    assert_eq!(handle.preferred_username, "bob");
    assert_eq!(handle.host, "remote.example");
    let handle = sailboat::router::search::handle_in_form("x=1&q=bob@remote.example").unwrap();
    assert_eq!(handle.to_string(), "@bob@remote.example");
    let e = sailboat::router::search::handle_in_form("x=1").unwrap_err();
    assert_eq!((e.status_code, e.message.as_str()), (400, "Invalid form data"));
    let e = sailboat::router::search::handle_in_form("q=").unwrap_err();
    assert_eq!(e, bad_request("Missing user name"));
    let e = sailboat::router::search::handle_in_form("q=bob").unwrap_err();
    assert_eq!(e, bad_request("Missing host name"));
}
