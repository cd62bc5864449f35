use sailboat::activitypub::objects::actor::LinkType;
use sailboat::form::{find_field, parse_form};
use sailboat::router::webfinger::{account_in_query, get, parse_resource};
use sailboat::server::error::bad_request;

#[test]
fn webfinger_for_a_local_profile_has_one_self_link() {
    let account = account_in_query(Some("resource=acct:alice@example.com")).unwrap();
    assert_eq!(account.handle, "alice");
    assert_eq!(account.domain, "example.com");
    let doc = get(&account, "example.com", Some(1)).unwrap();
    assert_eq!(doc.subject, Some("acct:alice@example.com".to_owned()));
    assert!(doc.aliases.is_none());
    assert!(doc.properties.is_none());
    let links = doc.links.unwrap();
    assert_eq!(links.len(), 1);
    assert_eq!(links[0].rel, "self");
    assert!(matches!(links[0].link_type, Some(LinkType::ActivityJson)));
    assert_eq!(links[0].href, Some("https://example.com/profiles/1".to_owned()));
}

#[test]
fn webfinger_query_may_be_percent_encoded() {
    let account = account_in_query(Some("x=1&resource=acct%3Aalice%40example.com")).unwrap();
    assert_eq!((account.handle.as_str(), account.domain.as_str()), ("alice", "example.com"));
}

#[test]
fn webfinger_for_an_unknown_profile_is_not_found() {
    let account = parse_resource("acct:nobody@example.com").unwrap();
    let e = get(&account, "example.com", None).unwrap_err();
    assert_eq!(e.status_code, 404);
    assert_eq!(e.message, "");
}

#[test]
fn webfinger_for_another_domain_is_not_found() {
    let account = parse_resource("acct:alice@elsewhere.example").unwrap();
    let e = get(&account, "example.com", Some(1)).unwrap_err();
    assert_eq!(e.status_code, 404);
}

#[test]
fn webfinger_query_errors() {
    assert_eq!(account_in_query(None).unwrap_err(), bad_request("Missing query parameter"));
    assert_eq!(
        account_in_query(Some("q=1")).unwrap_err(),
        bad_request("Invalid query string provided")
    );
    assert_eq!(
        account_in_query(Some("resource=acct:a@b&resource=acct:c@d")).unwrap_err(),
        bad_request("Invalid query string provided")
    );
    assert_eq!(
        account_in_query(Some("resource=alice")).unwrap_err(),
        bad_request("Invalid resource query provided (missing scheme i.e. 'acct:')")
    );
    assert_eq!(
        account_in_query(Some("resource=https://example.com/alice")).unwrap_err(),
        bad_request("Sorry, that scheme is not supported yet (expected 'acct:')")
    );
    assert_eq!(
        account_in_query(Some("resource=acct:alice")).unwrap_err(),
        bad_request("Invalid handle resource provided")
    );
}

#[test]
fn resource_is_parted_at_the_first_colon_and_the_next_at() {
    let a = parse_resource("acct:alice@example.com@x:y").unwrap();
    assert_eq!((a.handle.as_str(), a.domain.as_str()), ("alice", "example.com@x:y"));
    let a = parse_resource("acct:@").unwrap();
    assert_eq!((a.handle.as_str(), a.domain.as_str()), ("", ""));
    assert!(parse_resource("a@b:acct").is_err());
}

#[test]
fn form_fields_are_found_when_given_once() {
    let pairs = parse_form("a=1&b=two+words&a=3&c=%C3%A9").unwrap();
    assert_eq!(pairs.len(), 4);
    assert_eq!(find_field(&pairs, "b"), Some("two words".to_owned()));
    assert_eq!(find_field(&pairs, "c"), Some("é".to_owned()));
    assert_eq!(find_field(&pairs, "a"), None);
    assert_eq!(find_field(&pairs, "d"), None);
    assert_eq!(parse_form("").unwrap().len(), 0);
}
