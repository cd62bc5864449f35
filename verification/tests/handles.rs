use sailboat::activitypub::{
    get_full_handle, key_id, post_url, profile_url, LONG_ACCEPT_HEADER, PUBLIC_STREAM,
    SHORT_ACCEPT_HEADER,
};
use sailboat::server::error::bad_request;

fn parts(s: &str) -> (String, String) {
    let h = get_full_handle(s).unwrap();
    (h.preferred_username, h.host)
}

fn pair(a: &str, b: &str) -> (String, String) {
    (a.to_owned(), b.to_owned())
}

#[test]
fn handle_with_and_without_leading_at() {
    assert_eq!(parts("alice@example.com"), pair("alice", "example.com"));
    assert_eq!(parts("@alice@example.com"), pair("alice", "example.com"));
}

#[test]
fn handle_parts_are_trimmed() {
    assert_eq!(parts(" alice @ example.com "), pair("alice", "example.com"));
    assert_eq!(parts("@\talice\u{a0}@\u{3000}example.com\n"), pair("alice", "example.com"));
}

#[test]
fn handle_with_more_separators() {
    assert_eq!(parts("alice@example.com@other"), pair("alice", "example.com"));
    assert_eq!(parts("@alice@example.com@other"), pair("alice", "example.com@other"));
    assert_eq!(parts("@@example.com"), pair("", "example.com"));
    assert_eq!(parts("alice@"), pair("alice", ""));
}

#[test]
fn handle_errors() {
    assert_eq!(get_full_handle("").unwrap_err(), bad_request("Missing user name"));
    assert_eq!(get_full_handle("alice").unwrap_err(), bad_request("Missing host name"));
    assert_eq!(get_full_handle("@").unwrap_err(), bad_request("Missing host name"));
    assert_eq!(get_full_handle("@alice").unwrap_err(), bad_request("Missing host name"));
}

#[test]
fn handle_is_written_out() {
    let h = get_full_handle("alice@example.com").unwrap();
    assert_eq!(h.get_local_url(), "/feeds/@alice@example.com");
    assert_eq!(h.to_string(), "@alice@example.com");
}

#[test]
fn canonical_urls() {
    assert_eq!(profile_url("example.com", 1), "https://example.com/profiles/1");
    assert_eq!(profile_url("example.com", -12), "https://example.com/profiles/-12");
    assert_eq!(post_url("example.com", 120), "https://example.com/posts/120");
    assert_eq!(
        post_url("example.com", i64::MIN),
        "https://example.com/posts/-9223372036854775808"
    );
    assert_eq!(key_id("example.com", 7), "https://example.com/profiles/7#main-key");
    assert_eq!(PUBLIC_STREAM, "https://www.w3.org/ns/activitystreams#Public");
    assert_eq!(SHORT_ACCEPT_HEADER, "application/activity+json");
    assert!(LONG_ACCEPT_HEADER.starts_with("application/ld+json;profile="));
}
