use sailboat::activitypub::signature::Method;
use sailboat::server::error::{
    bad_gateway, bad_request, body_not_utf8, body_too_large, crypto_error, forbidden,
    header_error, map_bad_gateway, map_bad_request, not_found, storage_error, ServerError,
};
use sailboat::server::server_request::{AuthState, CurrentProfile, NoAuth, ServerRequest, SessionData, SetupPhase};
use sailboat::server::utils::make_cookie;

fn request(path: &str, accept: Option<&str>) -> ServerRequest {
    ServerRequest {
        method: Method::Get,
        path: path.to_owned(),
        query: None,
        accept: accept.map(|a| a.to_owned()),
        domain: "example.com".to_owned(),
        body: String::new(),
    }
}

fn triple(e: &ServerError) -> (&str, &str, u16) {
    (e.prefix, e.message.as_str(), e.status_code)
}

#[test]
fn errors_have_their_status() {
    assert_eq!(triple(&bad_request("m")), ("[BAD REQUEST]", "m", 400));
    assert_eq!(triple(&map_bad_request("d")), ("[BAD REQUEST]", "d", 400));
    assert_eq!(triple(&bad_gateway("m")), ("[BAD GATEWAY]", "m", 502));
    assert_eq!(triple(&map_bad_gateway("d")), ("[BAD GATEWAY]", "d", 502));
    assert_eq!(triple(&not_found()), ("", "", 404));
    assert_eq!(triple(&forbidden()), ("", "", 403));
    assert_eq!(triple(&body_too_large()), ("", "Body was too large", 400));
    assert_eq!(triple(&body_not_utf8()), ("", "Body was not UTF8", 400));
    assert_eq!(triple(&crypto_error("d")), ("[OpenSSL ERROR]", "d", 500));
    assert_eq!(triple(&header_error("d")), ("[HYPER ERROR]", "d", 500));
    assert_eq!(triple(&storage_error("d")), ("[SQL ERROR]", "d", 500));
}

#[test]
fn errors_are_equal_by_message_and_status() {
    assert_eq!(bad_request("m"), map_bad_request("m"));
    assert_ne!(bad_request("m"), bad_request("n"));
    assert_ne!(bad_request("m"), bad_gateway("m"));
    assert_eq!(bad_gateway("m").to_string(), "[BAD GATEWAY] m");
    assert_eq!(not_found().to_string(), " ");
    assert_eq!(bad_request("m").duplicate(), bad_request("m"));
}

#[test]
fn url_params_are_the_pieces_of_the_path() {
    let r = request("/profiles/12/outbox", None);
    assert_eq!(r.get_url_param(0, "m"), Ok("".to_owned()));
    assert_eq!(r.get_url_param(1, "m"), Ok("profiles".to_owned()));
    assert_eq!(r.get_url_param(2, "m"), Ok("12".to_owned()));
    assert_eq!(r.get_url_param(3, "m"), Ok("outbox".to_owned()));
    assert_eq!(r.get_url_param(4, "Missing"), Err(bad_request("Missing")));
    assert_eq!(r.get_int_url_param(2, "m"), Ok(12));
    assert_eq!(r.get_int_url_param(1, "m"), Err(bad_request("Invalid URL parameter provided")));
    assert_eq!(r.get_int_url_param(7, "Missing profile ID"), Err(bad_request("Missing profile ID")));
    assert_eq!(r.get_trailing_param(), "outbox");
    assert_eq!(request("/posts/", None).get_trailing_param(), "");
    assert_eq!(request("", None).get_trailing_param(), "");
    assert_eq!(request("", None).get_url_param(0, "m"), Ok("".to_owned()));
}

#[test]
fn activity_json_is_asked_for_by_the_accept_header() {
    assert!(request("/", Some("application/activity+json")).is_ap_req());
    assert!(request("/", Some("text/html, application/activity+json;q=0.9")).is_ap_req());
    assert!(request(
        "/",
        Some("application/ld+json;profile=\u{201c}https://www.w3.org/ns/activitystreams")
    )
    .is_ap_req());
    assert!(!request("/", Some("text/html")).is_ap_req());
    assert!(!request("/", Some("application/json")).is_ap_req());
    assert!(!request("/", None).is_ap_req());
}

#[test]
fn cookie_has_its_attributes() {
    assert_eq!(make_cookie("token", "abc"), "token=abc; SameSite=Lax; Secure; HttpOnly; Path=/");
    assert_eq!(make_cookie("", ""), "=; SameSite=Lax; Secure; HttpOnly; Path=/");
}

#[test]
fn only_a_session_carries_session_data() {
    assert!(NoAuth.get().is_none());
    assert!(SetupPhase.get().is_none());
    let session = SessionData {
        profiles: Vec::new(),
        current_profile: CurrentProfile {
            profile_id: 1,
            domain: "example.com".to_owned(),
            private_key_pem: String::new(),
        },
    };
    assert_eq!(session.get().unwrap().current_profile.profile_id, 1);
    assert_eq!(session.current_profile.duplicate().domain, "example.com");
}
