use sailboat::activitypub::objects::actor::PublicKey;
use sailboat::activitypub::requests::{
    body_digest, build_activitypub_request, get_webfinger, OutgoingRequest,
};
use sailboat::activitypub::signature::{
    canonical_string, format_signature_header, get_signature, get_signature_header,
    signature_key_id, signature_param, signed_text, verify, InboundRequest, Method,
};
use sailboat::date::HttpDate;
use sailboat::server::server_request::CurrentProfile;
use sailboat::uri::Uri;

fn new_private_key() -> String {
    let rsa = openssl::rsa::Rsa::generate(2048).unwrap();
    let key = openssl::pkey::PKey::from_rsa(rsa).unwrap();
    String::from_utf8(key.private_key_to_pem_pkcs8().unwrap()).unwrap()
}

fn public_pem(private_key_pem: &str) -> String {
    PublicKey::try_new("https://example.com/profiles/1", private_key_pem).unwrap().public_key_pem
}

fn header_of(request: &OutgoingRequest, name: &str) -> Option<String> {
    request.headers.iter().find(|h| h.name == name).map(|h| h.value.clone())
}

fn received(request: &OutgoingRequest) -> InboundRequest {
    let uri = Uri::parse(&request.url).unwrap();
    InboundRequest {
        method: request.method,
        path_and_query: uri.path_and_query.unwrap(),
        host: uri.host,
        date: header_of(request, "date"),
        digest: header_of(request, "digest"),
        signature: header_of(request, "signature"),
    }
}

fn date() -> HttpDate {
    HttpDate::from_unix_seconds(784111777).unwrap()
}

#[test]
fn methods_are_written_in_both_cases() {
    let all = [
        (Method::Get, hyper::Method::GET),
        (Method::Post, hyper::Method::POST),
        (Method::Delete, hyper::Method::DELETE),
    ];
    for (ours, theirs) in all {
        assert_eq!(ours.as_str(), theirs.as_str());
        assert_eq!(ours.as_lower_str(), theirs.as_str().to_lowercase());
    }
}

#[test]
fn http_date_is_written_in_gmt() {
    assert_eq!(date().text, "Sun, 06 Nov 1994 08:49:37 GMT");
    assert_eq!(HttpDate::from_unix_seconds(0).unwrap().text, "Thu, 01 Jan 1970 00:00:00 GMT");
    assert!(HttpDate::from_unix_seconds(i64::MAX).is_none());
    assert_eq!(HttpDate::from_text("x").text, "x");
}

#[test]
fn digest_is_sha256_in_base64() {
    assert_eq!(body_digest("hello"), "sha-256=LPJNul+wow4m6DsqxbninhsWHlwfp0JecwQzYpOLmCQ=");
    assert_eq!(body_digest(""), "sha-256=47DEQpj8HBSa+/TImW+5JCeuQeRkm5NMpJWZG3hSuFU=");
}

#[test]
fn canonical_string_without_digest() {
    let uri = Uri::parse("https://remote.example/users/bob?x=1").unwrap();
    let s = canonical_string(&Method::Get, &uri, &date(), &None).unwrap();
    assert_eq!(
        s,
        "(request-target): get /users/bob?x=1\nhost: remote.example\ndate: Sun, 06 Nov 1994 08:49:37 GMT"
    );
}

#[test]
fn canonical_string_with_digest() {
    let uri = Uri::parse("https://remote.example:8443/inbox").unwrap();
    let digest = Some(body_digest("hello"));
    let s = canonical_string(&Method::Post, &uri, &date(), &digest).unwrap();
    assert_eq!(
        s,
        "(request-target): post /inbox\nhost: remote.example\ndate: Sun, 06 Nov 1994 08:49:37 GMT\ndigest: sha-256=LPJNul+wow4m6DsqxbninhsWHlwfp0JecwQzYpOLmCQ="
    );
}

#[test]
fn uri_without_host_cannot_be_signed_for() {
    let uri = Uri::parse("/only/a/path").unwrap();
    let e = canonical_string(&Method::Get, &uri, &date(), &None).unwrap_err();
    assert_eq!(e.status_code, 400);
    assert_eq!(e.message, "URI lacks a host or a path");
    let key = new_private_key();
    let e = get_signature_header(&Method::Get, "k", &uri, &date(), &key, &None).unwrap_err();
    assert_eq!(e.status_code, 400);
}

#[test]
fn malformed_key_is_a_crypto_error() {
    let uri = Uri::parse("https://remote.example/inbox").unwrap();
    let e = get_signature(&Method::Get, &uri, &date(), "not a key", &None).unwrap_err();
    assert_eq!(e.status_code, 500);
    assert_eq!(e.prefix, "[OpenSSL ERROR]");
}

#[test]
fn signature_header_has_the_wire_format() {
    assert_eq!(
        format_signature_header("https://example.com/profiles/1#main-key", false, "c2ln"),
        "keyId=\"https://example.com/profiles/1#main-key\",headers=\"(request-target) host date\",signature=\"c2ln\""
    );
    assert_eq!(
        format_signature_header("k", true, "c2ln"),
        "keyId=\"k\",headers=\"(request-target) host date digest\",signature=\"c2ln\""
    );
}

#[test]
fn signing_twice_gives_the_same_header() {
    let key = new_private_key();
    let uri = Uri::parse("https://remote.example/users/bob/inbox").unwrap();
    let digest = Some(body_digest("{}"));
    let a = get_signature_header(&Method::Post, "kid", &uri, &date(), &key, &digest).unwrap();
    let b = get_signature_header(&Method::Post, "kid", &uri, &date(), &key, &digest).unwrap();
    assert_eq!(a, b);
    assert!(a.starts_with("keyId=\"kid\",headers=\"(request-target) host date digest\",signature=\""));
    let signature = get_signature(&Method::Post, &uri, &date(), &key, &digest).unwrap();
    assert_eq!(a, format_signature_header("kid", true, &signature));
    assert_eq!(signature.len(), 344);
}

#[test]
fn header_with_a_control_character_is_refused() {
    let key = new_private_key();
    let uri = Uri::parse("https://remote.example/inbox").unwrap();
    let e = get_signature_header(&Method::Get, "bad\nkey", &uri, &date(), &key, &None).unwrap_err();
    assert_eq!(e.status_code, 500);
    assert_eq!(e.prefix, "[HYPER ERROR]");
}

#[test]
fn signed_request_has_its_headers_in_order() {
    let key = new_private_key();
    let profile = CurrentProfile::new(1, "example.com", &key).unwrap();
    let uri = Uri::parse("https://remote.example/users/bob/inbox").unwrap();
    let request =
        build_activitypub_request(Method::Post, &uri, &profile, Some("{}".to_owned()), &date())
            .unwrap();
    let names: Vec<&str> = request.headers.iter().map(|h| h.name.as_str()).collect();
    assert_eq!(
        names,
        vec!["date", "user-agent", "accept", "content-type", "digest", "signature"]
    );
    assert_eq!(header_of(&request, "content-type").unwrap(), "application/activity+json");
    assert_eq!(request.url, "https://remote.example/users/bob/inbox");
    assert_eq!(request.body, Some("{}".to_owned()));
    assert_eq!(header_of(&request, "date").unwrap(), "Sun, 06 Nov 1994 08:49:37 GMT");
    assert_eq!(header_of(&request, "user-agent").unwrap(), "Mastodon/3.1.3");
    assert_eq!(header_of(&request, "accept").unwrap(), "application/activity+json");
    assert_eq!(header_of(&request, "digest").unwrap(), body_digest("{}"));
    let signature = header_of(&request, "signature").unwrap();
    assert!(signature.starts_with("keyId=\"https://example.com/profiles/1#main-key\","));

    let request = build_activitypub_request(Method::Get, &uri, &profile, None, &date()).unwrap();
    let names: Vec<&str> = request.headers.iter().map(|h| h.name.as_str()).collect();
    assert_eq!(names, vec!["date", "user-agent", "accept", "signature"]);
    assert_eq!(request.body, None);
}

#[test]
fn verification_succeeds_with_the_matching_key_only() {
    let key = new_private_key();
    let other = new_private_key();
    let profile = CurrentProfile::new(1, "example.com", &key).unwrap();
    let uri = Uri::parse("https://remote.example/users/bob/inbox?a=b").unwrap();
    let request =
        build_activitypub_request(Method::Post, &uri, &profile, Some("{}".to_owned()), &date())
            .unwrap();
    let inbound = received(&request);
    assert_eq!(verify(&inbound, &public_pem(&key)), Ok(true));
    assert_eq!(verify(&inbound, &public_pem(&other)), Ok(false));
    assert_eq!(
        signature_key_id(&inbound),
        Some("https://example.com/profiles/1#main-key".to_owned())
    );
    assert_eq!(
        signed_text(&inbound).unwrap(),
        canonical_string(&Method::Post, &uri, &date(), &Some(body_digest("{}"))).unwrap()
    );
}

#[test]
fn verification_fails_when_a_covered_field_changes() {
    let key = new_private_key();
    let profile = CurrentProfile::new(1, "example.com", &key).unwrap();
    let uri = Uri::parse("https://remote.example/inbox").unwrap();
    let request = build_activitypub_request(Method::Get, &uri, &profile, None, &date()).unwrap();
    let pem = public_pem(&key);
    let mut inbound = received(&request);
    assert_eq!(verify(&inbound, &pem), Ok(true));
    inbound.path_and_query = "/other".to_owned();
    assert_eq!(verify(&inbound, &pem), Ok(false));
    let mut inbound = received(&request);
    inbound.method = Method::Post;
    assert_eq!(verify(&inbound, &pem), Ok(false));
    let mut inbound = received(&request);
    inbound.date = Some("Thu, 01 Jan 1970 00:00:00 GMT".to_owned());
    assert_eq!(verify(&inbound, &pem), Ok(false));
}

#[test]
fn verification_rejects_what_it_cannot_check() {
    let key = new_private_key();
    let profile = CurrentProfile::new(1, "example.com", &key).unwrap();
    let uri = Uri::parse("https://remote.example/inbox").unwrap();
    let request = build_activitypub_request(Method::Get, &uri, &profile, None, &date()).unwrap();
    let pem = public_pem(&key);

    let mut inbound = received(&request);
    inbound.signature = None;
    let e = verify(&inbound, &pem).unwrap_err();
    assert_eq!((e.status_code, e.message.as_str()), (400, "Missing signature header"));

    let mut inbound = received(&request);
    inbound.signature = Some("keyId=\"k\",signature=\"c2ln\"".to_owned());
    let e = verify(&inbound, &pem).unwrap_err();
    assert_eq!((e.status_code, e.message.as_str()), (400, "Malformed signature header"));

    let mut inbound = received(&request);
    inbound.signature = Some("keyId=\"k\",headers=\"date\"".to_owned());
    let e = verify(&inbound, &pem).unwrap_err();
    assert_eq!((e.status_code, e.message.as_str()), (400, "Malformed signature header"));

    let mut inbound = received(&request);
    inbound.signature = Some("keyId=\"k\",headers=\"date content-type\",signature=\"c2ln\"".to_owned());
    let e = verify(&inbound, &pem).unwrap_err();
    assert_eq!(
        (e.status_code, e.message.as_str()),
        (400, "Signature covers a header that the request lacks")
    );

    let mut inbound = received(&request);
    inbound.date = None;
    let e = verify(&inbound, &pem).unwrap_err();
    assert_eq!(e.status_code, 400);

    let inbound = received(&request);
    let e = verify(&inbound, "not a key").unwrap_err();
    assert_eq!((e.status_code, e.message.as_str()), (502, "Unreadable public key"));
}

#[test]
fn signature_params_are_read_by_name() {
    let header = "keyId=\"https://a/b#main-key\",headers=\"(request-target) host date\",signature=\"YWJj\"";
    assert_eq!(signature_param(header, "keyId"), Some("https://a/b#main-key".to_owned()));
    assert_eq!(signature_param(header, "headers"), Some("(request-target) host date".to_owned()));
    assert_eq!(signature_param(header, "signature"), Some("YWJj".to_owned()));
    assert_eq!(signature_param(header, "algorithm"), None);
    assert_eq!(signature_param("", "keyId"), None);
    assert_eq!(signature_param("keyId=\"\"", "keyId"), Some("".to_owned()));
    assert_eq!(signature_param("keyId=\"", "keyId"), None);
    assert_eq!(signature_param("keyId=abc", "keyId"), None);
    assert_eq!(signature_param("x=\"1\",keyId=\"2\",keyId=\"3\"", "keyId"), Some("2".to_owned()));
}

#[test]
fn webfinger_query_is_unsigned() {
    let request = get_webfinger("remote.example", "bob");
    assert_eq!(request.method, Method::Get);
    assert_eq!(request.url, "https://remote.example/.well-known/webfinger");
    assert_eq!(request.query.len(), 1);
    assert_eq!(request.query[0].name, "resource");
    assert_eq!(request.query[0].value, "acct:bob@remote.example");
    let headers: Vec<(&str, &str)> =
        request.headers.iter().map(|h| (h.name.as_str(), h.value.as_str())).collect();
    assert_eq!(headers, vec![("user-agent", "curl/8.4.0"), ("accept", "application/activity+json")]);
    assert_eq!(request.body, None);
}

#[test]
fn public_key_is_derived_from_the_private_key() {
    let key = new_private_key();
    let public = PublicKey::try_new("https://example.com/profiles/1", &key).unwrap();
    assert_eq!(public.id, "https://example.com/profiles/1#main-key");
    assert_eq!(public.owner, "https://example.com/profiles/1");
    assert!(public.public_key_pem.starts_with("-----BEGIN PUBLIC KEY-----"));
    assert!(public.public_key_pem.ends_with("-----END PUBLIC KEY-----"));
    let again = PublicKey::new("https://example.com/profiles/1", &key);
    assert_eq!(again.public_key_pem, public.public_key_pem);
    assert!(PublicKey::try_new("x", "not a key").is_none());
    let given = PublicKey::from_public_pem("id", "  PEM\n");
    assert_eq!((given.id.as_str(), given.public_key_pem.as_str()), ("id#main-key", "PEM"));
    assert!(CurrentProfile::new(1, "example.com", "not a key").is_none());
}
