//! One request cycle end to end, at the level of the decisions the
//! server makes: configure port 8080, answer the greeting, reject an
//! undefined path.

use static_web_server::response::hello_response;
use static_web_server::response::not_found_response;
use static_web_server::routing::Decision;
use static_web_server::routing::Method;
use static_web_server::routing::route_request;
use static_web_server::startup::startup_port;
use static_web_server::text::str_eq;
use static_web_server::text::str_starts_with;

#[test]
fn serve_on_8080_greet_and_reject() {
    let port = startup_port(Some(String::from("8080")));
    assert_eq!(port, Ok(8080));

    let d = route_request(Method::Get, "/api/hello");
    assert_eq!(d, Decision::Hello);
    let r = hello_response();
    assert_eq!(r.status, 200);
    assert_eq!(r.body, "Hello!");

    let d = route_request(Method::Get, "/does-not-exist");
    assert_eq!(d, Decision::NotFound);
    let r = not_found_response();
    assert_eq!(r.status, 404);
}

#[test]
fn string_helpers_compare_by_characters() {
    assert!(str_eq("café", "café"));
    assert!(!str_eq("café", "cafe"));
    assert!(!str_eq("abc", "abcd"));
    assert!(str_starts_with("/assets/img/a.png", "/assets/"));
    assert!(!str_starts_with("/assetsimg", "/assets/"));
    assert!(!str_starts_with("/a", "/assets/"));
    assert!(str_starts_with("anything", ""));
}
