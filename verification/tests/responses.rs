use static_web_server::response::ContentType;
use static_web_server::response::hello_response;
use static_web_server::response::not_found_response;
use static_web_server::response::template_response;

#[test]
fn hello_is_exactly_hello() {
    let r = hello_response();
    assert_eq!(r.status, 200);
    assert_eq!(r.content_type, ContentType::TextPlain);
    assert_eq!(r.body, "Hello!");
}

#[test]
fn hello_is_idempotent() {
    let first = hello_response();
    let second = hello_response();
    let third = hello_response();
    assert_eq!(first.status, second.status);
    assert_eq!(first.body, second.body);
    assert_eq!(first.content_type, second.content_type);
    assert_eq!(second.body, third.body);
}

#[test]
fn successful_render_is_served_whole() {
    let html = String::from("<html><body>welcome</body></html>");
    let r = template_response(Ok(html.clone()));
    assert_eq!(r.status, 200);
    assert_eq!(r.content_type, ContentType::TextHtml);
    assert_eq!(r.body, html);
    assert!(!r.body.is_empty());
}

#[test]
fn failed_render_reports_the_error() {
    let r = template_response(Err(String::from("missing block")));
    assert_eq!(r.status, 500);
    assert_eq!(r.content_type, ContentType::TextPlain);
    assert_eq!(r.body, "Failed to render template. Error: missing block");
}

#[test]
fn not_found_has_empty_body() {
    let r = not_found_response();
    assert_eq!(r.status, 404);
    assert_eq!(r.body, "");
}
