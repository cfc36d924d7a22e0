//! HTTP responses as the server itself builds them: a status code, a
//! content type and a body. The handlers' outcomes (a constant greeting,
//! a rendered page, a render failure, an unmatched path) each map to one
//! fully determined response.

use vstd::prelude::*;

verus! {

/// Content type of a response built by this server.
#[derive(Clone, Copy, Debug, PartialEq, Eq, Structural)]
pub enum ContentType {
    TextHtml,
    TextPlain,
}

/// An HTTP response as far as this server decides it: status code,
/// content type, and the full body.
#[derive(Debug)]
pub struct HttpResponse {
    pub status: u16,
    pub content_type: ContentType,
    pub body: String,
}

/// The response of the greeting endpoint: `200 OK`, plain text, body
/// exactly `Hello!`.
pub open spec fn is_hello_response(r: HttpResponse) -> bool {
    &&& r.status == 200
    &&& r.content_type == ContentType::TextPlain
    &&& r.body@ == "Hello!"@
}

/// Build the greeting endpoint's response.
pub fn hello_response() -> (r: HttpResponse)
    ensures
        is_hello_response(r),
{
    HttpResponse {
        status: 200,
        content_type: ContentType::TextPlain,
        body: String::from_str("Hello!"),
    }
}

/// What a failed page render reports before the renderer's own error text.
pub open spec fn render_error_prefix() -> Seq<char> {
    "Failed to render template. Error: "@
}

/// A page served whole: `200 OK`, HTML, body exactly the rendered page.
pub open spec fn is_page_response(r: HttpResponse, html: Seq<char>) -> bool {
    &&& r.status == 200
    &&& r.content_type == ContentType::TextHtml
    &&& r.body@ == html
}

/// A failed render reported to the client: `500`, plain text, the error
/// text after a fixed prefix.
pub open spec fn is_render_error_response(r: HttpResponse, err: Seq<char>) -> bool {
    &&& r.status == 500
    &&& r.content_type == ContentType::TextPlain
    &&& r.body@ == render_error_prefix() + err
}

/// Turn a page render's outcome into the response the client gets: the
/// rendered HTML whole on success, a `500` carrying the error text on
/// failure.
pub fn template_response(render: Result<String, String>) -> (r: HttpResponse)
    ensures
        (render matches Ok(html) ==> is_page_response(r, html@)),
        (render matches Err(err) ==> is_render_error_response(r, err@)),
{
    match render {
        Ok(html) => HttpResponse { status: 200, content_type: ContentType::TextHtml, body: html },
        Err(err) => {
            let mut body = String::from_str("Failed to render template. Error: ");
            body.append(err.as_str());
            HttpResponse { status: 500, content_type: ContentType::TextPlain, body }
        },
    }
}

/// An unmatched request's response: `404` with no body.
pub open spec fn is_not_found_response(r: HttpResponse) -> bool {
    &&& r.status == 404
    &&& r.body@ == Seq::<char>::empty()
}

/// Build the response for a request nothing matched.
pub fn not_found_response() -> (r: HttpResponse)
    ensures
        is_not_found_response(r),
{
    HttpResponse { status: 404, content_type: ContentType::TextPlain, body: String::new() }
}

} // verus!
