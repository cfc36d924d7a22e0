//! The route table: an exact-match mapping from method and path to what
//! the server does with the request. Only `GET` is served. Three fixed
//! paths render a page each, one returns a constant greeting, everything
//! under the assets prefix is handed to the static file server, and any
//! other request is not found.

use vstd::prelude::*;

use crate::text::starts_with;
use crate::text::str_eq;
use crate::text::str_starts_with;

verus! {

/// The request methods the router distinguishes: `GET`, and everything
/// else, which it never matches.
#[derive(Clone, Copy, Debug, PartialEq, Eq, Structural)]
pub enum Method {
    Get,
    Other,
}

/// The three pages the server renders, one template each.
#[derive(Clone, Copy, Debug, PartialEq, Eq, Structural)]
pub enum Page {
    Home,
    LearnMore,
    Jacket,
}

/// What the router decides for a request: render a page, answer the
/// greeting endpoint, hand the path to the static file server, or
/// report the path unmatched.
#[derive(Clone, Copy, Debug, PartialEq, Eq, Structural)]
pub enum Decision {
    RenderPage(Page),
    Hello,
    ServeAsset,
    NotFound,
}

/// A path the static file server is responsible for: anything under the
/// assets prefix.
pub open spec fn is_asset_path(p: Seq<char>) -> bool {
    starts_with(p, "/assets/"@)
}

/// The route table. `GET` on the three page paths renders the matching
/// page, `GET /api/hello` answers the greeting, `GET` under `/assets/`
/// goes to the file server; every other request is not found.
pub open spec fn route_spec(m: Method, p: Seq<char>) -> Decision {
    if m != Method::Get {
        Decision::NotFound
    } else if p == "/"@ {
        Decision::RenderPage(Page::Home)
    } else if p == "/learn"@ {
        Decision::RenderPage(Page::LearnMore)
    } else if p == "/jacket"@ {
        Decision::RenderPage(Page::Jacket)
    } else if p == "/api/hello"@ {
        Decision::Hello
    } else if is_asset_path(p) {
        Decision::ServeAsset
    } else {
        Decision::NotFound
    }
}

/// Match a request against the route table.
pub fn route_request(m: Method, path: &str) -> (d: Decision)
    ensures
        d == route_spec(m, path@),
{
    match m {
        Method::Other => Decision::NotFound,
        Method::Get => {
            if str_eq(path, "/") {
                Decision::RenderPage(Page::Home)
            } else if str_eq(path, "/learn") {
                Decision::RenderPage(Page::LearnMore)
            } else if str_eq(path, "/jacket") {
                Decision::RenderPage(Page::Jacket)
            } else if str_eq(path, "/api/hello") {
                Decision::Hello
            } else if str_starts_with(path, "/assets/") {
                Decision::ServeAsset
            } else {
                Decision::NotFound
            }
        },
    }
}

/// The path handed to the static file server for an asset request: the
/// request path with the assets mount prefix stripped, keeping the
/// leading slash.
pub fn asset_request_path(path: &str) -> (rest: String)
    requires
        is_asset_path(path@),
    ensures
        rest@ == path@.skip(7),
{
    proof {
        reveal_strlit("/assets/");
    }
    let n = path.unicode_len();
    let rest = path.substring_char(7, n);
    proof {
        assert(path@.subrange(7, path@.len() as int) =~= path@.skip(7));
    }
    String::from_str(rest)
}

/// The template file rendered for each page.
pub open spec fn template_path_spec(p: Page) -> Seq<char> {
    match p {
        Page::Home => "pages/home.html"@,
        Page::LearnMore => "pages/learn-more.html"@,
        Page::Jacket => "pages/jacket.html"@,
    }
}

/// The template file rendered for a page, as the renderer names it.
pub fn template_path(p: Page) -> (t: &'static str)
    ensures
        t@ == template_path_spec(p),
{
    match p {
        Page::Home => "pages/home.html",
        Page::LearnMore => "pages/learn-more.html",
        Page::Jacket => "pages/jacket.html",
    }
}

} // verus!
