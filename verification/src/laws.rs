//! The laws the server obeys, each proved once and for all over the
//! route table and the response contracts.

use vstd::prelude::*;

use crate::response::HttpResponse;
use crate::response::is_hello_response;
use crate::response::is_page_response;
use crate::routing::Decision;
use crate::routing::Method;
use crate::routing::Page;
use crate::routing::is_asset_path;
use crate::routing::route_spec;
use crate::startup::StartupError;
use crate::startup::parse_u16_spec;
use crate::startup::startup_port_spec;

verus! {

/// The fixed route table, spelled out: what each defined path maps to
/// under `GET`.
pub proof fn lemma_route_table()
    ensures
        route_spec(Method::Get, "/"@) == Decision::RenderPage(Page::Home),
        route_spec(Method::Get, "/learn"@) == Decision::RenderPage(Page::LearnMore),
        route_spec(Method::Get, "/jacket"@) == Decision::RenderPage(Page::Jacket),
        route_spec(Method::Get, "/api/hello"@) == Decision::Hello,
{
    reveal_strlit("/");
    reveal_strlit("/learn");
    reveal_strlit("/jacket");
    reveal_strlit("/api/hello");
    assert("/"@.len() == 1);
    assert("/learn"@.len() == 6);
    assert("/jacket"@.len() == 7);
    assert("/api/hello"@.len() == 10);
}

/// A `GET` on any of the three page paths renders a page, and a
/// successful render is served whole: status 200, the body exactly the
/// rendered page — hence non-empty whenever the page is, and free of
/// any error report the server could have added.
pub proof fn lemma_page_route_success(m: Method, p: Seq<char>, html: Seq<char>, r: HttpResponse)
    requires
        m == Method::Get,
        p == "/"@ || p == "/learn"@ || p == "/jacket"@,
        is_page_response(r, html),
        html.len() > 0,
    ensures
        route_spec(m, p) matches Decision::RenderPage(_),
        r.status == 200,
        r.body@ == html,
        r.body@.len() > 0,
{
}

/// The greeting endpoint has one response: any two responses meeting
/// its contract agree in status, content type and body, so repeated
/// requests are answered identically.
pub proof fn lemma_hello_idempotent(r1: HttpResponse, r2: HttpResponse)
    requires
        is_hello_response(r1),
        is_hello_response(r2),
    ensures
        r1.status == r2.status,
        r1.content_type == r2.content_type,
        r1.body@ == r2.body@,
{
}

/// A request for any path outside the route table — none of the three
/// page paths, not the greeting path, not under the assets prefix — or
/// with any method but `GET`, is not found.
pub proof fn lemma_unmatched_not_found(m: Method, p: Seq<char>)
    requires
        m != Method::Get || !(p == "/"@ || p == "/learn"@ || p == "/jacket"@ || p == "/api/hello"@
            || is_asset_path(p)),
    ensures
        route_spec(m, p) == Decision::NotFound,
{
}

/// Exactly the `GET` requests under the assets prefix are delegated to
/// the static file server, and the path handed on — the request path
/// without the mount prefix — resolves back to the request path when
/// the prefix is put in front again.
pub proof fn lemma_asset_delegation(m: Method, p: Seq<char>)
    requires
        m == Method::Get,
    ensures
        route_spec(m, p) == Decision::ServeAsset <==> is_asset_path(p),
        is_asset_path(p) ==> "/assets"@ + p.skip(7) == p,
{
    reveal_strlit("/");
    reveal_strlit("/learn");
    reveal_strlit("/jacket");
    reveal_strlit("/api/hello");
    reveal_strlit("/assets");
    reveal_strlit("/assets/");
    if is_asset_path(p) {
        assert(forall|i: int| 0 <= i < 8 ==> p[i] == p.subrange(0, 8)[i]);
        if p == "/api/hello"@ {
            assert(p.subrange(0, 8)[2] == p[2]);
            assert(false);
        }
        assert(("/assets"@ + p.skip(7)) =~= p);
    }
}

/// Startup fails — before any listener exists — exactly when the port
/// variable is absent or does not parse as a 16-bit unsigned integer;
/// a port is only ever adopted when the variable parses to it.
pub proof fn lemma_bad_port_fails_startup(var: Option<Seq<char>>)
    ensures
        var matches Option::None ==> startup_port_spec(var) == Result::<u16,
            StartupError,
        >::Err(StartupError::MissingPort),
        (var matches Option::Some(s) && parse_u16_spec(s) matches Option::None)
            ==> startup_port_spec(var) == Result::<u16, StartupError>::Err(
            StartupError::InvalidPort,
        ),
        startup_port_spec(var) matches Result::Ok(port) ==> (var matches Option::Some(s)
            && parse_u16_spec(s) == Option::Some(port)),
{
}

} // verus!
