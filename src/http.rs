//! Routing of a request line and rendering of the response for the static
//! file responder that the pool runs as its jobs.

use vstd::prelude::*;
use vstd::utf8::encode_utf8;
use crate::decimal::{decimal, push_decimal};

verus! {

/// Where a request line leads.
#[derive(Clone, Copy, Debug, PartialEq, Eq, Structural)]
pub enum Route {
    /// `GET / HTTP/1.1`: the index page.
    Index,
    /// `GET /sleep HTTP/1.1`: the index page, after an artificial delay.
    SlowIndex,
    /// Anything else: the error page.
    NotFound,
}

/// The route of a request line: an exact match of the whole line.
pub open spec fn route_of(line: Seq<char>) -> Route {
    if line == "GET / HTTP/1.1"@ {
        Route::Index
    } else if line == "GET /sleep HTTP/1.1"@ {
        Route::SlowIndex
    } else {
        Route::NotFound
    }
}

/// The status line that answers a route.
pub open spec fn status_of(r: Route) -> Seq<char> {
    match r {
        Route::NotFound => "HTTP/1.1 400 NOT FOUND"@,
        _ => "HTTP/1.1 200 OK"@,
    }
}

/// The file whose contents answer a route.
pub open spec fn file_of(r: Route) -> Seq<char> {
    match r {
        Route::NotFound => "404.html"@,
        _ => "index.html"@,
    }
}

/// The number of bytes of the UTF-8 encoding of `s`.
pub open spec fn byte_len(s: Seq<char>) -> nat {
    encode_utf8(s).len()
}

/// A response: the status line, a `Content-Length` header giving the body's
/// length in bytes, an empty line, and the body.
pub open spec fn html_response(status: Seq<char>, body: Seq<char>) -> Seq<char> {
    status + "\r\nContent-Length: "@ + decimal(byte_len(body)) + "\r\n\r\n"@ + body
}

/// Whether two texts are the same.
fn same_text(a: &str, b: &str) -> (r: bool)
    ensures
        r == (a@ == b@),
{
    a.to_owned() == b.to_owned()
}

/// Classifies a request line.
pub fn route_request(line: &str) -> (r: Route)
    ensures
        r == route_of(line@),
{
    if same_text(line, "GET / HTTP/1.1") {
        Route::Index
    } else if same_text(line, "GET /sleep HTTP/1.1") {
        Route::SlowIndex
    } else {
        Route::NotFound
    }
}

impl Route {
    /// The status line of the response.
    pub fn status_line(&self) -> (r: &'static str)
        ensures
            r@ == status_of(*self),
    {
        match self {
            Route::NotFound => "HTTP/1.1 400 NOT FOUND",
            _ => "HTTP/1.1 200 OK",
        }
    }

    /// The name of the file that holds the response body.
    pub fn file_name(&self) -> (r: &'static str)
        ensures
            r@ == file_of(*self),
    {
        match self {
            Route::NotFound => "404.html",
            _ => "index.html",
        }
    }

    /// Whether the response is held back by an artificial delay.
    pub fn delays(&self) -> (r: bool)
        ensures
            r == (*self == Route::SlowIndex),
    {
        match self {
            Route::SlowIndex => true,
            _ => false,
        }
    }
}

/// Renders a response with the given status line and body.
pub fn render_html_resp(status_line: &str, contents: &str) -> (r: String)
    requires
        byte_len(contents@) <= usize::MAX,
    ensures
        r@ == html_response(status_line@, contents@),
{
    let mut out = status_line.to_owned();
    out.append("\r\nContent-Length: ");
    push_decimal(&mut out, contents.len());
    out.append("\r\n\r\n");
    out.append(contents);
    assert(out@ =~= html_response(status_line@, contents@));
    out
}

} // verus!
