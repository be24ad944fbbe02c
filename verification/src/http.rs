//! Request routing: decides, from the raw bytes of a request, which status
//! line and file the response is built from, and whether the handler pauses
//! before responding.

use vstd::prelude::*;
use vstd::string::{StringExecFns, StringSliceAdditionalSpecFns};

verus! {

/// Whether `data` begins with `prefix`.
pub open spec fn starts_with(data: Seq<u8>, prefix: Seq<u8>) -> bool {
    prefix.len() <= data.len() && data.take(prefix.len() as int) == prefix
}

/// The request line that asks for the front page.
pub open spec fn root_line() -> Seq<u8> {
    "GET / HTTP/1.1\r\n".spec_bytes()
}

/// The request line that asks the handler to pause before responding.
pub open spec fn sleep_line() -> Seq<u8> {
    "GET /sleep HTTP/1.1\r\n".spec_bytes()
}

/// What a request is answered with.
#[derive(Debug)]
pub struct Route {
    /// The status line the response starts with.
    pub status_line: String,
    /// The file whose contents form the response body.
    pub filename: String,
    /// Whether the handler pauses before building the response.
    pub delay: bool,
}

/// Whether the byte slice `data` begins with the byte slice `prefix`.
fn slice_starts_with(data: &[u8], prefix: &[u8]) -> (r: bool)
    ensures
        r == starts_with(data@, prefix@),
{
    let n = prefix.len();
    if data.len() < n {
        return false;
    }
    let mut i: usize = 0;
    while i < n
        invariant
            i <= n,
            n == prefix@.len(),
            n <= data@.len(),
            forall|j: int| 0 <= j < i ==> data@[j] == prefix@[j],
        decreases n - i,
    {
        if data[i] != prefix[i] {
            return false;
        }
        i = i + 1;
    }
    proof {
        assert(data@.take(n as int) =~= prefix@);
    }
    true
}

/// Decides how a request is answered, from its raw bytes alone.
///
/// A request for the front page is served `hello.html` with status 200; the
/// sleeping variant is served the same after a pause; anything else is served
/// `404.html` with status 404.
pub fn route_request(request: &[u8]) -> (route: Route)
    ensures
        starts_with(request@, root_line()) ==> !route.delay && route.status_line@
            == "HTTP/1.1 200 OK\r\n\r\n"@ && route.filename@ == "hello.html"@,
        !starts_with(request@, root_line()) && starts_with(request@, sleep_line())
            ==> route.delay && route.status_line@ == "HTTP/1.1 200 OK\r\n\r\n"@
            && route.filename@ == "hello.html"@,
        !starts_with(request@, root_line()) && !starts_with(request@, sleep_line())
            ==> !route.delay && route.status_line@ == "HTTP/1.1 404 NOT FOUND\r\n\r\n"@
            && route.filename@ == "404.html"@,
{
    let root = "GET / HTTP/1.1\r\n".as_bytes();
    let sleep = "GET /sleep HTTP/1.1\r\n".as_bytes();
    if slice_starts_with(request, root) {
        Route {
            status_line: "HTTP/1.1 200 OK\r\n\r\n".to_owned(),
            filename: "hello.html".to_owned(),
            delay: false,
        }
    } else if slice_starts_with(request, sleep) {
        Route {
            status_line: "HTTP/1.1 200 OK\r\n\r\n".to_owned(),
            filename: "hello.html".to_owned(),
            delay: true,
        }
    } else {
        Route {
            status_line: "HTTP/1.1 404 NOT FOUND\r\n\r\n".to_owned(),
            filename: "404.html".to_owned(),
            delay: false,
        }
    }
}

/// Glues the status line and the body together into the bytes sent back.
pub fn build_response(status_line: &str, contents: &str) -> (resp: String)
    ensures
        resp@ == status_line@ + contents@,
{
    let mut resp = status_line.to_owned();
    resp.append(contents);
    resp
}

} // verus!
