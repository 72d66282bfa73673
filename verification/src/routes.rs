//! The static route table: ordered `(method, path)` entries registered before
//! the server starts serving, and the encoding of each entry into the exact
//! request-line bytes the dispatcher matches against.

use vstd::prelude::*;
use vstd::string::StrSliceExecFns;
use vstd::string::StringSliceAdditionalSpecFns;

verus! {

/// The two request methods the route table distinguishes.
#[derive(Clone, Copy, PartialEq, Eq, Structural, Debug)]
pub enum Method {
    Get,
    Post,
}

/// One route table entry: an immutable `(method, path)` pair. The path is kept
/// as raw bytes, since matching is a byte-prefix test on the wire data.
pub struct Route {
    pub method: Method,
    pub path: Vec<u8>,
}

/// The bytes `"GET /"`: the canonical request line of a `Get` route opens with
/// the method name and a leading slash before the path.
pub open spec fn spec_get_prefix() -> Seq<u8> {
    seq![71u8, 69u8, 84u8, 32u8, 47u8]
}

/// The bytes `"POST "`: the canonical request line of a `Post` route carries
/// the path verbatim, with no leading slash added.
pub open spec fn spec_post_prefix() -> Seq<u8> {
    seq![80u8, 79u8, 83u8, 84u8, 32u8]
}

/// The bytes `" HTTP/1.1\r\n"` closing every canonical request line.
pub open spec fn spec_line_suffix() -> Seq<u8> {
    seq![32u8, 72u8, 84u8, 84u8, 80u8, 47u8, 49u8, 46u8, 49u8, 13u8, 10u8]
}

/// The canonical request line of a route: the exact bytes a request must open
/// with for the route to match.
pub open spec fn spec_request_line(method: Method, path: Seq<u8>) -> Seq<u8> {
    match method {
        Method::Get => spec_get_prefix() + path + spec_line_suffix(),
        Method::Post => spec_post_prefix() + path + spec_line_suffix(),
    }
}

/// A canonical request line is never empty and never opens with a NUL byte:
/// it always starts with the method name.
pub proof fn lemma_request_line_opens_with_method(method: Method, path: Seq<u8>)
    ensures
        spec_request_line(method, path).len() > 0,
        spec_request_line(method, path)[0] == 71u8 || spec_request_line(method, path)[0] == 80u8,
{
}

impl Route {
    /// Record one `(method, path)` pair, copying the path bytes out of the
    /// registered string.
    pub fn new(method: Method, path: &str) -> (r: Route)
        ensures
            r.method == method,
            r.path@ == path.spec_bytes(),
    {
        Route { method, path: path.as_bytes_vec() }
    }
}

/// The server configuration: an ordered route table, built once by `get` and
/// `post` calls before serving begins and immutable afterwards.
pub struct Server {
    pub routes: Vec<Route>,
}

impl Server {
    /// A server with an empty route table.
    pub fn new() -> (s: Server)
        ensures
            s.routes@.len() == 0,
    {
        Server { routes: Vec::new() }
    }

    /// Append a `Get` route for `path`. Paths are not validated and duplicates
    /// are permitted; declaration order is what matching goes by.
    pub fn get(&mut self, path: &str)
        ensures
            final(self).routes@.len() == old(self).routes@.len() + 1,
            forall|i: int|
                0 <= i < old(self).routes@.len() ==> final(self).routes@[i] == old(
                    self,
                ).routes@[i],
            final(self).routes@.last().method == Method::Get,
            final(self).routes@.last().path@ == path.spec_bytes(),
    {
        self.routes.push(Route::new(Method::Get, path));
    }

    /// Append a `Post` route for `path`, under the same rules as `get`.
    pub fn post(&mut self, path: &str)
        ensures
            final(self).routes@.len() == old(self).routes@.len() + 1,
            forall|i: int|
                0 <= i < old(self).routes@.len() ==> final(self).routes@[i] == old(
                    self,
                ).routes@[i],
            final(self).routes@.last().method == Method::Post,
            final(self).routes@.last().path@ == path.spec_bytes(),
    {
        self.routes.push(Route::new(Method::Post, path));
    }

    /// Encode every route into its canonical request line, in declaration
    /// order: the byte patterns the dispatcher matches raw requests against.
    pub fn process_routes(&self) -> (r: Vec<Vec<u8>>)
        ensures
            r@.len() == self.routes@.len(),
            forall|i: int|
                0 <= i < r@.len() ==> #[trigger] r@[i]@ == spec_request_line(
                    self.routes@[i].method,
                    self.routes@[i].path@,
                ),
    {
        let mut r: Vec<Vec<u8>> = Vec::new();
        let n = self.routes.len();
        for k in 0..n
            invariant
                n == self.routes@.len(),
                r@.len() == k,
                forall|i: int|
                    0 <= i < k ==> #[trigger] r@[i]@ == spec_request_line(
                        self.routes@[i].method,
                        self.routes@[i].path@,
                    ),
        {
            r.push(encode_request_line(&self.routes[k]));
        }
        r
    }
}

/// Build the canonical request-line bytes of one route.
fn encode_request_line(route: &Route) -> (line: Vec<u8>)
    ensures
        line@ == spec_request_line(route.method, route.path@),
{
    let mut line: Vec<u8> = Vec::new();
    match route.method {
        Method::Get => {
            line.push(71u8);
            line.push(69u8);
            line.push(84u8);
            line.push(32u8);
            line.push(47u8);
            assert(line@ =~= spec_get_prefix());
        },
        Method::Post => {
            line.push(80u8);
            line.push(79u8);
            line.push(83u8);
            line.push(84u8);
            line.push(32u8);
            assert(line@ =~= spec_post_prefix());
        },
    }
    let ghost prefix = line@;
    let m = route.path.len();
    for k in 0..m
        invariant
            m == route.path@.len(),
            line@ == prefix + route.path@.subrange(0, k as int),
    {
        line.push(route.path[k]);
        assert(line@ =~= prefix + route.path@.subrange(0, k + 1));
    }
    assert(route.path@.subrange(0, m as int) =~= route.path@);
    line.push(32u8);
    line.push(72u8);
    line.push(84u8);
    line.push(84u8);
    line.push(80u8);
    line.push(47u8);
    line.push(49u8);
    line.push(46u8);
    line.push(49u8);
    line.push(13u8);
    line.push(10u8);
    assert(line@ =~= prefix + route.path@ + spec_line_suffix());
    line
}

} // verus!
