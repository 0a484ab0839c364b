//! A model of what a route table does with a request.
//!
//! A table maps each registered path to the set of HTTP methods that reach the
//! greeter there. Every endpoint of this library is the greeter, so a matched
//! request is answered with status 200 and the greeting; a `HEAD` request gets
//! the same status with the body removed. What an unmatched request receives
//! is the HTTP library's own default and is not modelled (`None`).

use vstd::prelude::*;
use crate::greeter::greeting;

verus! {

/// A route table: path to the methods that reach the greeter on it.
pub type RouteTable = Map<Seq<char>, Set<Seq<char>>>;

/// The parts of a request a handler could look at.
pub ghost struct Request {
    pub method: Seq<char>,
    pub path: Seq<char>,
    pub query: Seq<char>,
    pub headers: Seq<(Seq<char>, Seq<char>)>,
    pub body: Seq<u8>,
}

/// A response as a client sees it.
pub ghost struct Reply {
    pub status: u16,
    pub body: Seq<char>,
}

/// Status code of a successful response.
pub const STATUS_OK: u16 = 200;

/// The greeter's own reply.
pub open spec fn greeting_reply() -> Reply {
    Reply { status: STATUS_OK, body: greeting() }
}

/// Whether the table hands a request with this method and path to the greeter.
pub open spec fn routed(table: RouteTable, method: Seq<char>, path: Seq<char>) -> bool {
    table.contains_key(path) && table[path].contains(method)
}

/// The reply to `req`; `None` where the table leaves it to the library's
/// default fallback.
pub open spec fn reply_for(table: RouteTable, req: Request) -> Option<Reply> {
    if routed(table, req.method, req.path) {
        if req.method == "HEAD"@ {
            Some(Reply { status: STATUS_OK, body: Seq::empty() })
        } else {
            Some(greeting_reply())
        }
    } else {
        None
    }
}

/// The methods that a `get` endpoint answers: `GET`, and `HEAD` without a body.
pub open spec fn get_methods() -> Set<Seq<char>> {
    set!["GET"@, "HEAD"@]
}

/// The table with no routes.
pub open spec fn no_routes() -> RouteTable {
    Map::empty()
}

/// The greeter's table: the root path, reached by `GET` (and so `HEAD`).
pub open spec fn greeter_table() -> RouteTable {
    map!["/"@ => get_methods()]
}

/// `GET /` is answered with status 200 and the greeting, whatever the
/// request's query string, headers and body hold.
pub proof fn lemma_get_root_greets(req: Request)
    requires
        req.method == "GET"@,
        req.path == "/"@,
    ensures
        reply_for(greeter_table(), req) == Some(greeting_reply()),
{
    reveal_strlit("GET");
    reveal_strlit("HEAD");
    assert(greeter_table().contains_key("/"@));
    assert(get_methods().contains("GET"@));
    assert("GET"@.len() != "HEAD"@.len());
}

/// No request other than `GET /` receives the greeter's 200 and greeting.
pub proof fn lemma_only_get_root_greets(req: Request)
    requires
        req.method != "GET"@ || req.path != "/"@,
    ensures
        reply_for(greeter_table(), req) != Some(greeting_reply()),
{
    reveal_strlit("GET");
    reveal_strlit("HEAD");
    reveal_strlit("Hello World");
    let table = greeter_table();
    if table.contains_key(req.path) {
        assert(req.path == "/"@);
        if req.method == "HEAD"@ {
            assert(greeting().len() == 11);
        } else {
            assert(!get_methods().contains(req.method));
        }
    }
}

} // verus!
