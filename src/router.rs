//! The axum router of the greeter, assembled from verified steps.
//!
//! axum's router is opaque here. What the library needs of it is named by
//! `routes_of` (path to methods served) and `methods_of` (methods served by
//! one path's endpoint), and each axum call it makes states its effect on
//! those names.

use vstd::prelude::*;
use crate::greeter::hello_world;
use crate::routes::{get_methods, greeter_table, no_routes, RouteTable};

verus! {

#[verifier::external_type_specification]
#[verifier::external_body]
#[verifier::reject_recursive_types(S)]
pub struct ExRouter<S>(axum::Router<S>);

#[verifier::external_type_specification]
#[verifier::external_body]
#[verifier::reject_recursive_types(S)]
#[verifier::reject_recursive_types(E)]
pub struct ExMethodRouter<S, E>(axum::routing::MethodRouter<S, E>);

#[verifier::external_type_specification]
pub struct ExAxumService(shuttle_axum::AxumService);

/// The routes a router holds: each path with the methods that reach an
/// endpoint there.
pub uninterp spec fn routes_of(r: axum::Router) -> Map<Seq<char>, Set<Seq<char>>>;

/// The methods for which a method router hands the request to its handler.
pub uninterp spec fn methods_of(m: axum::routing::MethodRouter) -> Set<Seq<char>>;

/// A path that axum registers as one static route: it starts with `/` and
/// has no capture, wildcard or escape syntax.
pub open spec fn plain_path(p: Seq<char>) -> bool {
    &&& p.len() > 0
    &&& p[0] == '/'
    &&& forall|i: int|
        0 <= i < p.len() ==> p[i] != '{' && p[i] != '}' && p[i] != ':' && p[i] != '*'
}

/// Every path of the table is a plain one.
pub open spec fn plain_table(t: RouteTable) -> bool {
    forall|p: Seq<char>| t.contains_key(p) ==> plain_path(p)
}

/// Relies on `axum::Router::new`: a router with no routes, which answers
/// every request with its default fallback.
#[verifier::external_body]
fn empty_router() -> (r: axum::Router)
    ensures
        routes_of(r) == no_routes(),
{
    axum::Router::new()
}

/// Relies on `axum::routing::get`: a method router whose handler serves
/// `GET`, and `HEAD` with the body removed. The handler is `hello_world`.
#[verifier::external_body]
fn greeter_get() -> (r: axum::routing::MethodRouter)
    ensures
        methods_of(r) == get_methods(),
{
    axum::routing::get(|| std::future::ready(hello_world()))
}

/// Relies on `axum::Router::route`: the path is added with the method
/// router's methods. It panics on a path that is empty, does not start with
/// `/`, or conflicts with a route already there; a plain path that is new to
/// a router of plain paths does none of these.
#[verifier::external_body]
fn add_route(router: axum::Router, path: &str, m: axum::routing::MethodRouter) -> (r: axum::Router)
    requires
        plain_path(path@),
        plain_table(routes_of(router)),
        !routes_of(router).contains_key(path@),
    ensures
        routes_of(r) == routes_of(router).insert(path@, methods_of(m)),
{
    router.route(path, m)
}

/// The greeter's router: one route, `GET /`, to `hello_world`.
pub fn app() -> (r: axum::Router)
    ensures
        routes_of(r) == greeter_table(),
{
    let router = empty_router();
    let root = greeter_get();
    proof {
        reveal_strlit("/");
    }
    add_route(router, "/", root)
}

/// The application object handed to the hosting platform: the greeter's
/// router, wrapped for the platform to bind and serve.
pub fn service() -> (r: shuttle_axum::AxumService)
    ensures
        routes_of(r.0) == greeter_table(),
{
    shuttle_axum::AxumService(app())
}

} // verus!
