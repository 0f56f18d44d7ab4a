//! The routes that the service answers.
//!
//! A route table is plain data: which handler answers which method on
//! which path. The server is built from it elsewhere. No two routes of a
//! table may claim the same method on the same path.

use vstd::prelude::*;

pub mod backend;

verus! {

/// The HTTP method of a route.
#[derive(Clone, Copy, Debug, PartialEq, Eq, Structural)]
pub enum Method {
    Get,
    Post,
}

/// What answers a route.
#[derive(Clone, Copy, Debug, PartialEq, Eq, Structural)]
pub enum Handler {
    /// The sample-size greeting of the backend.
    Backend,
}

/// One route: `handler` answers `method` on `path`.
#[derive(Clone, Copy, Debug)]
pub struct Route {
    pub path: &'static str,
    pub method: Method,
    pub handler: Handler,
}

/// `route` is the route on which `handler` answers `method` on `path`.
pub open spec fn is_route(route: Route, path: Seq<char>, method: Method, handler: Handler) -> bool {
    route.path@ == path && route.method == method && route.handler == handler
}

/// No two routes of `table` claim the same method on the same path.
pub open spec fn no_overlap(table: Seq<Route>) -> bool {
    forall|i: int, j: int|
        0 <= i < j < table.len() ==> !((#[trigger] table[i]).path@ == (#[trigger] table[j]).path@
            && table[i].method == table[j].method)
}

/// The routes of the service: the backend answers `GET` and `POST` on
/// `/n`.
pub fn routes() -> (r: Vec<Route>)
    ensures
        r@.len() == 2,
        is_route(r@[0], "/n"@, Method::Get, Handler::Backend),
        is_route(r@[1], "/n"@, Method::Post, Handler::Backend),
        no_overlap(r@),
{
    let mut table: Vec<Route> = Vec::new();
    table.push(Route { path: "/n", method: Method::Get, handler: Handler::Backend });
    table.push(Route { path: "/n", method: Method::Post, handler: Handler::Backend });
    table
}

} // verus!
