//! The routes of the backend alone.

use crate::routes::{is_route, no_overlap, Handler, Method, Route};
use vstd::prelude::*;

verus! {

/// The routes of the backend: it answers `GET` on `/n`.
pub fn routes() -> (r: Vec<Route>)
    ensures
        r@.len() == 1,
        is_route(r@[0], "/n"@, Method::Get, Handler::Backend),
        no_overlap(r@),
{
    let mut table: Vec<Route> = Vec::new();
    table.push(Route { path: "/n", method: Method::Get, handler: Handler::Backend });
    table
}

} // verus!
