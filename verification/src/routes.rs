//! The route table.

use vstd::prelude::*;

verus! {

/// The path of the liveness probe.
pub const HEALTH_PATH: &'static str = "/health";

/// The path of the listing.
pub const BOOKS_PATH: &'static str = "/books";

/// A request method.
#[derive(Clone, Copy, Debug, PartialEq, Eq, Structural)]
pub enum Method {
    Get,
    Head,
    Post,
    Put,
    Patch,
    Delete,
    Options,
}

/// The two handlers of the service.
#[derive(Clone, Copy, Debug, PartialEq, Eq, Structural)]
pub enum Handler {
    /// [`crate::listing::health_check`]
    Health,
    /// [`crate::listing::book_list`]
    Books,
}

/// One line of the route table: requests with this method and path go to
/// this handler.
#[derive(Clone, Copy, Debug, PartialEq, Eq)]
pub struct Route {
    pub method: Method,
    pub path: &'static str,
    pub handler: Handler,
}

/// The mathematical value of a [`Route`].
pub struct RouteView {
    pub method: Method,
    pub path: Seq<char>,
    pub handler: Handler,
}

impl View for Route {
    type V = RouteView;

    open spec fn view(&self) -> RouteView {
        RouteView { method: self.method, path: self.path@, handler: self.handler }
    }
}

/// The whole route table: the probe and the listing, both under `GET`.
pub open spec fn route_table() -> Seq<RouteView> {
    seq![
        RouteView { method: Method::Get, path: HEALTH_PATH@, handler: Handler::Health },
        RouteView { method: Method::Get, path: BOOKS_PATH@, handler: Handler::Books },
    ]
}

/// The handler that the table binds to `method` and `path`, if it binds one.
pub open spec fn bound(method: Method, path: Seq<char>) -> Option<Handler> {
    if exists|i: int|
        0 <= i < route_table().len() && route_table()[i].method == method && route_table()[i].path
            == path {
        let i = choose|i: int|
            0 <= i < route_table().len() && route_table()[i].method == method
                && route_table()[i].path == path;
        Some(route_table()[i].handler)
    } else {
        None
    }
}

/// The routes to register, in this order.
pub fn routes() -> (table: Vec<Route>)
    ensures
        table@.map_values(|r: Route| r@) == route_table(),
{
    let mut table: Vec<Route> = Vec::new();
    table.push(Route { method: Method::Get, path: HEALTH_PATH, handler: Handler::Health });
    table.push(Route { method: Method::Get, path: BOOKS_PATH, handler: Handler::Books });
    assert(table@.map_values(|r: Route| r@) =~= route_table());
    table
}

/// The table binds exactly two pairs of method and path, each to its own
/// handler: `GET /health` to the probe and `GET /books` to the listing.
/// Nothing else is bound, and no pair is bound twice.
pub proof fn law_exactly_two_routes(method: Method, path: Seq<char>)
    ensures
        route_table().len() == 2,
        HEALTH_PATH@ != BOOKS_PATH@,
        bound(method, path) == if method == Method::Get && path == HEALTH_PATH@ {
            Some(Handler::Health)
        } else if method == Method::Get && path == BOOKS_PATH@ {
            Some(Handler::Books)
        } else {
            None::<Handler>
        },
{
    reveal_strlit("/health");
    reveal_strlit("/books");
    assert(HEALTH_PATH@.len() == 7);
    assert(BOOKS_PATH@.len() == 6);
    let table = route_table();
    if method == Method::Get && path == HEALTH_PATH@ {
        assert(table[0].method == method && table[0].path == path);
    } else if method == Method::Get && path == BOOKS_PATH@ {
        assert(table[1].method == method && table[1].path == path);
    }
}

} // verus!
