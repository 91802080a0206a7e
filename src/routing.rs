use vstd::prelude::*;

verus! {

/// The request methods that the service tells apart.
#[derive(Clone, Copy, Debug, PartialEq, Eq)]
pub enum Method {
    Get,
    Post,
    Other,
}

/// Where a request is dispatched.
#[derive(Clone, Copy, Debug, PartialEq, Eq)]
pub enum Route {
    HealthCheck,
    Subscribe,
    NotFound,
}

/// A response: a status code and a body, which this service leaves empty.
#[derive(Debug, PartialEq, Eq)]
pub struct Response {
    pub status: u16,
    pub body: Vec<u8>,
}

/// The route table: exact matches of method and path, nothing else.
pub open spec fn route_of(method: Method, path: Seq<char>) -> Route {
    if method is Get && path == "/health_check"@ {
        Route::HealthCheck
    } else if method is Post && path == "/subscriptions"@ {
        Route::Subscribe
    } else {
        Route::NotFound
    }
}

/// Picks the handler for a request from its method and its path (without the
/// query string).
pub fn route(method: Method, path: &str) -> (r: Route)
    ensures
        r == route_of(method, path@),
{
    let path = path.to_owned();
    match method {
        Method::Get => if path == "/health_check".to_owned() {
            Route::HealthCheck
        } else {
            Route::NotFound
        },
        Method::Post => if path == "/subscriptions".to_owned() {
            Route::Subscribe
        } else {
            Route::NotFound
        },
        Method::Other => Route::NotFound,
    }
}

impl Response {
    /// A response with the given status and an empty body.
    pub fn empty(status: u16) -> (r: Response)
        ensures
            r.status == status,
            r.body@.len() == 0,
    {
        Response { status, body: Vec::new() }
    }
}

/// The health probe: always 200 with an empty body.
pub fn health_check() -> (r: Response)
    ensures
        r.status == 200,
        r.body@.len() == 0,
{
    Response::empty(200)
}

/// The reply to a request that no route matches.
pub fn not_found() -> (r: Response)
    ensures
        r.status == 404,
        r.body@.len() == 0,
{
    Response::empty(404)
}

} // verus!
