use vstd::prelude::*;
use vstd::string::*;
use crate::routing::{Handler, Method, PathPattern, Route};

pub mod create;
pub mod env;
pub mod greet;
pub mod hello;
pub mod search;

verus! {

/// The fixed greeting of the gateway.
#[derive(Debug)]
pub struct HelloResponse {
    pub message: String,
}

/// Why a local handler turns a request down.
#[derive(Clone, Copy, Debug, PartialEq, Eq, Structural)]
pub enum ApiError {
    /// A required field is missing or blank.
    BadRequest,
}

impl ApiError {
    /// The status code that stands for the error.
    pub open spec fn status_code(self) -> u16 {
        400
    }

    /// The status code sent to the client.
    pub fn status(self) -> (r: u16)
        ensures
            r == self.status_code(),
    {
        400
    }
}

/// A route with a fixed path.
pub open spec fn is_exact_route(r: Route, method: Method, path: Seq<char>, handler: Handler) -> bool {
    &&& r.method == method
    &&& r.handler == handler
    &&& r.pattern matches PathPattern::Exact(p) && p@ == path
}

/// A route with a fixed prefix and one named segment behind it.
pub open spec fn is_segment_route(r: Route, method: Method, prefix: Seq<char>, handler: Handler) -> bool {
    &&& r.method == method
    &&& r.handler == handler
    &&& r.pattern matches PathPattern::Segment(p) && p@ == prefix
}

/// Answers with the fixed greeting.
pub fn hello() -> (r: HelloResponse)
    ensures
        r.message@ == "Hello World from Rust!"@,
{
    HelloResponse { message: String::from_str("Hello World from Rust!") }
}

/// The routes of the fixed greeting, `GET /hello` and `GET /api/hello`: both are
/// answered by `hello`.
pub fn routes() -> (r: Vec<Route>)
    ensures
        r@.len() == 2,
        is_exact_route(r@[0], Method::Get, "/hello"@, Handler::Hello),
        is_exact_route(r@[1], Method::Get, "/api/hello"@, Handler::Hello),
{
    let mut v: Vec<Route> = Vec::new();
    v.push(
        Route {
            method: Method::Get,
            pattern: PathPattern::Exact(String::from_str("/hello")),
            handler: Handler::Hello,
        },
    );
    v.push(
        Route {
            method: Method::Get,
            pattern: PathPattern::Exact(String::from_str("/api/hello")),
            handler: Handler::Hello,
        },
    );
    v
}

} // verus!
