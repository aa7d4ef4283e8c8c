use vstd::prelude::*;
use vstd::string::*;
use crate::api::is_exact_route;
use crate::routing::{Handler, Method, PathPattern, Route};

verus! {

/// The greeting of the API, with its status and version.
#[derive(Debug)]
pub struct ApiResponse {
    pub message: String,
    pub status: String,
    pub version: String,
}

/// The route of this endpoint: `GET /api/hello`. The gateway's own table does not hold
/// it: there the path is answered with the fixed greeting.
pub fn routes() -> (r: Vec<Route>)
    ensures
        r@.len() == 1,
        is_exact_route(r@[0], Method::Get, "/api/hello"@, Handler::ApiHello),
{
    let mut v: Vec<Route> = Vec::new();
    v.push(
        Route {
            method: Method::Get,
            pattern: PathPattern::Exact(String::from_str("/api/hello")),
            handler: Handler::ApiHello,
        },
    );
    v
}

/// Answers with the fixed greeting of the API.
pub fn handler() -> (r: ApiResponse)
    ensures
        r.message@ == "Hello from Rust API!"@,
        r.status@ == "success"@,
        r.version@ == "1.0.0"@,
{
    ApiResponse {
        message: String::from_str("Hello from Rust API!"),
        status: String::from_str("success"),
        version: String::from_str("1.0.0"),
    }
}

} // verus!
