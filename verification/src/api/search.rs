use vstd::prelude::*;
use vstd::string::*;
use crate::api::{is_exact_route, ApiError};
use crate::routing::{Handler, Method, PathPattern, Route};

verus! {

/// The answer to a search: the query echoed, and what was found.
#[derive(Debug)]
pub struct ApiResponse {
    pub message: String,
    pub query: String,
    pub results: Vec<String>,
}

/// The message that announces the results for `query`.
pub open spec fn results_message(query: Seq<char>) -> Seq<char> {
    "Search results for: "@ + query
}

/// Whether a search with this parameter is answered.
pub open spec fn accepted(q: Option<String>) -> bool {
    q is Some && q->0@.len() > 0
}

/// The route of this endpoint: `GET /api/search`.
pub fn routes() -> (r: Vec<Route>)
    ensures
        r@.len() == 1,
        is_exact_route(r@[0], Method::Get, "/api/search"@, Handler::Search),
{
    let mut v: Vec<Route> = Vec::new();
    v.push(
        Route {
            method: Method::Get,
            pattern: PathPattern::Exact(String::from_str("/api/search")),
            handler: Handler::Search,
        },
    );
    v
}

/// Answers a search. A missing or empty query is a bad request; any other query is
/// echoed with an empty result set.
pub fn handler(q: Option<String>) -> (r: Result<ApiResponse, ApiError>)
    ensures
        r is Ok <==> accepted(q),
        r is Err ==> r == Err::<ApiResponse, ApiError>(ApiError::BadRequest),
        r matches Ok(a) ==> {
            &&& a.message@ == results_message(q->0@)
            &&& a.query@ == q->0@
            &&& a.results@.len() == 0
        },
{
    match q {
        None => Err(ApiError::BadRequest),
        Some(query) => {
            if query.as_str().unicode_len() == 0 {
                return Err(ApiError::BadRequest);
            }
            let mut message = String::from_str("Search results for: ");
            message.append(query.as_str());
            Ok(ApiResponse { message, query, results: Vec::new() })
        },
    }
}

} // verus!
