use vstd::prelude::*;
use vstd::string::*;
use crate::api::{is_exact_route, ApiError};
use crate::routing::{Handler, Method, PathPattern, Route};
use crate::text::{blank, is_blank};

verus! {

/// The record that was created, echoed to the client.
#[derive(Debug)]
pub struct ApiResponse {
    pub message: String,
    pub id: u64,
    pub name: String,
}

/// The message that confirms the creation of `name`.
pub open spec fn created_message(name: Seq<char>) -> Seq<char> {
    "Created: "@ + name
}

/// Whether a record with this name is created.
pub open spec fn accepted(name: Option<String>) -> bool {
    name is Some && !blank(name->0@)
}

/// The route of this endpoint: `POST /api/create`.
pub fn routes() -> (r: Vec<Route>)
    ensures
        r@.len() == 1,
        is_exact_route(r@[0], Method::Post, "/api/create"@, Handler::Create),
{
    let mut v: Vec<Route> = Vec::new();
    v.push(
        Route {
            method: Method::Post,
            pattern: PathPattern::Exact(String::from_str("/api/create")),
            handler: Handler::Create,
        },
    );
    v
}

/// Creates a record. A name that is missing, or blank once trimmed, is a bad request;
/// any other name is echoed as it came, under the id 1.
pub fn handler(name: Option<String>) -> (r: Result<ApiResponse, ApiError>)
    ensures
        r is Ok <==> accepted(name),
        r is Err ==> r == Err::<ApiResponse, ApiError>(ApiError::BadRequest),
        r matches Ok(a) ==> {
            &&& a.message@ == created_message(name->0@)
            &&& a.id == 1
            &&& a.name@ == name->0@
        },
{
    match name {
        None => Err(ApiError::BadRequest),
        Some(name) => {
            if is_blank(name.as_str()) {
                return Err(ApiError::BadRequest);
            }
            let mut message = String::from_str("Created: ");
            message.append(name.as_str());
            Ok(ApiResponse { message, id: 1, name })
        },
    }
}

} // verus!
