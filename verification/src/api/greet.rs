use vstd::prelude::*;
use vstd::string::*;
use crate::api::{is_segment_route, ApiError};
use crate::routing::{Handler, Method, PathPattern, Route};
use crate::text::option_text;

verus! {

/// A greeting for one person.
#[derive(Debug)]
pub struct ApiResponse {
    pub message: String,
}

/// The greeting for `name`.
pub open spec fn greeting(name: Seq<char>) -> Seq<char> {
    "Hello, "@ + name + "!"@
}

/// The route of this endpoint: `GET /api/greet/` and a name.
pub fn routes() -> (r: Vec<Route>)
    ensures
        r@.len() == 1,
        is_segment_route(r@[0], Method::Get, "/api/greet/"@, Handler::Greet),
{
    let mut v: Vec<Route> = Vec::new();
    v.push(
        Route {
            method: Method::Get,
            pattern: PathPattern::Segment(String::from_str("/api/greet/")),
            handler: Handler::Greet,
        },
    );
    v
}

/// Greets `name`.
pub fn handler(name: &str) -> (r: ApiResponse)
    ensures
        r.message@ == greeting(name@),
{
    let mut message = String::from_str("Hello, ");
    message.append(name);
    message.append("!");
    ApiResponse { message }
}

/// The text that `percent_encoding` decodes `s` to, each escape of a percent sign and
/// two hex digits replaced by the byte it stands for; `None` where the bytes so
/// obtained are no UTF-8.
pub uninterp spec fn percent_decoded(s: Seq<char>) -> Option<Seq<char>>;

/// Calls `percent_encoding::percent_decode_str` and `PercentDecode::decode_utf8`. Not
/// proved: that the answer is the same for the same text.
#[verifier::external_body]
fn decode_percent(s: &str) -> (r: Option<String>)
    ensures
        option_text(r) == percent_decoded(s@),
{
    match percent_encoding::percent_decode_str(s).decode_utf8() {
        Ok(text) => Some(text.into_owned()),
        Err(_) => None,
    }
}

/// Greets the person whose name was decoded from the path, and turns the request down
/// where the name could not be decoded.
pub fn respond(name: Option<String>) -> (r: Result<ApiResponse, ApiError>)
    ensures
        r is Ok <==> name is Some,
        r is Err ==> r == Err::<ApiResponse, ApiError>(ApiError::BadRequest),
        r matches Ok(a) ==> a.message@ == greeting(name->0@),
{
    match name {
        Some(n) => Ok(handler(n.as_str())),
        None => Err(ApiError::BadRequest),
    }
}

/// Answers a request whose path holds `segment` where the name stands: the name is the
/// segment with its percent escapes decoded.
pub fn handler_for_segment(segment: &str) -> (r: Result<ApiResponse, ApiError>)
    ensures
        r is Ok <==> percent_decoded(segment@) is Some,
        r is Err ==> r == Err::<ApiResponse, ApiError>(ApiError::BadRequest),
        r matches Ok(a) ==> a.message@ == greeting(percent_decoded(segment@)->0),
{
    respond(decode_percent(segment))
}

} // verus!
