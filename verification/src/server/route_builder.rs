use vstd::prelude::*;
use vstd::string::*;
use crate::api::{is_exact_route, is_segment_route};
use crate::routing::{find_route, first_match, has_match, Handler, Method, Route, RouteMatch};
use crate::server::cors::{header_views, CorsPolicy, Header};
use crate::server::upstream::{is_invalid_uri, uri_parses, GatewayResponse, Outbound, UpstreamTarget};
use crate::text::option_text;

verus! {

/// What the gateway reads of a request in order to decide what to do with it.
#[derive(Debug)]
pub struct RequestHead {
    pub method: Method,
    /// The path alone, by which local routes are found.
    pub path: String,
    /// The path and the query as the client sent them.
    pub path_and_query: String,
    /// The value of the Origin header, where the request has one.
    pub origin: Option<String>,
}

/// All that the gateway is configured with, fixed at startup.
#[derive(Debug)]
pub struct Gateway {
    pub routes: Vec<Route>,
    pub upstream: UpstreamTarget,
    pub cors: CorsPolicy,
}

/// What is to be done with a request. `headers` are the cross-origin headers of the
/// response, whoever produces it.
#[derive(Debug)]
pub enum Action {
    /// Answer at once with these headers and no body.
    Preflight { headers: Vec<Header> },
    /// Run the local handler of the route with this index.
    Local { index: usize, found: RouteMatch, headers: Vec<Header> },
    /// Hand the request to the forwarder: send it to the upstream, once, rewritten as
    /// the plan says, or answer with the plan's error where the outbound URI is none.
    Forward { plan: Result<Outbound, GatewayResponse>, headers: Vec<Header> },
}

/// The table of the local routes: which routes it holds, and in which order.
pub open spec fn is_local_table(routes: Seq<Route>) -> bool {
    &&& routes.len() == 6
    &&& is_exact_route(routes[0], Method::Get, "/hello"@, Handler::Hello)
    &&& is_exact_route(routes[1], Method::Get, "/api/hello"@, Handler::Hello)
    &&& is_segment_route(routes[2], Method::Get, "/api/greet/"@, Handler::Greet)
    &&& is_exact_route(routes[3], Method::Get, "/api/search"@, Handler::Search)
    &&& is_exact_route(routes[4], Method::Post, "/api/create"@, Handler::Create)
    &&& is_exact_route(routes[5], Method::Get, "/api/env"@, Handler::Env)
}

/// The local routes, in the order in which they are tried.
pub fn register_routes() -> (r: Vec<Route>)
    ensures
        is_local_table(r@),
{
    let mut v = crate::api::routes();
    let mut part = crate::api::greet::routes();
    v.append(&mut part);
    let mut part = crate::api::search::routes();
    v.append(&mut part);
    let mut part = crate::api::create::routes();
    v.append(&mut part);
    let mut part = crate::api::env::routes();
    v.append(&mut part);
    v
}

impl Gateway {
    /// Whether the request is answered by the cross-origin policy alone.
    pub open spec fn answers_preflight(&self, request: &RequestHead) -> bool {
        request.method == Method::Options
    }

    /// Whether the request is answered by a local handler.
    pub open spec fn answers_locally(&self, request: &RequestHead) -> bool {
        &&& request.method != Method::Options
        &&& has_match(self.routes@, request.method, request.path@)
    }

    /// Whether the request is sent to the upstream.
    pub open spec fn forwards(&self, request: &RequestHead) -> bool {
        &&& request.method != Method::Options
        &&& !has_match(self.routes@, request.method, request.path@)
    }

    /// Decides what is done with a request. A preflight request is answered by the
    /// cross-origin policy, whatever its path. Any other request goes to the first local
    /// route that matches its method and path, and to the upstream where none does.
    pub fn dispatch(&self, request: &RequestHead) -> (a: Action)
        ensures
            a is Preflight <==> self.answers_preflight(request),
            a is Local <==> self.answers_locally(request),
            a is Forward <==> self.forwards(request),
            a matches Action::Preflight { headers } ==> header_views(headers@)
                == self.cors.preflight_headers_of(option_text(request.origin)),
            a matches Action::Local { index, found, headers } ==> {
                &&& first_match(self.routes@, request.method, request.path@, index as int)
                &&& found.handler == self.routes@[index as int].handler
                &&& option_text(found.param) == self.routes@[index as int].pattern.param(
                    request.path@,
                )
                &&& header_views(headers@) == self.cors.response_headers_of(
                    option_text(request.origin),
                )
            },
            a matches Action::Forward { plan, headers } ==> {
                &&& plan is Ok <==> uri_parses(self.upstream.base@ + request.path_and_query@)
                &&& plan matches Ok(out) ==> self.upstream.rewrites_to(request.path_and_query@, out)
                &&& plan matches Err(g) ==> is_invalid_uri(g)
                &&& header_views(headers@) == self.cors.response_headers_of(
                    option_text(request.origin),
                )
            },
    {
        if crate::server::cors::is_preflight(request.method) {
            return Action::Preflight { headers: self.cors.preflight(&request.origin) };
        }
        let headers = self.cors.response_headers(&request.origin);
        match find_route(&self.routes, request.method, request.path.as_str()) {
            Some((index, found)) => Action::Local { index, found, headers },
            None => Action::Forward {
                plan: self.upstream.forward(request.path_and_query.as_str()),
                headers,
            },
        }
    }
}

/// Every request is answered in exactly one way. One that a local route matches is
/// never sent to the upstream; one that is no preflight request and that no local route
/// matches always is.
pub proof fn one_way_for_each_request(gateway: &Gateway, request: &RequestHead)
    ensures
        has_match(gateway.routes@, request.method, request.path@) ==> !gateway.forwards(request),
        gateway.answers_preflight(request) ==> !gateway.answers_locally(request)
            && !gateway.forwards(request),
        gateway.answers_preflight(request) || gateway.answers_locally(request) || gateway.forwards(
            request,
        ),
        !(gateway.answers_locally(request) && gateway.forwards(request)),
{
}

/// In the table of the local routes, a `GET` of the greeting path followed by a name
/// goes to the greeting handler, which is given that name, whatever the name is, as
/// long as it is not empty and holds no slash.
pub proof fn greeting_route_takes_any_name(routes: Seq<Route>, name: Seq<char>)
    requires
        is_local_table(routes),
        name.len() > 0,
        !name.contains('/'),
    ensures
        first_match(routes, Method::Get, "/api/greet/"@ + name, 2),
        routes[2].handler == Handler::Greet,
        routes[2].pattern.param("/api/greet/"@ + name) == Some(name),
{
    reveal_strlit("/hello");
    reveal_strlit("/api/hello");
    reveal_strlit("/api/greet/");
    let prefix = "/api/greet/"@;
    let path = prefix + name;
    assert(path.subrange(0, prefix.len() as int) =~= prefix);
    assert(path.skip(prefix.len() as int) =~= name);
    assert(path.len() > 11);
    assert(routes[2].accepts(Method::Get, path));
    assert(!routes[0].accepts(Method::Get, path));
    assert(!routes[1].accepts(Method::Get, path));
}

/// In the table of the local routes, a path that only comes close to the greeting path
/// is answered by no route: one without a name, or with a slash in what follows.
pub proof fn greeting_route_takes_one_segment(routes: Seq<Route>, rest: Seq<char>)
    requires
        is_local_table(routes),
        rest.len() == 0 || rest.contains('/'),
    ensures
        !has_match(routes, Method::Get, "/api/greet/"@ + rest),
{
    reveal_strlit("/hello");
    reveal_strlit("/api/hello");
    reveal_strlit("/api/greet/");
    reveal_strlit("/api/search");
    reveal_strlit("/api/create");
    reveal_strlit("/api/env");
    let prefix = "/api/greet/"@;
    let path = prefix + rest;
    assert(path.skip(prefix.len() as int) =~= rest);
    assert(path.len() >= 11);
    assert(path[5] == 'g');
    assert(path[10] == '/');
    assert(!routes[0].accepts(Method::Get, path));
    assert(!routes[1].accepts(Method::Get, path));
    assert(!routes[2].accepts(Method::Get, path));
    assert(!routes[3].accepts(Method::Get, path));
    assert(!routes[4].accepts(Method::Get, path));
    assert(!routes[5].accepts(Method::Get, path));
}

} // verus!
