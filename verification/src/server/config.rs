use vstd::prelude::*;
use vstd::string::*;
use crate::server::build_router;
use crate::server::cors::{CorsPolicy, OriginMode};
use crate::server::route_builder::{is_local_table, Gateway};
use crate::server::upstream::{rejection_of, uri_host, uri_parses, uri_port, ConfigurationError, UpstreamTarget};
use crate::text::option_text;

verus! {

/// The texts of a list.
pub open spec fn texts(items: Seq<String>) -> Seq<Seq<char>> {
    items.map_values(|s: String| s@)
}

/// The upstream target that is configured: the one that is set or, where none is, the
/// local host at the fallback port, which is 3001 unless one is set.
pub open spec fn upstream_url_of(proxy_url: Option<Seq<char>>, port: Option<Seq<char>>) -> Seq<char> {
    match proxy_url {
        Some(url) => url,
        None => "http://127.0.0.1:"@ + match port {
            Some(p) => p,
            None => "3001"@,
        },
    }
}

/// The address to listen on: host, colon, port, with 127.0.0.1 and 3000 where they are
/// not set.
pub open spec fn listen_address_of(host: Option<Seq<char>>, port: Option<Seq<char>>) -> Seq<char> {
    (match host {
        Some(h) => h,
        None => "127.0.0.1"@,
    }) + ":"@ + (match port {
        Some(p) => p,
        None => "3000"@,
    })
}

/// The upstream target that is configured.
pub fn upstream_url(proxy_url: &Option<String>, port: &Option<String>) -> (r: String)
    ensures
        r@ == upstream_url_of(option_text(*proxy_url), option_text(*port)),
{
    match proxy_url {
        Some(url) => url.clone(),
        None => {
            let mut r = String::from_str("http://127.0.0.1:");
            match port {
                Some(p) => r.append(p.as_str()),
                None => r.append("3001"),
            }
            r
        },
    }
}

/// The address to listen on.
pub fn listen_address(host: &Option<String>, port: &Option<String>) -> (r: String)
    ensures
        r@ == listen_address_of(option_text(*host), option_text(*port)),
{
    let mut r = match host {
        Some(h) => h.clone(),
        None => String::from_str("127.0.0.1"),
    };
    r.append(":");
    match port {
        Some(p) => r.append(p.as_str()),
        None => r.append("3000"),
    }
    r
}

/// The cross-origin policy of the gateway: the request's origin is handed back with
/// credentials allowed, for a fixed set of methods and headers.
pub open spec fn is_default_cors(p: CorsPolicy) -> bool {
    &&& p.mode == OriginMode::Mirror
    &&& texts(p.allow_methods@) == seq!["GET"@, "POST"@, "PUT"@, "DELETE"@, "OPTIONS"@]
    &&& texts(p.allow_headers@) == seq![
        "content-type"@,
        "authorization"@,
        "upgrade"@,
        "connection"@,
        "sec-websocket-key"@,
        "sec-websocket-version"@,
        "sec-websocket-protocol"@,
    ]
}

/// Builds the cross-origin policy of the gateway.
pub fn default_cors() -> (r: CorsPolicy)
    ensures
        is_default_cors(r),
{
    let mut allow_methods: Vec<String> = Vec::new();
    allow_methods.push(String::from_str("GET"));
    allow_methods.push(String::from_str("POST"));
    allow_methods.push(String::from_str("PUT"));
    allow_methods.push(String::from_str("DELETE"));
    allow_methods.push(String::from_str("OPTIONS"));
    let mut allow_headers: Vec<String> = Vec::new();
    allow_headers.push(String::from_str("content-type"));
    allow_headers.push(String::from_str("authorization"));
    allow_headers.push(String::from_str("upgrade"));
    allow_headers.push(String::from_str("connection"));
    allow_headers.push(String::from_str("sec-websocket-key"));
    allow_headers.push(String::from_str("sec-websocket-version"));
    allow_headers.push(String::from_str("sec-websocket-protocol"));
    assert(texts(allow_methods@) =~= seq!["GET"@, "POST"@, "PUT"@, "DELETE"@, "OPTIONS"@]);
    assert(texts(allow_headers@) =~= seq![
        "content-type"@,
        "authorization"@,
        "upgrade"@,
        "connection"@,
        "sec-websocket-key"@,
        "sec-websocket-version"@,
        "sec-websocket-protocol"@,
    ]);
    CorsPolicy { mode: OriginMode::Mirror, allow_methods, allow_headers }
}

/// Builds the gateway at startup, before any connection is accepted. The upstream
/// target is read once, here; one that is no URI, names no host, or cannot stand before
/// a path is an error, and no gateway is built.
pub fn configure(proxy_url: &Option<String>, port: &Option<String>) -> (r: Result<
    Gateway,
    ConfigurationError,
>)
    ensures
        ({
            let url = upstream_url_of(option_text(*proxy_url), option_text(*port));
            &&& r is Ok <==> rejection_of(url) is None
            &&& r matches Err(e) ==> rejection_of(url) == Some(e)
            &&& r matches Ok(g) ==> {
                &&& g.upstream.base@ == url
                &&& Some(g.upstream.host@) == uri_host(url)
                &&& g.upstream.port == uri_port(url)
                &&& uri_parses(url + "/"@)
                &&& is_local_table(g.routes@)
                &&& is_default_cors(g.cors)
            }
        }),
{
    let url = upstream_url(proxy_url, port);
    match UpstreamTarget::parse(url.as_str()) {
        Ok(upstream) => Ok(Gateway { routes: build_router(), upstream, cors: default_cors() }),
        Err(e) => Err(e),
    }
}

} // verus!
