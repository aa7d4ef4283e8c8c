use vstd::prelude::*;
use vstd::string::*;
use crate::text::{decimal, decimal_text, option_text};

verus! {

/// Whether `hyper::Uri` accepts the text `s` as a URI.
pub uninterp spec fn uri_parses(s: Seq<char>) -> bool;

/// The host that `hyper::Uri` finds in the text `s`; `None` where `s` is no URI or has no
/// authority.
pub uninterp spec fn uri_host(s: Seq<char>) -> Option<Seq<char>>;

/// The port that `hyper::Uri` finds in the text `s`; `None` where `s` is no URI or names
/// no port.
pub uninterp spec fn uri_port(s: Seq<char>) -> Option<u16>;

/// Calls the `FromStr` impl of `hyper::Uri` on `s`. Not proved: that the answer is the
/// same for the same text, which is what giving it a name claims.
#[verifier::external_body]
fn parse_succeeds(s: &str) -> (r: bool)
    ensures
        r == uri_parses(s@),
{
    s.parse::<hyper::Uri>().is_ok()
}

/// Calls `hyper::Uri::host` on the URI parsed from `s`. Not proved: that the answer is
/// the same for the same text.
#[verifier::external_body]
fn parsed_host(s: &str) -> (r: Option<String>)
    ensures
        option_text(r) == uri_host(s@),
{
    match s.parse::<hyper::Uri>() {
        Ok(uri) => match uri.host() {
            Some(h) => Some(h.to_string()),
            None => None,
        },
        Err(_) => None,
    }
}

/// Calls `hyper::Uri::port_u16` on the URI parsed from `s`. Not proved: that the answer
/// is the same for the same text.
#[verifier::external_body]
fn parsed_port(s: &str) -> (r: Option<u16>)
    ensures
        r == uri_port(s@),
{
    match s.parse::<hyper::Uri>() {
        Ok(uri) => uri.port_u16(),
        Err(_) => None,
    }
}

/// Why a configured upstream target is turned down at startup.
#[derive(Clone, Copy, Debug, PartialEq, Eq, Structural)]
pub enum ConfigurationError {
    /// The text is no URI.
    Malformed,
    /// The URI names no host to send to.
    MissingHost,
    /// The URI cannot stand before a path: followed by `/` it is no URI, as is the case
    /// of a target without a scheme.
    NotAbsolute,
}

/// The server that unmatched requests are sent to.
#[derive(Debug)]
pub struct UpstreamTarget {
    /// The target as it was configured; outbound URIs start with it.
    pub base: String,
    pub host: String,
    pub port: Option<u16>,
}

/// What a request for the upstream is rewritten to. All else of the request, its other
/// headers and its body, goes out as it came in.
#[derive(Debug)]
pub struct Outbound {
    pub uri: String,
    pub host: String,
}

/// The answer the gateway gives in its own name.
#[derive(Debug)]
pub struct GatewayResponse {
    pub status: u16,
    pub body: String,
}

/// What the client gets after a forward: the upstream's answer as it is, or the
/// gateway's own.
#[derive(Debug)]
pub enum Reply<R> {
    Upstream(R),
    Gateway(GatewayResponse),
}

/// The authority of a host and an optional port: the host, then a colon and the port
/// in decimal where there is one.
pub open spec fn authority_of(host: Seq<char>, port: Option<u16>) -> Seq<char> {
    match port {
        Some(p) => host + ":"@ + decimal(p as nat),
        None => host,
    }
}

/// The error that a target with these parse results is turned down with, if any:
/// whether the text is a URI, the host it names, and whether the text is still a URI
/// when a path follows it.
pub open spec fn rejection(parses: bool, host: Option<Seq<char>>, joins: bool) -> Option<
    ConfigurationError,
> {
    if !parses {
        Some(ConfigurationError::Malformed)
    } else if host is None {
        Some(ConfigurationError::MissingHost)
    } else if !joins {
        Some(ConfigurationError::NotAbsolute)
    } else {
        None
    }
}

/// The error that the configured text `url` is turned down with, if any.
pub open spec fn rejection_of(url: Seq<char>) -> Option<ConfigurationError> {
    rejection(uri_parses(url), uri_host(url), uri_parses(url + "/"@))
}

impl UpstreamTarget {
    /// The authority that outbound requests name in their Host header.
    pub open spec fn authority_text(&self) -> Seq<char> {
        authority_of(self.host@, self.port)
    }

    /// Builds the target from the configured text and from what parsing it gave: whether
    /// the text is a URI, its host and port, and whether the text followed by `/` is a URI.
    pub fn from_parts(
        url: &str,
        parses: bool,
        host: Option<String>,
        port: Option<u16>,
        joins: bool,
    ) -> (r: Result<UpstreamTarget, ConfigurationError>)
        ensures
            r is Ok <==> rejection(parses, option_text(host), joins) is None,
            r matches Err(e) ==> rejection(parses, option_text(host), joins) == Some(e),
            r matches Ok(t) ==> t.base@ == url@ && t.host@ == host->0@ && t.port == port,
    {
        if !parses {
            return Err(ConfigurationError::Malformed);
        }
        match host {
            Some(h) => {
                if joins {
                    Ok(UpstreamTarget { base: String::from_str(url), host: h, port })
                } else {
                    Err(ConfigurationError::NotAbsolute)
                }
            },
            None => Err(ConfigurationError::MissingHost),
        }
    }

    /// Reads the configured target. A text that is no URI, a URI without a host, and a
    /// URI that is none any more once a path follows it, are configuration errors.
    pub fn parse(url: &str) -> (r: Result<UpstreamTarget, ConfigurationError>)
        ensures
            r is Ok <==> rejection_of(url@) is None,
            r matches Err(e) ==> rejection_of(url@) == Some(e),
            r matches Ok(t) ==> {
                &&& t.base@ == url@
                &&& Some(t.host@) == uri_host(url@)
                &&& t.port == uri_port(url@)
                &&& uri_parses(t.base@ + "/"@)
            },
    {
        let parses = parse_succeeds(url);
        let host = parsed_host(url);
        let port = parsed_port(url);
        let mut probe = String::from_str(url);
        probe.append("/");
        let joins = parse_succeeds(probe.as_str());
        UpstreamTarget::from_parts(url, parses, host, port, joins)
    }

    /// The host, followed by a colon and the port where the target names one.
    pub fn authority(&self) -> (r: String)
        ensures
            r@ == self.authority_text(),
    {
        let mut r = self.host.clone();
        match self.port {
            Some(p) => {
                r.append(":");
                let digits = decimal_text(p);
                r.append(digits.as_str());
            },
            None => {},
        }
        r
    }

    /// What a request for the upstream is rewritten to: the outbound URI is the
    /// configured target followed by the request's path and query as they came, and the
    /// Host header names the upstream's authority.
    pub open spec fn rewrites_to(&self, path_and_query: Seq<char>, out: Outbound) -> bool {
        &&& out.uri@ == self.base@ + path_and_query
        &&& out.host@ == self.authority_text()
    }

    /// Rewrites a request for the upstream, given whether the outbound URI is one. Where
    /// it is not, the request is not sent and the client gets the gateway's own answer.
    pub fn forward_checked(&self, path_and_query: &str, uri_is_valid: bool) -> (r: Result<
        Outbound,
        GatewayResponse,
    >)
        ensures
            r is Ok <==> uri_is_valid,
            r matches Ok(out) ==> self.rewrites_to(path_and_query@, out),
            r matches Err(g) ==> is_invalid_uri(g),
    {
        if uri_is_valid {
            let mut uri = self.base.clone();
            uri.append(path_and_query);
            Ok(Outbound { uri, host: self.authority() })
        } else {
            Err(GatewayResponse { status: 500, body: String::from_str("Invalid URI") })
        }
    }

    /// Rewrites a request for the upstream. The request is sent where the outbound URI
    /// is one that `hyper::Uri` accepts, and turned down where it is not.
    pub fn forward(&self, path_and_query: &str) -> (r: Result<Outbound, GatewayResponse>)
        ensures
            r is Ok <==> uri_parses(self.base@ + path_and_query@),
            r matches Ok(out) ==> self.rewrites_to(path_and_query@, out),
            r matches Err(g) ==> is_invalid_uri(g),
    {
        let mut uri = self.base.clone();
        uri.append(path_and_query);
        let valid = parse_succeeds(uri.as_str());
        self.forward_checked(path_and_query, valid)
    }
}

/// The answer to a request whose outbound URI is none: a server error, with a fixed
/// body.
pub open spec fn is_invalid_uri(g: GatewayResponse) -> bool {
    g.status == 500 && g.body@ == "Invalid URI"@
}

/// The answer to a request that could not reach the upstream: a bad gateway, with a
/// fixed body.
pub open spec fn is_unavailable(g: GatewayResponse) -> bool {
    g.status == 502 && g.body@ == "Server not available"@
}

/// The answer to a request that could not reach the upstream.
pub fn upstream_unavailable() -> (r: GatewayResponse)
    ensures
        is_unavailable(r),
{
    GatewayResponse { status: 502, body: String::from_str("Server not available") }
}

/// Settles a forward. The upstream's answer is handed on as it is, whatever its status;
/// a transport failure becomes the gateway's fixed answer, which holds nothing of the
/// failure.
pub fn settle<R, E>(outcome: Result<R, E>) -> (r: Reply<R>)
    ensures
        outcome matches Ok(response) ==> r == Reply::Upstream(response),
        outcome is Err ==> (r matches Reply::Gateway(g) && is_unavailable(g)),
{
    match outcome {
        Ok(response) => Reply::Upstream(response),
        Err(_) => Reply::Gateway(upstream_unavailable()),
    }
}

/// The Host header of an outbound request is the upstream's authority, whatever the
/// request: two requests rewritten for one target name the same host, and all of the
/// path and query of each is in its outbound URI, behind the target.
pub proof fn outbound_names_the_upstream(
    target: &UpstreamTarget,
    first: Seq<char>,
    second: Seq<char>,
    a: Outbound,
    b: Outbound,
)
    requires
        target.rewrites_to(first, a),
        target.rewrites_to(second, b),
    ensures
        a.host@ == authority_of(target.host@, target.port),
        a.host@ == b.host@,
        a.uri@.subrange(0, target.base@.len() as int) == target.base@,
        a.uri@.skip(target.base@.len() as int) == first,
{
    assert(a.uri@.subrange(0, target.base@.len() as int) =~= target.base@);
    assert(a.uri@.skip(target.base@.len() as int) =~= first);
}

} // verus!
