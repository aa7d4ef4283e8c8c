use vstd::prelude::*;
use vstd::string::*;
use crate::text::{after, contains_char, has_prefix, option_text, starts_with};

verus! {

/// The request methods the gateway tells apart.
#[derive(Clone, Copy, Debug, PartialEq, Eq, Structural)]
pub enum Method {
    Get,
    Post,
    Put,
    Delete,
    Options,
    Head,
    Patch,
    Other,
}

/// The local handlers a route can be bound to.
#[derive(Clone, Copy, Debug, PartialEq, Eq, Structural)]
pub enum Handler {
    Hello,
    ApiHello,
    Greet,
    Search,
    Create,
    Env,
}

/// A path pattern: a fixed path, or a fixed prefix followed by one named segment.
#[derive(Debug)]
pub enum PathPattern {
    /// Matches the path that equals the text.
    Exact(String),
    /// Matches the text followed by one non-empty segment without a slash.
    Segment(String),
}

/// One entry of the local route table.
#[derive(Debug)]
pub struct Route {
    pub method: Method,
    pub pattern: PathPattern,
    pub handler: Handler,
}

/// What a successful lookup yields: the handler and the named segment, if the pattern has one.
#[derive(Debug)]
pub struct RouteMatch {
    pub handler: Handler,
    pub param: Option<String>,
}

impl PathPattern {
    /// Whether the pattern matches `path`.
    pub open spec fn matches(&self, path: Seq<char>) -> bool {
        match self {
            PathPattern::Exact(p) => path == p@,
            PathPattern::Segment(p) => {
                &&& has_prefix(path, p@)
                &&& path.len() > p@.len()
                &&& !path.skip(p@.len() as int).contains('/')
            },
        }
    }

    /// The named segment that the pattern takes out of a path: what follows the prefix,
    /// where the pattern has a named segment and the path is long enough to hold one.
    pub open spec fn param(&self, path: Seq<char>) -> Option<Seq<char>> {
        match self {
            PathPattern::Exact(_) => None,
            PathPattern::Segment(p) => if p@.len() <= path.len() {
                Some(path.skip(p@.len() as int))
            } else {
                None
            },
        }
    }

    /// Matches `path` against the pattern.
    pub fn is_match(&self, path: &str) -> (r: bool)
        ensures
            r == self.matches(path@),
    {
        match self {
            PathPattern::Exact(p) => crate::text::same_text(p.as_str(), path),
            PathPattern::Segment(p) => {
                if !starts_with(path, p.as_str()) {
                    return false;
                }
                let k: usize = p.as_str().unicode_len();
                if path.unicode_len() <= k {
                    return false;
                }
                let rest = after(path, k);
                !contains_char(rest.as_str(), '/')
            },
        }
    }

    /// Takes the named segment out of `path`: what follows the pattern's prefix.
    pub fn extract(&self, path: &str) -> (r: Option<String>)
        ensures
            option_text(r) == self.param(path@),
    {
        match self {
            PathPattern::Exact(_) => None,
            PathPattern::Segment(p) => {
                let k: usize = p.as_str().unicode_len();
                if k <= path.unicode_len() {
                    Some(after(path, k))
                } else {
                    None
                }
            },
        }
    }
}

impl Route {
    /// Whether the route answers a request with this method and path.
    pub open spec fn accepts(&self, method: Method, path: Seq<char>) -> bool {
        self.method == method && self.pattern.matches(path)
    }
}

/// Whether some route of the table answers the request.
pub open spec fn has_match(routes: Seq<Route>, method: Method, path: Seq<char>) -> bool {
    exists|i: int| 0 <= i < routes.len() && (#[trigger] routes[i]).accepts(method, path)
}

/// Whether `i` is the first route of the table that answers the request.
pub open spec fn first_match(routes: Seq<Route>, method: Method, path: Seq<char>, i: int) -> bool {
    &&& 0 <= i < routes.len()
    &&& routes[i].accepts(method, path)
    &&& forall|j: int| 0 <= j < i ==> !(#[trigger] routes[j]).accepts(method, path)
}

/// Looks the request up in the table, in registration order. The first route that matches
/// wins; a request that no route matches yields `None`.
pub fn find_route(routes: &Vec<Route>, method: Method, path: &str) -> (r: Option<(usize, RouteMatch)>)
    ensures
        r is Some <==> has_match(routes@, method, path@),
        r matches Some((i, m)) ==> {
            &&& first_match(routes@, method, path@, i as int)
            &&& m.handler == routes@[i as int].handler
            &&& option_text(m.param) == routes@[i as int].pattern.param(path@)
        },
{
    let mut i: usize = 0;
    while i < routes.len()
        invariant
            i <= routes.len(),
            forall|j: int| 0 <= j < i ==> !(#[trigger] routes@[j]).accepts(method, path@),
        decreases routes.len() - i,
    {
        let route = &routes[i];
        if route.method == method && route.pattern.is_match(path) {
            let param = route.pattern.extract(path);
            return Some((i, RouteMatch { handler: route.handler, param }));
        }
        i += 1;
    }
    None
}

} // verus!
