use vstd::prelude::*;
use vstd::string::*;
use crate::routing::Method;
use crate::text::option_text;

verus! {

/// How the policy answers the question which origin may call.
#[derive(Clone, Copy, Debug, PartialEq, Eq, Structural)]
pub enum OriginMode {
    /// The request's own origin is handed back, and credentials are allowed.
    Mirror,
    /// Any origin may call, without credentials.
    Any,
}

/// A header: its name and its value.
#[derive(Debug)]
pub struct Header {
    pub name: String,
    pub value: String,
}

impl View for Header {
    type V = (Seq<char>, Seq<char>);

    open spec fn view(&self) -> (Seq<char>, Seq<char>) {
        (self.name@, self.value@)
    }
}

/// The cross-origin policy of the gateway, fixed at startup.
#[derive(Debug)]
pub struct CorsPolicy {
    pub mode: OriginMode,
    pub allow_methods: Vec<String>,
    pub allow_headers: Vec<String>,
}

/// The items of a list, separated by commas.
pub open spec fn listed(items: Seq<String>) -> Seq<char>
    decreases items.len(),
{
    if items.len() == 0 {
        Seq::empty()
    } else if items.len() == 1 {
        items[0]@
    } else {
        listed(items.drop_last()) + ","@ + items.last()@
    }
}

/// The headers of a list, each as a pair of name and value.
pub open spec fn header_views(hs: Seq<Header>) -> Seq<(Seq<char>, Seq<char>)> {
    hs.map_values(|h: Header| h@)
}

/// The headers that tell a client which origin may call.
pub open spec fn origin_headers(mode: OriginMode, origin: Option<Seq<char>>) -> Seq<
    (Seq<char>, Seq<char>),
> {
    match mode {
        OriginMode::Any => seq![("access-control-allow-origin"@, "*"@)],
        OriginMode::Mirror => match origin {
            Some(o) => seq![
                ("access-control-allow-origin"@, o),
                ("access-control-allow-credentials"@, "true"@),
            ],
            None => seq![("access-control-allow-credentials"@, "true"@)],
        },
    }
}

impl CorsPolicy {
    /// The headers added to every response.
    pub open spec fn response_headers_of(&self, origin: Option<Seq<char>>) -> Seq<
        (Seq<char>, Seq<char>),
    > {
        origin_headers(self.mode, origin)
    }

    /// The headers of the answer to a preflight request: those of every response, then
    /// the allowed methods and the allowed headers as configured.
    pub open spec fn preflight_headers_of(&self, origin: Option<Seq<char>>) -> Seq<
        (Seq<char>, Seq<char>),
    > {
        origin_headers(self.mode, origin).push(
            ("access-control-allow-methods"@, listed(self.allow_methods@)),
        ).push(("access-control-allow-headers"@, listed(self.allow_headers@)))
    }

    /// The headers added to every response, whichever way it was produced.
    pub fn response_headers(&self, origin: &Option<String>) -> (r: Vec<Header>)
        ensures
            header_views(r@) == self.response_headers_of(option_text(*origin)),
    {
        let mut v: Vec<Header> = Vec::new();
        match self.mode {
            OriginMode::Any => {
                v.push(
                    Header {
                        name: String::from_str("access-control-allow-origin"),
                        value: String::from_str("*"),
                    },
                );
            },
            OriginMode::Mirror => {
                match origin {
                    Some(o) => {
                        v.push(
                            Header {
                                name: String::from_str("access-control-allow-origin"),
                                value: o.clone(),
                            },
                        );
                    },
                    None => {},
                }
                v.push(
                    Header {
                        name: String::from_str("access-control-allow-credentials"),
                        value: String::from_str("true"),
                    },
                );
            },
        }
        assert(header_views(v@) =~= self.response_headers_of(option_text(*origin)));
        v
    }

    /// The headers of the answer to a preflight request. They depend on the policy and
    /// on the request's origin, and on nothing else of the request.
    pub fn preflight(&self, origin: &Option<String>) -> (r: Vec<Header>)
        ensures
            header_views(r@) == self.preflight_headers_of(option_text(*origin)),
    {
        let mut v = self.response_headers(origin);
        v.push(
            Header {
                name: String::from_str("access-control-allow-methods"),
                value: join_list(&self.allow_methods),
            },
        );
        v.push(
            Header {
                name: String::from_str("access-control-allow-headers"),
                value: join_list(&self.allow_headers),
            },
        );
        assert(header_views(v@) =~= self.preflight_headers_of(option_text(*origin)));
        v
    }
}

/// Whether a request with this method is a preflight request.
pub fn is_preflight(method: Method) -> (r: bool)
    ensures
        r == (method == Method::Options),
{
    method == Method::Options
}

/// Writes the items of a list one after the other, separated by commas.
pub fn join_list(items: &Vec<String>) -> (r: String)
    ensures
        r@ == listed(items@),
{
    let mut r = String::new();
    let mut i: usize = 0;
    while i < items.len()
        invariant
            i <= items.len(),
            r@ == listed(items@.take(i as int)),
        decreases items.len() - i,
    {
        let ghost before = r@;
        if i > 0 {
            r.append(",");
        }
        r.append(items[i].as_str());
        proof {
            let t = items@.take(i + 1);
            assert(t.drop_last() =~= items@.take(i as int));
            assert(t.last() == items@[i as int]);
            if i == 0 {
                assert(before =~= Seq::<char>::empty());
                assert(r@ =~= items@[0]@);
            }
        }
        i += 1;
    }
    proof {
        assert(items@.take(items.len() as int) =~= items@);
    }
    r
}

} // verus!
