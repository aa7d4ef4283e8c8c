use vstd::prelude::*;
use vstd::string::*;
use crate::api::is_exact_route;
use crate::routing::{Handler, Method, PathPattern, Route};
use crate::text::take_prefix;

verus! {

/// The runtime variables as they were read at startup; `None` where one is not set.
#[derive(Debug)]
pub struct EnvVars {
    pub app_name: Option<String>,
    pub app_env: Option<String>,
    pub api_host: Option<String>,
    pub api_port: Option<String>,
    pub secret_key: Option<String>,
}

/// The status of the runtime variables, as shown to a client.
#[derive(Debug)]
pub struct EnvResponse {
    pub message: String,
    pub app_name: String,
    pub app_env: String,
    pub api_host: String,
    pub api_port: String,
    pub secret_key: String,
}

/// What is shown of a variable: its value, or a marker where it is not set.
pub open spec fn shown(v: Option<String>) -> Seq<char> {
    match v {
        Some(s) => s@,
        None => "not set"@,
    }
}

/// Whether a secret is configured: it is whenever it is set, whatever it is set to.
pub open spec fn configured(secret: Option<String>) -> bool {
    secret is Some
}

/// What is shown of a secret itself: its first three characters where more follow,
/// and nothing where the secret has three characters or fewer.
pub open spec fn shown_prefix(s: Seq<char>) -> Seq<char> {
    if s.len() > 3 {
        s.subrange(0, 3)
    } else {
        Seq::empty()
    }
}

/// What is shown of a secret: whether it is configured and, if it is, what may be
/// shown of it followed by a mark that the rest was cut off.
pub open spec fn secret_summary(secret: Option<String>) -> Seq<char> {
    match secret {
        Some(s) => "Set ("@ + shown_prefix(s@) + "...)"@,
        None => "Not set"@,
    }
}

/// The route of this endpoint: `GET /api/env`.
pub fn routes() -> (r: Vec<Route>)
    ensures
        r@.len() == 1,
        is_exact_route(r@[0], Method::Get, "/api/env"@, Handler::Env),
{
    let mut v: Vec<Route> = Vec::new();
    v.push(
        Route {
            method: Method::Get,
            pattern: PathPattern::Exact(String::from_str("/api/env")),
            handler: Handler::Env,
        },
    );
    v
}

/// The value of a variable, or `not set`.
pub fn show(v: &Option<String>) -> (r: String)
    ensures
        r@ == shown(*v),
{
    match v {
        Some(s) => s.clone(),
        None => String::from_str("not set"),
    }
}

/// Summarises a secret without giving it away: three of its characters are part of
/// the result where it has more than three, and none where it has not.
pub fn secret_status(secret: &Option<String>) -> (r: String)
    ensures
        r@ == secret_summary(*secret),
{
    match secret {
        Some(s) => {
            let mut r = String::from_str("Set (");
            if s.as_str().unicode_len() > 3 {
                let head = take_prefix(s.as_str(), 3);
                r.append(head.as_str());
            } else {
                assert(r@ + shown_prefix(s@) =~= r@);
            }
            r.append("...)");
            r
        },
        None => String::from_str("Not set"),
    }
}

/// Reports the runtime variables. The secret is summarised, never shown.
pub fn handler(vars: &EnvVars) -> (r: EnvResponse)
    ensures
        r.message@ == "Environment variables from Rust"@,
        r.app_name@ == shown(vars.app_name),
        r.app_env@ == shown(vars.app_env),
        r.api_host@ == shown(vars.api_host),
        r.api_port@ == shown(vars.api_port),
        r.secret_key@ == secret_summary(vars.secret_key),
{
    EnvResponse {
        message: String::from_str("Environment variables from Rust"),
        app_name: show(&vars.app_name),
        app_env: show(&vars.app_env),
        api_host: show(&vars.api_host),
        api_port: show(&vars.api_port),
        secret_key: secret_status(&vars.secret_key),
    }
}

/// Any two secrets that are set are summarised alike where neither has more than
/// three characters, and where both have more and start with the same three: the
/// summary depends on nothing behind the third character.
pub proof fn secret_summary_hides_the_rest(a: Option<String>, b: Option<String>)
    requires
        a is Some,
        b is Some,
    ensures
        a->0@.len() <= 3 && b->0@.len() <= 3 ==> secret_summary(a) == secret_summary(b),
        a->0@.len() > 3 && b->0@.len() > 3 && a->0@.subrange(0, 3) == b->0@.subrange(0, 3)
            ==> secret_summary(a) == secret_summary(b),
{
}

/// What is shown of a secret is never the whole of it: at most three characters, taken
/// from its start, and fewer than it has unless it is empty.
pub proof fn shown_prefix_is_never_whole(s: Seq<char>)
    ensures
        shown_prefix(s).len() <= 3,
        shown_prefix(s).is_prefix_of(s),
        s.len() > 0 ==> shown_prefix(s).len() < s.len(),
{
}

/// A secret is reported as configured exactly when it is set.
pub proof fn summary_tells_set_from_unset(secret: Option<String>)
    ensures
        secret is Some <==> secret_summary(secret).len() >= 9 && secret_summary(secret).subrange(
            0,
            5,
        ) == "Set ("@,
        secret is None <==> secret_summary(secret) == "Not set"@,
{
    reveal_strlit("Set (");
    reveal_strlit("...)");
    reveal_strlit("Not set");
    if secret is Some {
        let t = secret_summary(secret);
        assert(t.subrange(0, 5) =~= "Set ("@);
    }
}

} // verus!
