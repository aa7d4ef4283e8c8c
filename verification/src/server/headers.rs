use vstd::prelude::*;
use vstd::string::*;
use vstd::utf8::encode_utf8;
use crate::server::upstream::{is_unavailable, upstream_unavailable, GatewayResponse, UpstreamTarget};

verus! {

/// `hyper::HeaderMap`, the headers of a request or a response. Nothing is known of a
/// value of it but what `header_fields` names.
#[verifier::external_type_specification]
#[verifier::external_body]
#[verifier::reject_recursive_types(T)]
pub struct ExHeaderMap<T>(hyper::HeaderMap<T>);

/// `hyper::header::HeaderValue`, the value of one header. It is carried, never read.
#[verifier::external_type_specification]
#[verifier::external_body]
pub struct ExHeaderValue(hyper::header::HeaderValue);

/// What a header map holds: for each header name, in lower case, the values under that
/// name, each as its bytes.
pub uninterp spec fn header_fields(m: hyper::HeaderMap<hyper::header::HeaderValue>) -> Map<
    Seq<char>,
    Seq<Seq<u8>>,
>;

/// Whether the map has room for a Host header: whether `HeaderMap::try_insert` takes a
/// value under the name `host`. The answer lies with the map alone, not with the value.
pub uninterp spec fn header_room(m: hyper::HeaderMap<hyper::header::HeaderValue>) -> bool;

/// Makes a `HeaderValue` of `value` with `HeaderValue::from_str` and puts it under the
/// name `host` with `HeaderMap::try_insert`. Not proved: which texts `from_str` turns
/// down; that `try_insert` refuses only a map without room, and none that holds fewer
/// than 6554 names (it refuses only when its table of 32768 places would have to grow,
/// which takes a fifth of that many names at the least); that on success the map holds
/// this one value under `host`, in place of any it held there, and all else as before;
/// and that it is as before where either call fails.
#[verifier::external_body]
fn try_insert_host(headers: &mut hyper::HeaderMap<hyper::header::HeaderValue>, value: &str) -> (r: Result<(), HostError>)
    ensures
        (r matches Err(HostError::InvalidValue)) <==> !is_header_text(value@),
        r is Ok <==> is_header_text(value@) && header_room(*old(headers)),
        few_names(header_fields(*old(headers))) ==> header_room(*old(headers)),
        r is Ok ==> header_fields(*final(headers)) == with_host(header_fields(*old(headers)), value@),
        r is Err ==> header_fields(*final(headers)) == header_fields(*old(headers)),
{
    match hyper::header::HeaderValue::from_str(value) {
        Ok(v) => match headers.try_insert(hyper::header::HOST, v) {
            Ok(_) => Ok(()),
            Err(_) => Err(HostError::MapFull),
        },
        Err(_) => Err(HostError::InvalidValue),
    }
}

/// Calls `HeaderMap::keys_len`. Not proved: that the names of a map are finitely many
/// and that this is their number.
#[verifier::external_body]
fn count_names(headers: &hyper::HeaderMap<hyper::header::HeaderValue>) -> (r: usize)
    ensures
        has_names(header_fields(*headers), r as nat),
{
    headers.keys_len()
}

/// The fields of a request once its Host header names `host`: one value under `host`,
/// every other name with the values it had.
pub open spec fn with_host(fields: Map<Seq<char>, Seq<Seq<u8>>>, host: Seq<char>) -> Map<
    Seq<char>,
    Seq<Seq<u8>>,
> {
    fields.insert("host"@, seq![encode_utf8(host)])
}

/// Overwrites the Host header of a request that goes to the upstream with the
/// upstream's authority and leaves every other header as it came. The header is written
/// where the authority can be a header value and the map has room, as every map with
/// few names has. Where it is not written the headers are as they were, and the error
/// says why.
pub fn rewrite_host(headers: &mut hyper::HeaderMap<hyper::header::HeaderValue>, target: &UpstreamTarget) -> (r:
    Result<(), HostError>)
    ensures
        (r matches Err(HostError::InvalidValue)) <==> !is_header_text(target.authority_text()),
        r is Ok <==> is_header_text(target.authority_text()) && header_room(*old(headers)),
        is_header_text(target.authority_text()) && few_names(header_fields(*old(headers)))
            ==> r is Ok,
        r is Ok ==> header_fields(*final(headers)) == with_host(
            header_fields(*old(headers)),
            target.authority_text(),
        ),
        r is Err ==> header_fields(*final(headers)) == header_fields(*old(headers)),
{
    let authority = target.authority();
    try_insert_host(headers, authority.as_str())
}

/// Tells whether the headers are few enough that a Host header can always be written.
pub fn has_few_names(headers: &hyper::HeaderMap<hyper::header::HeaderValue>) -> (r: bool)
    ensures
        r == few_names(header_fields(*headers)),
{
    count_names(headers) < 6554
}

/// The answer to a request whose Host header could not be written. Such a request is
/// not sent on, and the client is told no more than that the upstream is unavailable.
pub fn host_failure(e: HostError) -> (r: GatewayResponse)
    ensures
        is_unavailable(r),
{
    upstream_unavailable()
}

/// Whether a map with these fields holds `n` names.
pub open spec fn has_names(fields: Map<Seq<char>, Seq<Seq<u8>>>, n: nat) -> bool {
    fields.dom().finite() && fields.dom().len() == n
}

/// Whether a map with these fields has few names: fewer than a header map can always
/// take one more to.
pub open spec fn few_names(fields: Map<Seq<char>, Seq<Seq<u8>>>) -> bool {
    fields.dom().finite() && fields.dom().len() < 6554
}

/// Why the Host header of an outbound request was not written.
#[derive(Clone, Copy, Debug, PartialEq, Eq, Structural)]
pub enum HostError {
    /// The upstream's authority holds a character that no header value can hold.
    InvalidValue,
    /// The headers have reached the size that the map allows and took no more.
    MapFull,
}

/// Whether a header value can hold `c`: any character but a control character, and of
/// these the tab.
pub open spec fn is_value_char(c: char) -> bool {
    let n = c as u32;
    (n >= 32 && n != 127) || n == 9
}

/// Whether `s` can be the value of a header: each of its characters can be held.
pub open spec fn is_header_text(s: Seq<char>) -> bool {
    forall|i: int| 0 <= i < s.len() ==> is_value_char(#[trigger] s[i])
}

/// After the rewrite the Host header holds the outbound host and nothing else, whatever
/// it held before, and no other header has changed.
pub proof fn host_is_overwritten(fields: Map<Seq<char>, Seq<Seq<u8>>>, host: Seq<char>)
    ensures
        with_host(fields, host)["host"@] == seq![encode_utf8(host)],
        forall|name: Seq<char>|
            name != "host"@ ==> (with_host(fields, host).contains_key(name) <==> fields.contains_key(
                name,
            )),
        forall|name: Seq<char>|
            name != "host"@ && fields.contains_key(name) ==> with_host(fields, host)[name]
                == fields[name],
{
}

} // verus!
