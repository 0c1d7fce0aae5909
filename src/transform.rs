//! The outbound request: path and query, header hygiene, the body rule and
//! cache bypass.
use vstd::prelude::*;
use vstd::string::StringExecFns;
use crate::text::{chars_of, eq_ascii_nocase, eq_ignore_ascii_case};
use crate::validate::{opt_view, TargetDescriptor};

verus! {

/// A header list as name/value pairs.
pub open spec fn headers_view(h: Seq<(String, String)>) -> Seq<(Seq<char>, Seq<char>)> {
    h.map_values(|p: (String, String)| (p.0@, p.1@))
}

/// A header that is never forwarded: the `x-forwarded-*` trio and `Host`,
/// named in any case.
pub open spec fn dropped_header(name: Seq<char>) -> bool {
    eq_ascii_nocase(name, "x-forwarded-for"@) || eq_ascii_nocase(name, "x-forwarded-host"@)
        || eq_ascii_nocase(name, "x-forwarded-proto"@) || eq_ascii_nocase(name, "host"@)
}

/// The headers of `h` that are forwarded, in their order.
pub open spec fn kept_headers(h: Seq<(Seq<char>, Seq<char>)>) -> Seq<(Seq<char>, Seq<char>)>
    decreases h.len(),
{
    if h.len() == 0 {
        h
    } else {
        let rest = kept_headers(h.drop_last());
        if dropped_header(h.last().0) {
            rest
        } else {
            rest.push(h.last())
        }
    }
}

/// The outbound headers: those kept, then `host` set to the target host.
pub open spec fn outbound_headers(h: Seq<(Seq<char>, Seq<char>)>, host: Seq<char>) -> Seq<
    (Seq<char>, Seq<char>),
> {
    kept_headers(h).push(("host"@, host))
}

/// The outbound path: the target's path, then `?` and its query if it has one.
pub open spec fn outbound_path(path: Seq<char>, query: Option<Seq<char>>) -> Seq<char> {
    match query {
        Some(q) => path + "?"@ + q,
        None => path,
    }
}

/// A method whose requests carry a body.
pub open spec fn carries_body(method: Seq<char>) -> bool {
    method == "POST"@ || method == "PUT"@ || method == "PATCH"@
}

/// The outbound body for `method` and the inbound `body`.
pub open spec fn outbound_body(method: Seq<char>, body: Option<Seq<u8>>) -> Option<Seq<u8>> {
    if carries_body(method) {
        body
    } else {
        None
    }
}

pub open spec fn body_view(b: Option<Vec<u8>>) -> Option<Seq<u8>> {
    match b {
        Some(v) => Some(v@),
        None => None,
    }
}

/// A request as it comes in: method, raw query string (empty where there is
/// none), headers in order, and body.
#[derive(Clone, Debug)]
pub struct IncomingRequest {
    pub method: String,
    pub query: String,
    pub headers: Vec<(String, String)>,
    pub body: Option<Vec<u8>>,
}

/// The request sent to the origin.
#[derive(Clone, Debug)]
pub struct OutboundRequest {
    pub method: String,
    pub path: String,
    pub headers: Vec<(String, String)>,
    pub body: Option<Vec<u8>>,
    /// Never read from nor write to a response cache.
    pub bypass_cache: bool,
}

/// `out` is the outbound request made from `req` for `target`.
pub open spec fn transformed(req: IncomingRequest, target: TargetDescriptor, out: OutboundRequest) -> bool {
    &&& out.method@ == req.method@
    &&& out.path@ == outbound_path(target.path@, opt_view(target.query))
    &&& headers_view(out.headers@) == outbound_headers(headers_view(req.headers@), target.host@)
    &&& body_view(out.body) == outbound_body(req.method@, body_view(req.body))
    &&& out.bypass_cache
}

/// Whether the header named `name` is never forwarded.
fn is_dropped_header(name: &str) -> (r: bool)
    ensures
        r == dropped_header(name@),
{
    let n = chars_of(name);
    eq_ignore_ascii_case(&n, &chars_of("x-forwarded-for")) || eq_ignore_ascii_case(
        &n,
        &chars_of("x-forwarded-host"),
    ) || eq_ignore_ascii_case(&n, &chars_of("x-forwarded-proto")) || eq_ignore_ascii_case(
        &n,
        &chars_of("host"),
    )
}

/// The headers of `headers` that are forwarded, then `host` set to `host`.
pub fn rewrite_headers(headers: &Vec<(String, String)>, host: &str) -> (r: Vec<(String, String)>)
    ensures
        headers_view(r@) == outbound_headers(headers_view(headers@), host@),
{
    let ghost hv = headers_view(headers@);
    let mut out: Vec<(String, String)> = Vec::new();
    let mut i: usize = 0;
    proof {
        assert(hv.take(0) =~= Seq::<(Seq<char>, Seq<char>)>::empty());
        assert(headers_view(out@) =~= Seq::<(Seq<char>, Seq<char>)>::empty());
    }
    while i < headers.len()
        invariant
            i <= headers@.len(),
            hv == headers_view(headers@),
            headers_view(out@) == kept_headers(hv.take(i as int)),
        decreases headers@.len() - i,
    {
        proof {
            assert(hv.take(i + 1).drop_last() =~= hv.take(i as int));
        }
        let drop = is_dropped_header(headers[i].0.as_str());
        if !drop {
            let ghost before = out@;
            out.push((headers[i].0.clone(), headers[i].1.clone()));
            proof {
                assert(headers_view(out@) =~= headers_view(before).push(hv[i as int]));
            }
        }
        i = i + 1;
    }
    proof {
        assert(hv.take(i as int) =~= hv);
    }
    let ghost before = out@;
    out.push((String::from_str("host"), host.to_owned()));
    proof {
        assert(headers_view(out@) =~= headers_view(before).push(("host"@, host@)));
    }
    out
}

/// The target's path, then `?` and its query if it has one.
pub fn origin_path(target: &TargetDescriptor) -> (r: String)
    ensures
        r@ == outbound_path(target.path@, opt_view(target.query)),
{
    let mut p = target.path.clone();
    match &target.query {
        Some(q) => {
            p.append("?");
            p.append(q.as_str());
        },
        None => {},
    }
    p
}

/// Whether requests with `method` carry a body.
pub fn method_carries_body(method: &str) -> (r: bool)
    ensures
        r == carries_body(method@),
{
    let m = method.to_owned();
    m == String::from_str("POST") || m == String::from_str("PUT") || m == String::from_str("PATCH")
}

/// Builds the request for the origin: the method as it came, the target's
/// path and query, the headers rewritten, the body only for a method that
/// carries one, and the cache bypassed.
pub fn transform_request(req: &IncomingRequest, target: &TargetDescriptor) -> (r: OutboundRequest)
    ensures
        transformed(*req, *target, r),
{
    let body = if method_carries_body(req.method.as_str()) {
        req.body.clone()
    } else {
        None
    };
    OutboundRequest {
        method: req.method.clone(),
        path: origin_path(target),
        headers: rewrite_headers(&req.headers, target.host.as_str()),
        body,
        bypass_cache: true,
    }
}

} // verus!
