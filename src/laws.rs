//! Properties that hold of the pipeline for every input.
use vstd::prelude::*;
use crate::backend::{alnum, backend_name_of, descriptor_ok, sanitize, BackendDescriptor, FILLER};
use crate::pipeline::admit_spec;
use crate::response::{ErrorKind, ErrorView};
use crate::ssrf::is_private_spec;
use crate::text::eq_ascii_nocase;
use crate::transform::{dropped_header, kept_headers, outbound_body, outbound_headers};
use crate::validate::{bare_error, query_param, url_parse, TargetView, UrlModel};

verus! {

/// A request that holds the right key and an `https` target whose host is
/// private or internal is refused with `ForbiddenHost`, whatever its port,
/// path and query.
pub proof fn lemma_private_host_forbidden(
    query: Seq<char>,
    secret: Seq<char>,
    url: Seq<char>,
    parsed: UrlModel,
    host: Seq<char>,
)
    requires
        query_param(query, "key"@) == Some(secret),
        query_param(query, "url"@) == Some(url),
        url_parse(url) == Ok::<UrlModel, Seq<char>>(parsed),
        parsed.0 == "https"@,
        parsed.1 == Some(host),
        host.len() > 0,
        is_private_spec(host),
    ensures
        admit_spec(query, secret) == Err::<TargetView, ErrorView>(
            bare_error(ErrorKind::ForbiddenHost),
        ),
{
}

/// A request that holds the right key and a target URL whose scheme is not
/// `https` is refused with `UnsupportedScheme`, so no backend is provisioned
/// for it.
pub proof fn lemma_other_scheme_refused(
    query: Seq<char>,
    secret: Seq<char>,
    url: Seq<char>,
    parsed: UrlModel,
)
    requires
        query_param(query, "key"@) == Some(secret),
        query_param(query, "url"@) == Some(url),
        url_parse(url) == Ok::<UrlModel, Seq<char>>(parsed),
        parsed.0 != "https"@,
    ensures
        admit_spec(query, secret) == Err::<TargetView, ErrorView>(
            bare_error(ErrorKind::UnsupportedScheme),
        ),
{
}

/// Without the right key a request is refused with `Unauthorized`, whether
/// its `url` parameter is missing, malformed or fine.
pub proof fn lemma_unauthorized_first(query: Seq<char>, secret: Seq<char>)
    requires
        query_param(query, "key"@) != Some(secret),
    ensures
        admit_spec(query, secret) == Err::<TargetView, ErrorView>(
            bare_error(ErrorKind::Unauthorized),
        ),
{
}

/// Two descriptors built for the same host and port have the same name, and
/// in it each character of the host that is not alphanumeric is the filler.
pub proof fn lemma_backend_name_deterministic(
    a: BackendDescriptor,
    b: BackendDescriptor,
    host: Seq<char>,
    port: u16,
)
    requires
        descriptor_ok(a, host, port),
        descriptor_ok(b, host, port),
    ensures
        a.name@ == b.name@,
        forall|k: int|
            0 <= k < host.len() ==> #[trigger] a.name@[4 + k] == if alnum(host[k]) {
                host[k]
            } else {
                FILLER
            },
{
    reveal_strlit("dyn_");
    assert forall|k: int| 0 <= k < host.len() implies #[trigger] a.name@[4 + k] == if alnum(
        host[k],
    ) {
        host[k]
    } else {
        FILLER
    } by {
        assert(a.name@[4 + k] == sanitize(host)[k]);
    }
}

proof fn lemma_kept_not_dropped(h: Seq<(Seq<char>, Seq<char>)>)
    ensures
        forall|k: int|
            0 <= k < kept_headers(h).len() ==> !dropped_header(#[trigger] kept_headers(h)[k].0),
    decreases h.len(),
{
    if h.len() > 0 {
        lemma_kept_not_dropped(h.drop_last());
        let rest = kept_headers(h.drop_last());
        assert forall|k: int| 0 <= k < kept_headers(h).len() implies !dropped_header(
            #[trigger] kept_headers(h)[k].0,
        ) by {
            if k < rest.len() {
                assert(kept_headers(h)[k] == rest[k]);
            }
        }
    }
}

/// No forwarded header is an `x-forwarded-*` header or a `Host` header
/// from the caller: the one `Host` header is the last, and it names the
/// target host.
pub proof fn lemma_header_hygiene(h: Seq<(Seq<char>, Seq<char>)>, host: Seq<char>)
    ensures
        ({
            let out = outbound_headers(h, host);
            &&& forall|k: int| 0 <= k < out.len() - 1 ==> !dropped_header(#[trigger] out[k].0)
            &&& out.last() == ("host"@, host)
            &&& forall|k: int|
                0 <= k < out.len() && eq_ascii_nocase(#[trigger] out[k].0, "host"@) ==> out[k].1
                    == host
        }),
{
    lemma_kept_not_dropped(h);
    let out = outbound_headers(h, host);
    assert forall|k: int|
        0 <= k < out.len() && eq_ascii_nocase(#[trigger] out[k].0, "host"@) implies out[k].1
        == host by {
        if k < out.len() - 1 {
            assert(out[k] == kept_headers(h)[k]);
            assert(!dropped_header(kept_headers(h)[k].0));
        }
    }
}

/// `GET`, `DELETE` and `HEAD` requests go out without a body; `POST`, `PUT`
/// and `PATCH` requests carry the inbound body unchanged.
pub proof fn lemma_body_by_method(method: Seq<char>, body: Option<Seq<u8>>)
    ensures
        (method == "GET"@ || method == "DELETE"@ || method == "HEAD"@) ==> outbound_body(
            method,
            body,
        ) is None,
        (method == "POST"@ || method == "PUT"@ || method == "PATCH"@) ==> outbound_body(
            method,
            body,
        ) == body,
{
    reveal_strlit("GET");
    reveal_strlit("DELETE");
    reveal_strlit("HEAD");
    reveal_strlit("POST");
    reveal_strlit("PUT");
    reveal_strlit("PATCH");
    if method == "GET"@ || method == "DELETE"@ || method == "HEAD"@ {
        assert(method[0] != 'P');
    }
}

} // verus!
