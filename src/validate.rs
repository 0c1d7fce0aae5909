//! Caller authorization and target URL validation.
use vstd::prelude::*;
use crate::response::{ErrorKind, ErrorResponse, ErrorView};

verus! {

/// The name/value pairs that `form_urlencoded::parse` decodes from a query
/// string, in order.
pub uninterp spec fn form_pairs(query: Seq<char>) -> Seq<(Seq<char>, Seq<char>)>;

/// Relies on `url::form_urlencoded::parse`: the percent-decoded name/value
/// pairs of a query string, in the order they stand there.
#[verifier::external_body]
fn decode_query(query: &str) -> (r: Vec<(String, String)>)
    ensures
        r@.len() == form_pairs(query@).len(),
        forall|k: int|
            0 <= k < r@.len() ==> #[trigger] r@[k].0@ == form_pairs(query@)[k].0 && r@[k].1@
                == form_pairs(query@)[k].1,
{
    url::form_urlencoded::parse(query.as_bytes()).into_owned().collect()
}

/// The value of the first pair named `name`.
pub open spec fn first_value(pairs: Seq<(Seq<char>, Seq<char>)>, name: Seq<char>) -> Option<
    Seq<char>,
>
    decreases pairs.len(),
{
    if pairs.len() == 0 {
        None
    } else if pairs[0].0 == name {
        Some(pairs[0].1)
    } else {
        first_value(pairs.drop_first(), name)
    }
}

/// The value of the first query parameter named `name`.
pub open spec fn query_param(query: Seq<char>, name: Seq<char>) -> Option<Seq<char>> {
    first_value(form_pairs(query), name)
}

/// The parts of a URL that the pipeline reads: scheme, host, explicit port,
/// path and query, or else the parser's diagnostic.
pub type UrlModel = (Seq<char>, Option<Seq<char>>, Option<u16>, Seq<char>, Option<Seq<char>>);

/// What `url::Url::parse` makes of a string.
pub uninterp spec fn url_parse(s: Seq<char>) -> Result<UrlModel, Seq<char>>;

pub open spec fn opt_view(o: Option<String>) -> Option<Seq<char>> {
    match o {
        Some(s) => Some(s@),
        None => None,
    }
}

/// The parts of a parsed URL that the pipeline reads.
pub struct UrlParts {
    pub scheme: String,
    pub host: Option<String>,
    pub port: Option<u16>,
    pub path: String,
    pub query: Option<String>,
}

impl UrlParts {
    pub open spec fn model(&self) -> UrlModel {
        (self.scheme@, opt_view(self.host), self.port, self.path@, opt_view(self.query))
    }
}

/// Relies on `url::Url::parse` and the accessors `scheme`, `host_str`, `port`,
/// `path` and `query` of the parsed URL; on failure, on the `Display` text of
/// `url::ParseError`.
#[verifier::external_body]
fn parse_url(s: &str) -> (r: Result<UrlParts, String>)
    ensures
        match r {
            Ok(u) => url_parse(s@) == Ok::<UrlModel, Seq<char>>(u.model()),
            Err(e) => url_parse(s@) == Err::<UrlModel, Seq<char>>(e@),
        },
{
    match url::Url::parse(s) {
        Ok(u) => Ok(UrlParts {
            scheme: u.scheme().to_owned(),
            host: u.host_str().map(str::to_owned),
            port: u.port(),
            path: u.path().to_owned(),
            query: u.query().map(str::to_owned),
        }),
        Err(e) => Err(e.to_string()),
    }
}

/// The value of the first pair named `name`, found by a scan from the front.
pub fn find_param(pairs: &Vec<(String, String)>, name: &str) -> (r: Option<String>)
    ensures
        opt_view(r) == first_value(pairs@.map_values(|p: (String, String)| (p.0@, p.1@)), name@),
{
    let ghost all = pairs@.map_values(|p: (String, String)| (p.0@, p.1@));
    let wanted = name.to_owned();
    let mut i: usize = 0;
    proof {
        assert(all.skip(0) =~= all);
    }
    while i < pairs.len()
        invariant
            i <= pairs@.len(),
            all == pairs@.map_values(|p: (String, String)| (p.0@, p.1@)),
            wanted@ == name@,
            first_value(all.skip(i as int), name@) == first_value(all, name@),
        decreases pairs@.len() - i,
    {
        proof {
            assert(all.skip(i as int).drop_first() =~= all.skip(i + 1));
            assert(all.skip(i as int)[0] == all[i as int]);
        }
        if pairs[i].0 == wanted {
            return Some(pairs[i].1.clone());
        }
        i = i + 1;
    }
    proof {
        assert(all.skip(i as int).len() == 0);
    }
    None
}

/// The value of the first query parameter named `name` in `query`.
pub fn get_query_param(query: &str, name: &str) -> (r: Option<String>)
    ensures
        opt_view(r) == query_param(query@, name@),
{
    let pairs = decode_query(query);
    proof {
        assert(pairs@.map_values(|p: (String, String)| (p.0@, p.1@)) =~= form_pairs(query@));
    }
    find_param(&pairs, name)
}

/// The port of a target URL that names none.
pub const DEFAULT_PORT: u16 = 443;

/// A validated target: the URL as the caller gave it, and its host (never
/// empty), port, path and query. Its scheme is always `https`.
#[derive(Clone, Debug)]
pub struct TargetDescriptor {
    pub url: String,
    pub host: String,
    pub port: u16,
    pub path: String,
    pub query: Option<String>,
}

/// The abstract content of a `TargetDescriptor`.
pub struct TargetView {
    pub url: Seq<char>,
    pub host: Seq<char>,
    pub port: u16,
    pub path: Seq<char>,
    pub query: Option<Seq<char>>,
}

impl View for TargetDescriptor {
    type V = TargetView;

    open spec fn view(&self) -> TargetView {
        TargetView {
            url: self.url@,
            host: self.host@,
            port: self.port,
            path: self.path@,
            query: opt_view(self.query),
        }
    }
}

pub open spec fn bare_error(kind: ErrorKind) -> ErrorView {
    ErrorView { kind, details: Seq::empty(), target: Seq::empty() }
}

/// What validation makes of the parsed target URL `u`, given as `url`.
pub open spec fn check_target(url: Seq<char>, u: UrlModel) -> Result<TargetView, ErrorView> {
    if u.0 != "https"@ {
        Err(bare_error(ErrorKind::UnsupportedScheme))
    } else {
        match u.1 {
            Some(h) if h.len() > 0 => Ok(
                TargetView {
                    url,
                    host: h,
                    port: match u.2 {
                        Some(p) => p,
                        None => DEFAULT_PORT,
                    },
                    path: u.3,
                    query: u.4,
                },
            ),
            _ => Err(bare_error(ErrorKind::MissingHost)),
        }
    }
}

/// The outcome of validating a request whose query string is `query`
/// against the shared secret `secret`. The key is checked before the `url`
/// parameter is looked at.
pub open spec fn validate_spec(query: Seq<char>, secret: Seq<char>) -> Result<
    TargetView,
    ErrorView,
> {
    if query_param(query, "key"@) != Some(secret) {
        Err(bare_error(ErrorKind::Unauthorized))
    } else {
        match query_param(query, "url"@) {
            None => Err(bare_error(ErrorKind::MissingParameter)),
            Some(url) => match url_parse(url) {
                Err(d) => Err(ErrorView { kind: ErrorKind::InvalidUrl, details: d, target: Seq::empty() }),
                Ok(u) => check_target(url, u),
            },
        }
    }
}

pub open spec fn target_result_view(r: Result<TargetDescriptor, ErrorResponse>) -> Result<
    TargetView,
    ErrorView,
> {
    match r {
        Ok(t) => Ok(t@),
        Err(e) => Err(e@),
    }
}

/// Checks the parsed target URL `parts` of `url`: the scheme must be
/// `https` and the host present; a missing port is the default one.
pub fn check_parsed_target(url: &str, parts: UrlParts) -> (r: Result<TargetDescriptor, ErrorResponse>)
    ensures
        target_result_view(r) == check_target(url@, parts.model()),
{
    let https = String::from_str("https");
    if parts.scheme != https {
        return Err(ErrorResponse::of(ErrorKind::UnsupportedScheme));
    }
    match parts.host {
        Some(host) => {
            if host.as_str().is_empty() {
                return Err(ErrorResponse::of(ErrorKind::MissingHost));
            }
            let port = match parts.port {
                Some(p) => p,
                None => DEFAULT_PORT,
            };
            Ok(TargetDescriptor { url: url.to_owned(), host, port, path: parts.path, query: parts.query })
        },
        None => Err(ErrorResponse::of(ErrorKind::MissingHost)),
    }
}

/// Authorizes the caller by the `key` parameter of `query` against `secret`,
/// then reads, parses and checks the `url` parameter.
pub fn validate_request(query: &str, secret: &str) -> (r: Result<TargetDescriptor, ErrorResponse>)
    ensures
        target_result_view(r) == validate_spec(query@, secret@),
{
    match get_query_param(query, "key") {
        Some(key) => {
            if key != secret.to_owned() {
                return Err(ErrorResponse::of(ErrorKind::Unauthorized));
            }
        },
        None => {
            return Err(ErrorResponse::of(ErrorKind::Unauthorized));
        },
    }
    let url = match get_query_param(query, "url") {
        Some(u) => u,
        None => {
            return Err(ErrorResponse::of(ErrorKind::MissingParameter));
        },
    };
    match parse_url(url.as_str()) {
        Ok(parts) => check_parsed_target(url.as_str(), parts),
        Err(d) => Err(ErrorResponse::invalid_url(d.as_str())),
    }
}

} // verus!
