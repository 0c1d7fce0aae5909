//! The errors that end the pipeline early, and the responses they become.
use vstd::prelude::*;
use vstd::string::StringExecFns;
use crate::text::push_char;

verus! {

/// Each way in which the pipeline rejects a request.
#[derive(Clone, Copy, Debug, PartialEq, Eq, Structural)]
pub enum ErrorKind {
    Unauthorized,
    MissingParameter,
    InvalidUrl,
    UnsupportedScheme,
    MissingHost,
    ForbiddenHost,
    BackendProvisionFailure,
    UpstreamTransportFailure,
}

/// The HTTP status that each kind of error is answered with.
pub open spec fn status_of(kind: ErrorKind) -> u16 {
    match kind {
        ErrorKind::Unauthorized => 403,
        ErrorKind::MissingParameter => 400,
        ErrorKind::InvalidUrl => 400,
        ErrorKind::UnsupportedScheme => 400,
        ErrorKind::MissingHost => 400,
        ErrorKind::ForbiddenHost => 403,
        ErrorKind::BackendProvisionFailure => 502,
        ErrorKind::UpstreamTransportFailure => 502,
    }
}

/// A rejected request: its kind, a diagnostic and the target URL as given
/// (both empty where the kind carries none).
#[derive(Clone, Debug)]
pub struct ErrorResponse {
    pub kind: ErrorKind,
    pub details: String,
    pub target: String,
}

/// The abstract content of an `ErrorResponse`.
pub struct ErrorView {
    pub kind: ErrorKind,
    pub details: Seq<char>,
    pub target: Seq<char>,
}

impl View for ErrorResponse {
    type V = ErrorView;

    open spec fn view(&self) -> ErrorView {
        ErrorView { kind: self.kind, details: self.details@, target: self.target@ }
    }
}

pub open spec fn hex_digit(n: u32) -> char {
    if n < 10 {
        (('0' as u8) + n as u8) as char
    } else {
        (('a' as u8) + (n - 10) as u8) as char
    }
}

/// How one character is written inside a JSON string.
pub open spec fn escape_char(c: char) -> Seq<char> {
    if c == '"' {
        seq!['\\', '"']
    } else if c == '\\' {
        seq!['\\', '\\']
    } else if c == '\n' {
        seq!['\\', 'n']
    } else if c == '\r' {
        seq!['\\', 'r']
    } else if c == '\t' {
        seq!['\\', 't']
    } else if (c as u32) < 0x20 {
        seq!['\\', 'u', '0', '0', hex_digit((c as u32) / 16), hex_digit((c as u32) % 16)]
    } else {
        seq![c]
    }
}

/// `s` written as the contents of a JSON string.
pub open spec fn json_escape(s: Seq<char>) -> Seq<char>
    decreases s.len(),
{
    if s.len() == 0 {
        Seq::empty()
    } else {
        json_escape(s.drop_last()) + escape_char(s.last())
    }
}

/// The JSON body of an error response.
pub open spec fn body_of(e: ErrorView) -> Seq<char> {
    match e.kind {
        ErrorKind::Unauthorized => "{\"error\":\"Unauthorized\",\"message\":\"Invalid or missing API key\"}"@,
        ErrorKind::MissingParameter => "{\"error\":\"Missing 'url' query parameter\",\"usage\":\"Add ?url=https://example.com/path to your request\"}"@,
        ErrorKind::InvalidUrl => "{\"error\":\"Invalid URL provided\",\"details\":\""@ + json_escape(
            e.details,
        ) + "\"}"@,
        ErrorKind::UnsupportedScheme => "{\"error\":\"Only https URLs are supported\",\"usage\":\"Use https:// URLs (e.g., ?url=https://example.com/path)\"}"@,
        ErrorKind::MissingHost => "{\"error\":\"Invalid URL: missing hostname\"}"@,
        ErrorKind::ForbiddenHost => "{\"error\":\"Forbidden\",\"message\":\"Requests to private or internal hosts are not allowed\"}"@,
        ErrorKind::BackendProvisionFailure => "{\"error\":\"Failed to create backend\",\"details\":\""@
            + json_escape(e.details) + "\",\"target\":\""@ + json_escape(e.target) + "\"}"@,
        ErrorKind::UpstreamTransportFailure => "{\"error\":\"Failed to fetch from origin\",\"details\":\""@
            + json_escape(e.details) + "\",\"target\":\""@ + json_escape(e.target) + "\"}"@,
    }
}

fn hex_char(n: u32) -> (r: char)
    requires
        n < 16,
    ensures
        r == hex_digit(n),
{
    if n < 10 {
        (('0' as u8) + n as u8) as char
    } else {
        (('a' as u8) + (n - 10) as u8) as char
    }
}

/// Appends `s`, escaped as the contents of a JSON string, to `out`.
fn push_escaped(out: &mut String, s: &str)
    ensures
        final(out)@ == old(out)@ + json_escape(s@),
{
    let v = crate::text::chars_of(s);
    let mut i: usize = 0;
    proof {
        assert(v@.take(0) =~= Seq::<char>::empty());
        assert(out@ + json_escape(v@.take(0)) =~= out@);
    }
    while i < v.len()
        invariant
            i <= v@.len(),
            v@ == s@,
            out@ == old(out)@ + json_escape(v@.take(i as int)),
        decreases v@.len() - i,
    {
        let c = v[i];
        let ghost before = out@;
        if c == '"' {
            push_char(out, '\\');
            push_char(out, '"');
        } else if c == '\\' {
            push_char(out, '\\');
            push_char(out, '\\');
        } else if c == '\n' {
            push_char(out, '\\');
            push_char(out, 'n');
        } else if c == '\r' {
            push_char(out, '\\');
            push_char(out, 'r');
        } else if c == '\t' {
            push_char(out, '\\');
            push_char(out, 't');
        } else if (c as u32) < 0x20 {
            push_char(out, '\\');
            push_char(out, 'u');
            push_char(out, '0');
            push_char(out, '0');
            push_char(out, hex_char((c as u32) / 16));
            push_char(out, hex_char((c as u32) % 16));
        } else {
            push_char(out, c);
        }
        proof {
            assert(out@ =~= before + escape_char(c));
            assert(v@.take(i + 1).drop_last() =~= v@.take(i as int));
            assert(json_escape(v@.take(i + 1)) == json_escape(v@.take(i as int)) + escape_char(c));
        }
        i = i + 1;
    }
    proof {
        assert(v@.take(i as int) =~= v@);
    }
}

impl ErrorResponse {
    /// An error of `kind` with no diagnostic and no target.
    pub fn of(kind: ErrorKind) -> (r: ErrorResponse)
        ensures
            r@ == (ErrorView { kind, details: Seq::empty(), target: Seq::empty() }),
    {
        ErrorResponse { kind, details: String::new(), target: String::new() }
    }

    /// The target URL could not be parsed; `details` is the parser's diagnostic.
    pub fn invalid_url(details: &str) -> (r: ErrorResponse)
        ensures
            r@ == (ErrorView { kind: ErrorKind::InvalidUrl, details: details@, target: Seq::empty() }),
    {
        ErrorResponse { kind: ErrorKind::InvalidUrl, details: details.to_owned(), target: String::new() }
    }

    /// The backend for `target` could not be set up; `details` says why.
    pub fn provision_failure(details: &str, target: &str) -> (r: ErrorResponse)
        ensures
            r@ == (ErrorView {
                kind: ErrorKind::BackendProvisionFailure,
                details: details@,
                target: target@,
            }),
    {
        ErrorResponse {
            kind: ErrorKind::BackendProvisionFailure,
            details: details.to_owned(),
            target: target.to_owned(),
        }
    }

    /// Sending to the origin of `target` failed; `details` says why.
    pub fn transport_failure(details: &str, target: &str) -> (r: ErrorResponse)
        ensures
            r@ == (ErrorView {
                kind: ErrorKind::UpstreamTransportFailure,
                details: details@,
                target: target@,
            }),
    {
        ErrorResponse {
            kind: ErrorKind::UpstreamTransportFailure,
            details: details.to_owned(),
            target: target.to_owned(),
        }
    }

    /// The HTTP status of this response.
    pub fn status(&self) -> (r: u16)
        ensures
            r == status_of(self.kind),
    {
        match self.kind {
            ErrorKind::Unauthorized => 403,
            ErrorKind::MissingParameter => 400,
            ErrorKind::InvalidUrl => 400,
            ErrorKind::UnsupportedScheme => 400,
            ErrorKind::MissingHost => 400,
            ErrorKind::ForbiddenHost => 403,
            ErrorKind::BackendProvisionFailure => 502,
            ErrorKind::UpstreamTransportFailure => 502,
        }
    }

    /// The media type of every error body.
    pub fn content_type(&self) -> (r: &'static str)
        ensures
            r@ == "application/json"@,
    {
        "application/json"
    }

    /// The JSON body of this response.
    pub fn body(&self) -> (r: String)
        ensures
            r@ == body_of(self@),
    {
        match self.kind {
            ErrorKind::Unauthorized => String::from_str(
                "{\"error\":\"Unauthorized\",\"message\":\"Invalid or missing API key\"}",
            ),
            ErrorKind::MissingParameter => String::from_str(
                "{\"error\":\"Missing 'url' query parameter\",\"usage\":\"Add ?url=https://example.com/path to your request\"}",
            ),
            ErrorKind::InvalidUrl => {
                let mut out = String::from_str("{\"error\":\"Invalid URL provided\",\"details\":\"");
                push_escaped(&mut out, self.details.as_str());
                out.append("\"}");
                out
            },
            ErrorKind::UnsupportedScheme => String::from_str(
                "{\"error\":\"Only https URLs are supported\",\"usage\":\"Use https:// URLs (e.g., ?url=https://example.com/path)\"}",
            ),
            ErrorKind::MissingHost => String::from_str(
                "{\"error\":\"Invalid URL: missing hostname\"}",
            ),
            ErrorKind::ForbiddenHost => String::from_str(
                "{\"error\":\"Forbidden\",\"message\":\"Requests to private or internal hosts are not allowed\"}",
            ),
            ErrorKind::BackendProvisionFailure => {
                let mut out = String::from_str("{\"error\":\"Failed to create backend\",\"details\":\"");
                push_escaped(&mut out, self.details.as_str());
                out.append("\",\"target\":\"");
                push_escaped(&mut out, self.target.as_str());
                out.append("\"}");
                out
            },
            ErrorKind::UpstreamTransportFailure => {
                let mut out = String::from_str("{\"error\":\"Failed to fetch from origin\",\"details\":\"");
                push_escaped(&mut out, self.details.as_str());
                out.append("\",\"target\":\"");
                push_escaped(&mut out, self.target.as_str());
                out.append("\"}");
                out
            },
        }
    }
}

} // verus!
