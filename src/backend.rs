//! Backend descriptors: a stable name and the TLS connection parameters for
//! a target host and port.
use vstd::prelude::*;
use vstd::string::StringExecFns;
use crate::text::{chars_of, push_char};

verus! {

/// What `char::is_alphanumeric` says of a character.
pub uninterp spec fn alnum(c: char) -> bool;

/// Relies on `char::is_alphanumeric`: whether the character is alphabetic
/// or numeric in Unicode's sense.
#[verifier::external_body]
fn is_alnum(c: char) -> (r: bool)
    ensures
        r == alnum(c),
{
    c.is_alphanumeric()
}

/// The character that stands for each non-alphanumeric one in a backend name.
pub const FILLER: char = '_';

/// `host` with every non-alphanumeric character replaced by the filler.
pub open spec fn sanitize(host: Seq<char>) -> Seq<char> {
    Seq::new(host.len(), |k: int| if alnum(host[k]) { host[k] } else { FILLER })
}

pub open spec fn digit_char(d: nat) -> char {
    (('0' as nat) + d) as char
}

/// `n` written in decimal.
pub open spec fn decimal(n: nat) -> Seq<char>
    decreases n,
{
    if n < 10 {
        seq![digit_char(n)]
    } else {
        decimal(n / 10).push(digit_char(n % 10))
    }
}

/// The backend name for `host` and `port`.
pub open spec fn backend_name_of(host: Seq<char>, port: u16) -> Seq<char> {
    "dyn_"@ + sanitize(host) + "_"@ + decimal(port as nat)
}

/// `host:port`.
pub open spec fn address_of(host: Seq<char>, port: u16) -> Seq<char> {
    host + ":"@ + decimal(port as nat)
}

/// Connect timeout, in milliseconds.
pub const CONNECT_TIMEOUT_MS: u64 = 10000;

/// Timeout for the first byte of the response, in milliseconds.
pub const FIRST_BYTE_TIMEOUT_MS: u64 = 30000;

/// Timeout between bytes of the response, in milliseconds.
pub const BETWEEN_BYTES_TIMEOUT_MS: u64 = 30000;

/// Appends `n` in decimal to `out`.
fn push_decimal(out: &mut String, n: u16)
    ensures
        final(out)@ == old(out)@ + decimal(n as nat),
    decreases n,
{
    if n >= 10 {
        push_decimal(out, n / 10);
    }
    let d: u16 = n % 10;
    let c = (('0' as u8) + (d as u8)) as char;
    push_char(out, c);
    proof {
        assert(c == digit_char((n % 10) as nat));
        if n >= 10 {
            assert(decimal(n as nat) == decimal((n / 10) as nat).push(digit_char((n % 10) as nat)));
        }
    }
}

/// `n` written in decimal.
pub fn decimal_string(n: u16) -> (r: String)
    ensures
        r@ == decimal(n as nat),
{
    let mut out = String::new();
    push_decimal(&mut out, n);
    out
}

/// `host` with every non-alphanumeric character replaced by the filler.
pub fn sanitize_host(host: &str) -> (r: String)
    ensures
        r@ == sanitize(host@),
{
    let v = chars_of(host);
    let mut out = String::new();
    let mut i: usize = 0;
    while i < v.len()
        invariant
            i <= v@.len(),
            v@ == host@,
            out@ == sanitize(host@).take(i as int),
        decreases v@.len() - i,
    {
        let c = v[i];
        let keep = is_alnum(c);
        if keep {
            push_char(&mut out, c);
        } else {
            push_char(&mut out, FILLER);
        }
        proof {
            assert(sanitize(host@).take(i + 1) =~= sanitize(host@).take(i as int).push(
                sanitize(host@)[i as int],
            ));
        }
        i = i + 1;
    }
    proof {
        assert(sanitize(host@).take(i as int) =~= sanitize(host@));
    }
    out
}

/// The name of the backend for `host` and `port`: `dyn_`, the sanitized
/// host, `_` and the port.
pub fn backend_name(host: &str, port: u16) -> (r: String)
    ensures
        r@ == backend_name_of(host@, port),
{
    let mut out = String::from_str("dyn_");
    let s = sanitize_host(host);
    out.append(s.as_str());
    out.append("_");
    push_decimal(&mut out, port);
    out
}

/// The parameters of a TLS connection to one origin.
#[derive(Clone, Debug)]
pub struct BackendDescriptor {
    /// A name made of letters, digits and `_` for an ASCII host.
    pub name: String,
    /// `host:port`.
    pub address: String,
    /// The `Host` that the connection presents.
    pub override_host: String,
    /// The name sent in Server Name Indication.
    pub sni_hostname: String,
    /// The name that the certificate must be valid for.
    pub cert_hostname: String,
    pub use_tls: bool,
    pub connect_timeout_ms: u64,
    pub first_byte_timeout_ms: u64,
    pub between_bytes_timeout_ms: u64,
}

/// The backend descriptor for `host` and `port`.
pub open spec fn descriptor_ok(b: BackendDescriptor, host: Seq<char>, port: u16) -> bool {
    &&& b.name@ == backend_name_of(host, port)
    &&& b.address@ == address_of(host, port)
    &&& b.override_host@ == host
    &&& b.sni_hostname@ == host
    &&& b.cert_hostname@ == host
    &&& b.use_tls
    &&& b.connect_timeout_ms == CONNECT_TIMEOUT_MS
    &&& b.first_byte_timeout_ms == FIRST_BYTE_TIMEOUT_MS
    &&& b.between_bytes_timeout_ms == BETWEEN_BYTES_TIMEOUT_MS
}

/// Builds the descriptor of a TLS backend for `host` and `port`: its name,
/// its address, certificate checking and SNI against the host as given, and
/// the fixed timeouts.
pub fn provision_backend(host: &str, port: u16) -> (r: BackendDescriptor)
    ensures
        descriptor_ok(r, host@, port),
{
    let mut address = host.to_owned();
    address.append(":");
    push_decimal(&mut address, port);
    BackendDescriptor {
        name: backend_name(host, port),
        address,
        override_host: host.to_owned(),
        sni_hostname: host.to_owned(),
        cert_hostname: host.to_owned(),
        use_tls: true,
        connect_timeout_ms: CONNECT_TIMEOUT_MS,
        first_byte_timeout_ms: FIRST_BYTE_TIMEOUT_MS,
        between_bytes_timeout_ms: BETWEEN_BYTES_TIMEOUT_MS,
    }
}

} // verus!
