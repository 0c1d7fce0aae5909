//! Classification of target hostnames as private or internal.
use vstd::prelude::*;
use crate::text::{chars_eq, chars_of, ends_with, has_prefix, has_suffix, starts_with};

verus! {

/// What `str::to_lowercase` returns for a string.
pub uninterp spec fn lower_of(s: Seq<char>) -> Seq<char>;

/// Relies on `str::to_lowercase`: the result depends on the characters alone.
#[verifier::external_body]
fn lowercase(s: &str) -> (r: String)
    ensures
        r@ == lower_of(s@),
{
    s.to_lowercase()
}

/// The pieces of `s` between dots, as `str::split('.')` yields them.
pub open spec fn split_dots(s: Seq<char>) -> Seq<Seq<char>>
    decreases s.len(),
{
    if s.len() == 0 {
        seq![Seq::<char>::empty()]
    } else {
        let r = split_dots(s.drop_last());
        if s.last() == '.' {
            r.push(Seq::<char>::empty())
        } else {
            r.update(r.len() - 1, r.last().push(s.last()))
        }
    }
}

proof fn lemma_split_dots_nonempty(s: Seq<char>)
    ensures
        split_dots(s).len() >= 1,
    decreases s.len(),
{
    if s.len() > 0 {
        lemma_split_dots_nonempty(s.drop_last());
    }
}

pub open spec fn is_digit(c: char) -> bool {
    '0' <= c <= '9'
}

/// The number that a run of decimal digits writes.
pub open spec fn digits_value(d: Seq<char>) -> nat
    decreases d.len(),
{
    if d.len() == 0 {
        0
    } else {
        digits_value(d.drop_last()) * 10 + ((d.last() as nat) - ('0' as nat)) as nat
    }
}

/// The digits of an octet: an optional leading `+` is dropped, as `u8`'s
/// `FromStr` does.
pub open spec fn octet_digits(s: Seq<char>) -> Seq<char> {
    if s.len() > 0 && s[0] == '+' {
        s.drop_first()
    } else {
        s
    }
}

/// The value of `s` read as a decimal octet (0 to 255), if it is one.
pub open spec fn octet_of(s: Seq<char>) -> Option<u8> {
    let d = octet_digits(s);
    if d.len() > 0 && (forall|k: int| 0 <= k < d.len() ==> is_digit(d[k])) && digits_value(d)
        <= 255 {
        Some(digits_value(d) as u8)
    } else {
        None
    }
}

/// The first two octets of `s` when it is four dot-separated decimal octets.
pub open spec fn dotted_quad_head(s: Seq<char>) -> Option<(u8, u8)> {
    let p = split_dots(s);
    if p.len() == 4 && octet_of(p[0]) is Some && octet_of(p[1]) is Some && octet_of(p[2]) is Some
        && octet_of(p[3]) is Some {
        Some((octet_of(p[0])->0, octet_of(p[1])->0))
    } else {
        None
    }
}

/// An IPv4 address with these first octets is loopback, private, link-local
/// or in the current network.
pub open spec fn reserved_ipv4(a: u8, b: u8) -> bool {
    a == 127 || a == 10 || (a == 172 && 16 <= b <= 31) || (a == 192 && b == 168) || (a == 169
        && b == 254) || a == 0
}

pub open spec fn local_name(lower: Seq<char>) -> bool {
    lower == "localhost"@ || lower == "localhost.localdomain"@ || lower == "::1"@ || lower
        == "[::1]"@
}

pub open spec fn internal_prefix(lower: Seq<char>) -> bool {
    has_prefix(lower, "internal."@) || has_prefix(lower, "intranet."@) || has_prefix(
        lower,
        "private."@,
    ) || has_prefix(lower, "corp."@) || has_prefix(lower, "lan."@)
}

pub open spec fn internal_suffix(lower: Seq<char>) -> bool {
    has_suffix(lower, ".internal"@) || has_suffix(lower, ".local"@) || has_suffix(
        lower,
        ".localhost"@,
    )
}

/// The host `host`, whose lower-case form is `lower`, is private or internal.
pub open spec fn private_host(lower: Seq<char>, host: Seq<char>) -> bool {
    local_name(lower) || (match dotted_quad_head(host) {
        Some((a, b)) => reserved_ipv4(a, b),
        None => false,
    }) || internal_prefix(lower) || internal_suffix(lower)
}

/// Whether `hostname` names a private or internal host.
pub open spec fn is_private_spec(hostname: Seq<char>) -> bool {
    private_host(lower_of(hostname), hostname)
}

/// The pieces of `v` between dots.
fn split_on_dots(v: &Vec<char>) -> (r: Vec<Vec<char>>)
    ensures
        r@.len() == split_dots(v@).len(),
        forall|k: int| 0 <= k < r@.len() ==> #[trigger] r@[k]@ == split_dots(v@)[k],
{
    let mut parts: Vec<Vec<char>> = Vec::new();
    let mut cur: Vec<char> = Vec::new();
    let mut i: usize = 0;
    proof {
        assert(v@.take(0) =~= Seq::<char>::empty());
    }
    while i < v.len()
        invariant
            i <= v@.len(),
            split_dots(v@.take(i as int)).len() == parts@.len() + 1,
            forall|k: int|
                0 <= k < parts@.len() ==> #[trigger] parts@[k]@ == split_dots(v@.take(i as int))[k],
            cur@ == split_dots(v@.take(i as int)).last(),
        decreases v@.len() - i,
    {
        let ghost before = v@.take(i as int);
        proof {
            assert(v@.take(i + 1).drop_last() =~= before);
            lemma_split_dots_nonempty(before);
        }
        let c = v[i];
        if c == '.' {
            parts.push(cur);
            cur = Vec::new();
            proof {
                assert(cur@ =~= Seq::<char>::empty());
            }
        } else {
            cur.push(c);
        }
        i = i + 1;
    }
    proof {
        assert(v@.take(i as int) =~= v@);
    }
    parts.push(cur);
    parts
}

proof fn lemma_digits_prefix(d: Seq<char>, k: int)
    requires
        0 <= k <= d.len(),
        forall|j: int| 0 <= j < d.len() ==> is_digit(d[j]),
    ensures
        digits_value(d.take(k)) <= digits_value(d),
    decreases d.len() - k,
{
    if k < d.len() {
        lemma_digits_prefix(d, k + 1);
        assert(d.take(k + 1).drop_last() =~= d.take(k));
    } else {
        assert(d.take(k) =~= d);
    }
}

/// `p` read as a decimal octet, if it is one.
fn parse_octet(p: &Vec<char>) -> (r: Option<u8>)
    ensures
        r == octet_of(p@),
{
    let start: usize = if p.len() > 0 && p[0] == '+' {
        1
    } else {
        0
    };
    let ghost d = octet_digits(p@);
    proof {
        assert(d =~= p@.skip(start as int));
    }
    if start == p.len() {
        return None;
    }
    let mut val: u32 = 0;
    let mut j: usize = start;
    proof {
        assert(d.take(0) =~= Seq::<char>::empty());
    }
    while j < p.len()
        invariant
            start <= j <= p@.len(),
            d == p@.skip(start as int),
            d == octet_digits(p@),
            d.len() > 0,
            forall|k: int| 0 <= k < j - start ==> is_digit(d[k]),
            val as nat == digits_value(d.take(j - start)),
            val <= 255,
        decreases p@.len() - j,
    {
        let c = p[j];
        if c < '0' || c > '9' {
            proof {
                assert(d[j - start] == c);
                assert(!is_digit(d[j - start]));
            }
            return None;
        }
        proof {
            assert(d.take(j + 1 - start).drop_last() =~= d.take(j - start));
            assert(d[j - start] == c);
        }
        val = val * 10 + ((c as u32) - ('0' as u32));
        j = j + 1;
        if val > 255 {
            proof {
                if forall|k: int| 0 <= k < d.len() ==> is_digit(d[k]) {
                    lemma_digits_prefix(d, j - start);
                }
            }
            return None;
        }
    }
    proof {
        assert(d.take(j - start) =~= d);
    }
    Some(val as u8)
}

/// The first two octets of `v` when it is four dot-separated decimal octets.
fn dotted_quad(v: &Vec<char>) -> (r: Option<(u8, u8)>)
    ensures
        r == dotted_quad_head(v@),
{
    let parts = split_on_dots(v);
    if parts.len() != 4 {
        return None;
    }
    let a = parse_octet(&parts[0]);
    let b = parse_octet(&parts[1]);
    let c = parse_octet(&parts[2]);
    let d = parse_octet(&parts[3]);
    match (a, b, c, d) {
        (Some(a), Some(b), Some(_), Some(_)) => Some((a, b)),
        _ => None,
    }
}

/// Whether `a.b.x.y` lies in a loopback, private, link-local or
/// current-network block.
fn reserved_octets(a: u8, b: u8) -> (r: bool)
    ensures
        r == reserved_ipv4(a, b),
{
    a == 127 || a == 10 || (a == 172 && 16 <= b && b <= 31) || (a == 192 && b == 168) || (a
        == 169 && b == 254) || a == 0
}

/// Whether the host `hostname`, whose lower-case form is `lower`, is private
/// or internal: a localhost name, the IPv6 loopback, an IPv4 address in a
/// reserved block, or a name with an internal prefix or suffix.
pub fn classify_host(lower: &str, hostname: &str) -> (r: bool)
    ensures
        r == private_host(lower@, hostname@),
{
    let lower = chars_of(lower);
    let host = chars_of(hostname);
    if chars_eq(&lower, &chars_of("localhost")) || chars_eq(&lower, &chars_of("localhost.localdomain"))
        || chars_eq(&lower, &chars_of("::1")) || chars_eq(&lower, &chars_of("[::1]")) {
        return true;
    }
    let quad = dotted_quad(&host);
    if let Some((a, b)) = quad {
        if reserved_octets(a, b) {
            return true;
        }
    }
    if starts_with(&lower, &chars_of("internal.")) || starts_with(&lower, &chars_of("intranet."))
        || starts_with(&lower, &chars_of("private.")) || starts_with(&lower, &chars_of("corp."))
        || starts_with(&lower, &chars_of("lan.")) {
        return true;
    }
    ends_with(&lower, &chars_of(".internal")) || ends_with(&lower, &chars_of(".local")) || ends_with(
        &lower,
        &chars_of(".localhost"),
    )
}

/// Whether `hostname` names a private or internal host; names are compared
/// in lower case.
pub fn is_private_host(hostname: &str) -> (r: bool)
    ensures
        r == is_private_spec(hostname@),
{
    let lower = lowercase(hostname);
    classify_host(lower.as_str(), hostname)
}

} // verus!
