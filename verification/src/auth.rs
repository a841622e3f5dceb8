//! Service-bearer authentication: per-service SHA-256 token digests with
//! a rotation window, constant-time comparison, fail-closed settings.
use crate::error::Error;
use crate::text::{
    append_char, append_str, chars_of, find_char, first_index_of, lemma_first_index, range_equals,
    string_of, text_eq, trim, trim_bounds,
};
use vstd::prelude::*;
use vstd::string::StringSliceAdditionalSpecFns;

verus! {

/// Where service tokens are configured.
pub const ENV_SERVICE_TOKENS: &'static str = "PROPFIRM_SERVICE_TOKENS";

/// Escape hatch permitting an unauthenticated server.
pub const ENV_ALLOW_INSECURE: &'static str = "PROPFIRM_ALLOW_INSECURE";

/// Header carrying the bearer token.
pub const AUTH_HEADER: &'static str = "authorization";

/// Header selecting the tenant on internal routes.
pub const TENANT_HEADER: &'static str = "x-tenant-id";

/// Header carrying the per-request audit correlation id.
pub const CORRELATION_ID_HEADER: &'static str = "x-correlation-id";

/// The SHA-256 digest of a byte string, as `sha2::Sha256` computes it.
pub uninterp spec fn sha256_of(data: Seq<u8>) -> Seq<u8>;

/// Hashes bytes with `sha2::Sha256::digest`; the 32-byte result is named
/// by [`sha256_of`].
#[verifier::external_body]
pub(crate) fn sha256_digest(data: &[u8]) -> (r: Vec<u8>)
    ensures
        r@ == sha256_of(data@),
        r@.len() == 32,
{
    <sha2::Sha256 as sha2::Digest>::digest(data).to_vec()
}

/// Compares two byte slices with `subtle::ConstantTimeEq::ct_eq`: equal
/// exactly when they have the same length and the same bytes.
#[verifier::external_body]
fn ct_bytes_eq(a: &[u8], b: &[u8]) -> (r: bool)
    ensures
        r == (a@ == b@),
{
    bool::from(subtle::ConstantTimeEq::ct_eq(a, b))
}

/// Lower-case hex digit of `n < 16`.
pub open spec fn hex_digit(n: int) -> char {
    if n < 10 {
        (48 + n) as char
    } else {
        (87 + n) as char
    }
}

/// Lower-case hex of a byte string, two digits per byte.
pub open spec fn hex_chars(b: Seq<u8>) -> Seq<char>
    decreases b.len(),
{
    if b.len() == 0 {
        Seq::empty()
    } else {
        hex_chars(b.drop_last()).push(hex_digit((b.last() / 16) as int)).push(hex_digit((b.last() % 16) as int))
    }
}

/// A lower-case hexadecimal digit.
pub open spec fn is_lower_hex(c: char) -> bool {
    ('0' <= c <= '9') || ('a' <= c <= 'f')
}

/// The hex of a byte string has two lower-case hex digits per byte.
pub proof fn lemma_hex_digits(b: Seq<u8>)
    ensures
        hex_chars(b).len() == 2 * b.len(),
        forall|i: int| 0 <= i < hex_chars(b).len() ==> is_lower_hex(#[trigger] hex_chars(b)[i]),
    decreases b.len(),
{
    if b.len() > 0 {
        lemma_hex_digits(b.drop_last());
        let x = b.last();
        assert(x / 16 < 16);
        assert(x % 16 < 16);
    }
}

proof fn lemma_hex_ascii(b: Seq<u8>)
    ensures
        hex_chars(b).len() == 2 * b.len(),
        forall|i: int|
            0 <= i < hex_chars(b).len() ==> '\0' <= #[trigger] hex_chars(b)[i] <= '\u{7f}',
    decreases b.len(),
{
    if b.len() > 0 {
        lemma_hex_ascii(b.drop_last());
    }
}

fn hex_digit_char(n: u8) -> (r: char)
    requires
        n < 16,
    ensures
        r == hex_digit(n as int),
{
    if n < 10 {
        (48 + n) as char
    } else {
        (87 + n) as char
    }
}

/// Formats bytes as lower-case hex.
pub fn hex_fmt(bytes: &[u8]) -> (r: String)
    ensures
        r@ == hex_chars(bytes@),
{
    let mut s = String::new();
    let mut i: usize = 0;
    while i < bytes.len()
        invariant
            i <= bytes@.len(),
            s@ == hex_chars(bytes@.take(i as int)),
        decreases bytes@.len() - i,
    {
        let b = bytes[i];
        append_char(&mut s, hex_digit_char(b / 16));
        append_char(&mut s, hex_digit_char(b % 16));
        proof {
            let t = bytes@.take(i + 1);
            assert(t.drop_last() == bytes@.take(i as int));
            assert(t.last() == b);
        }
        i = i + 1;
    }
    assert(bytes@.take(bytes@.len() as int) == bytes@);
    s
}

/// `v` padded with zero bytes to length `n`.
pub open spec fn pad_zero(v: Seq<u8>, n: int) -> Seq<u8> {
    v + Seq::new((n - v.len()) as nat, |i: int| 0u8)
}

/// The presented token's hex digest equals the expected hex digest, both
/// compared as bytes padded with zeros to the longer length.
pub open spec fn digest_ok(presented: Seq<u8>, expected: Seq<u8>) -> bool {
    let a = hex_chars(sha256_of(presented)).map_values(|c: char| c as u8);
    let n = if a.len() >= expected.len() {
        a.len()
    } else {
        expected.len()
    };
    pad_zero(a, n as int) == pad_zero(expected, n as int)
}

fn padded(v: &[u8], n: usize) -> (r: Vec<u8>)
    requires
        v@.len() <= n,
    ensures
        r@ == pad_zero(v@, n as int),
{
    let mut out: Vec<u8> = Vec::new();
    let mut i: usize = 0;
    while i < v.len()
        invariant
            i <= v@.len() <= n,
            out@ == v@.take(i as int),
        decreases v@.len() - i,
    {
        out.push(v[i]);
        assert(v@.take(i + 1) == v@.take(i as int).push(v@[i as int]));
        i = i + 1;
    }
    assert(v@.take(v@.len() as int) == v@);
    while i < n
        invariant
            v@.len() <= i <= n,
            out@ == v@ + Seq::new((i - v@.len()) as nat, |j: int| 0u8),
        decreases n - i,
    {
        out.push(0u8);
        assert(v@ + Seq::new((i + 1 - v@.len()) as nat, |j: int| 0u8) == (v@ + Seq::new(
            (i - v@.len()) as nat,
            |j: int| 0u8,
        )).push(0u8));
        i = i + 1;
    }
    out
}

/// An authenticated caller: a named internal service.
#[derive(Debug, PartialEq, Eq, Hash)]
pub struct AuthedIdentity {
    pub service_name: String,
}

impl Clone for AuthedIdentity {
    fn clone(&self) -> (r: AuthedIdentity)
        ensures
            r == *self,
    {
        AuthedIdentity { service_name: self.service_name.clone() }
    }
}

impl AuthedIdentity {
    /// The identity of a named service.
    pub fn new(service_name: &str) -> (r: AuthedIdentity)
        ensures
            r.service_name@ == service_name@,
    {
        AuthedIdentity { service_name: service_name.to_string() }
    }
}

/// Digest of one service: active digest and, during a rotation, the
/// previous one.
#[derive(Debug)]
pub struct ServiceToken {
    pub service: String,
    pub active: String,
    pub previous: Option<String>,
}

/// The configured service digests, in configuration order.
#[derive(Debug)]
pub struct ServiceTokens {
    pub entries: Vec<ServiceToken>,
}

/// A configured entry as texts: service, active digest, previous digest.
pub open spec fn entry_view(e: ServiceToken) -> (Seq<char>, Seq<char>, Option<Seq<char>>) {
    (e.service@, e.active@, match e.previous {
        Some(p) => Some(p@),
        None => None,
    })
}

/// The configured entries as texts.
pub open spec fn entries_view(es: Seq<ServiceToken>) -> Seq<(Seq<char>, Seq<char>, Option<Seq<char>>)> {
    es.map_values(|e: ServiceToken| entry_view(e))
}

/// Index of the entry of `service` (`-1` when absent).
pub open spec fn index_of_service(m: Seq<(Seq<char>, Seq<char>, Option<Seq<char>>)>, service: Seq<char>) -> int
    decreases m.len(),
{
    if m.len() == 0 {
        -1
    } else if m.last().0 == service {
        m.len() - 1
    } else {
        index_of_service(m.drop_last(), service)
    }
}

proof fn lemma_index_of_service(m: Seq<(Seq<char>, Seq<char>, Option<Seq<char>>)>, service: Seq<char>)
    ensures
        -1 <= index_of_service(m, service) < m.len(),
        index_of_service(m, service) >= 0 ==> m[index_of_service(m, service)].0 == service,
        index_of_service(m, service) < 0 ==> forall|i: int| 0 <= i < m.len() ==> #[trigger] m[i].0 != service,
    decreases m.len(),
{
    if m.len() > 0 {
        lemma_index_of_service(m.drop_last(), service);
        if m.last().0 != service && index_of_service(m, service) < 0 {
            assert forall|i: int| 0 <= i < m.len() implies #[trigger] m[i].0 != service by {
                if i < m.len() - 1 {
                    assert(m[i] == m.drop_last()[i]);
                }
            }
        }
    }
}

impl ServiceTokens {
    /// The entry of a service, if configured.
    pub fn get(&self, service: &str) -> (r: Option<(&String, &Option<String>)>)
        ensures
            index_of_service(entries_view(self.entries@), service@) < 0 ==> r is None,
            index_of_service(entries_view(self.entries@), service@) >= 0 ==> (r is Some && *(r->0).0
                == self.entries@[index_of_service(entries_view(self.entries@), service@)].active
                && *(r->0).1 == self.entries@[index_of_service(
                entries_view(self.entries@),
                service@,
            )].previous),
    {
        let mut i = self.entries.len();
        assert(self.entries@.take(self.entries@.len() as int) == self.entries@);
        while i > 0
            invariant
                i <= self.entries@.len(),
                index_of_service(entries_view(self.entries@), service@) == index_of_service(
                    entries_view(self.entries@.take(i as int)),
                    service@,
                ),
            decreases i,
        {
            proof {
                let t = self.entries@.take(i as int);
                assert(entries_view(t).drop_last() == entries_view(self.entries@.take(i - 1)));
                assert(entries_view(t).last() == entry_view(self.entries@[i - 1]));
            }
            if text_eq(self.entries[i - 1].service.as_str(), service) {
                return Some((&self.entries[i - 1].active, &self.entries[i - 1].previous));
            }
            i = i - 1;
        }
        None
    }

    /// Number of configured services.
    pub fn len(&self) -> (r: usize)
        ensures
            r == self.entries@.len(),
    {
        self.entries.len()
    }

    /// No service is configured.
    pub fn is_empty(&self) -> (r: bool)
        ensures
            r == (self.entries@.len() == 0),
    {
        self.entries.len() == 0
    }
}


/// A configuration entry (already trimmed, not empty) added to the
/// entries `m`. The pair `service:digest` adds a new service with that
/// active digest. In `service:kind:digest`, `active` adds a new service,
/// `previous` sets the previous digest of a service (adding it with an
/// empty active digest when unknown; a second previous digest is an
/// error). A known service added again, any other kind, a blank service,
/// a missing kind, or a kind without its digest is an error (`None`).
/// Service and digest are trimmed; parts after the digest are ignored.
pub open spec fn parse_entry(
    m: Seq<(Seq<char>, Seq<char>, Option<Seq<char>>)>,
    e: Seq<char>,
) -> Option<Seq<(Seq<char>, Seq<char>, Option<Seq<char>>)>> {
    let c1 = first_index_of(e, ':');
    if c1 < 0 {
        None
    } else {
        let service = trim(e.take(c1));
        let r1 = e.skip(c1 + 1);
        let c2 = first_index_of(r1, ':');
        if service.len() == 0 {
            None
        } else if c2 < 0 {
            if r1 == "active"@ || r1 == "previous"@ || index_of_service(m, service) >= 0 {
                None
            } else {
                Some(m.push((service, trim(r1), None)))
            }
        } else {
            let kind = r1.take(c2);
            let r2 = r1.skip(c2 + 1);
            let c3 = first_index_of(r2, ':');
            let digest = trim(
                if c3 < 0 {
                    r2
                } else {
                    r2.take(c3)
                },
            );
            let k = index_of_service(m, service);
            if kind == "active"@ {
                if k >= 0 {
                    None
                } else {
                    Some(m.push((service, digest, None)))
                }
            } else if kind == "previous"@ {
                if k >= 0 {
                    if m[k].2 is Some {
                        None
                    } else {
                        Some(m.update(k, (m[k].0, m[k].1, Some(digest))))
                    }
                } else {
                    Some(m.push((service, Seq::empty(), Some(digest))))
                }
            } else {
                None
            }
        }
    }
}

/// The comma-separated entries of `s` added, in order, to `m`; blank
/// entries are skipped; `None` at the first erroneous entry.
pub open spec fn parse_pieces(
    m: Seq<(Seq<char>, Seq<char>, Option<Seq<char>>)>,
    s: Seq<char>,
) -> Option<Seq<(Seq<char>, Seq<char>, Option<Seq<char>>)>>
    decreases s.len(),
{
    let c = first_index_of(s, ',');
    let piece = if c < 0 {
        s
    } else {
        s.take(c)
    };
    let e = trim(piece);
    let next = if e.len() == 0 {
        Some(m)
    } else {
        parse_entry(m, e)
    };
    if c < 0 {
        next
    } else {
        proof {
            lemma_first_index(s, ',');
        }
        match next {
            Some(m2) => parse_pieces(m2, s.skip(c + 1)),
            None => None,
        }
    }
}

/// The message of the error an entry gets when [`parse_entry`] refuses it,
/// for the first failed check in the order the checks run.
pub open spec fn entry_error(
    m: Seq<(Seq<char>, Seq<char>, Option<Seq<char>>)>,
    e: Seq<char>,
) -> Seq<char> {
    let c1 = first_index_of(e, ':');
    if c1 < 0 {
        "service token entry is missing its kind"@
    } else {
        let service = trim(e.take(c1));
        let r1 = e.skip(c1 + 1);
        let c2 = first_index_of(r1, ':');
        if service.len() == 0 {
            "service token entry has an empty service name"@
        } else if c2 < 0 {
            if r1 == "active"@ || r1 == "previous"@ {
                "service token entry is missing its digest"@
            } else {
                "duplicate service name in service tokens"@
            }
        } else {
            let kind = r1.take(c2);
            if kind == "active"@ {
                "duplicate service name in service tokens"@
            } else if kind == "previous"@ {
                "duplicate previous token for a service"@
            } else {
                "unknown service token kind"@
            }
        }
    }
}

/// The message of the error of the first erroneous entry of `s` added to
/// `m` (see [`parse_pieces`]).
pub open spec fn pieces_error(
    m: Seq<(Seq<char>, Seq<char>, Option<Seq<char>>)>,
    s: Seq<char>,
) -> Seq<char>
    decreases s.len(),
{
    let c = first_index_of(s, ',');
    let piece = if c < 0 {
        s
    } else {
        s.take(c)
    };
    let e = trim(piece);
    let next = if e.len() == 0 {
        Some(m)
    } else {
        parse_entry(m, e)
    };
    match next {
        None => entry_error(m, e),
        Some(m2) => if c < 0 {
            Seq::empty()
        } else {
            proof {
                lemma_first_index(s, ',');
            }
            pieces_error(m2, s.skip(c + 1))
        },
    }
}

/// The message a malformed or empty service-token text is refused with.
pub open spec fn tokens_error(spec: Seq<char>) -> Seq<char> {
    match parse_pieces(Seq::empty(), spec) {
        None => pieces_error(Seq::empty(), spec),
        Some(_) => "no service token entries found"@,
    }
}

/// The service entries a configuration text declares; `None` when it is
/// malformed or declares none.
pub open spec fn parse_tokens(spec: Seq<char>) -> Option<Seq<(Seq<char>, Seq<char>, Option<Seq<char>>)>> {
    match parse_pieces(Seq::empty(), spec) {
        Some(m) => if m.len() == 0 {
            None
        } else {
            Some(m)
        },
        None => None,
    }
}

fn find_service(entries: &Vec<ServiceToken>, service: &String) -> (r: Option<usize>)
    ensures
        index_of_service(entries_view(entries@), service@) < 0 ==> r is None,
        index_of_service(entries_view(entries@), service@) >= 0 ==> r is Some,
        r is Some ==> r->0 as int == index_of_service(entries_view(entries@), service@),
{
    let mut i = entries.len();
    assert(entries@.take(entries@.len() as int) == entries@);
    while i > 0
        invariant
            i <= entries@.len(),
            index_of_service(entries_view(entries@), service@) == index_of_service(
                entries_view(entries@.take(i as int)),
                service@,
            ),
        decreases i,
    {
        proof {
            let t = entries@.take(i as int);
            assert(entries_view(t).drop_last() == entries_view(entries@.take(i - 1)));
            assert(entries_view(t).last() == entry_view(entries@[i - 1]));
        }
        if entries[i - 1].service == *service {
            return Some(i - 1);
        }
        i = i - 1;
    }
    None
}

/// Adds the entry `v[lo..hi]` (trimmed, not empty) to `entries`.
fn add_entry(entries: &mut Vec<ServiceToken>, v: &Vec<char>, lo: usize, hi: usize) -> (r: Result<
    (),
    Error,
>)
    requires
        lo <= hi <= v@.len(),
    ensures
        parse_entry(entries_view(old(entries)@), v@.subrange(lo as int, hi as int)) matches Some(m) ==> r is Ok && entries_view(final(entries)@) == m,
        parse_entry(entries_view(old(entries)@), v@.subrange(lo as int, hi as int)) is None ==> r is Err && r->Err_0 is InvalidConfig
            && r->Err_0->InvalidConfig_0@ == entry_error(entries_view(old(entries)@), v@.subrange(lo as int, hi as int)),
{
    let ghost e = v@.subrange(lo as int, hi as int);
    let ghost m = entries_view(entries@);
    let c1 = find_char(v, ':', lo, hi);
    if c1 == hi {
        return Err(Error::invalid_config("service token entry is missing its kind"));
    }
    let c2 = find_char(v, ':', c1 + 1, hi);
    proof {
        assert(e.take(c1 - lo) == v@.subrange(lo as int, c1 as int));
        assert(e.skip(c1 - lo + 1) == v@.subrange(c1 + 1, hi as int));
    }
    let (slo, shi) = trim_bounds(v, lo, c1);
    if slo == shi {
        return Err(Error::invalid_config("service token entry has an empty service name"));
    }
    if c2 == hi {
        if range_equals(v, c1 + 1, hi, "active") || range_equals(v, c1 + 1, hi, "previous") {
            return Err(Error::invalid_config("service token entry is missing its digest"));
        }
        let (dlo, dhi) = trim_bounds(v, c1 + 1, hi);
        let service = string_of(v, slo, shi);
        let digest = string_of(v, dlo, dhi);
        let k = find_service(entries, &service);
        proof {
            lemma_index_of_service(m, service@);
        }
        match k {
            Some(_) => {
                return Err(Error::invalid_config("duplicate service name in service tokens"));
            },
            None => {},
        }
        entries.push(ServiceToken { service, active: digest, previous: None });
        proof {
            assert(entries_view(entries@) == m.push((service@, digest@, None)));
        }
        return Ok(());
    }
    let c3 = find_char(v, ':', c2 + 1, hi);
    proof {
        let r1 = v@.subrange(c1 + 1, hi as int);
        assert(r1.take(c2 - c1 - 1) == v@.subrange(c1 + 1, c2 as int));
        assert(r1.skip(c2 - c1 - 1 + 1) == v@.subrange(c2 + 1, hi as int));
        let r2 = v@.subrange(c2 + 1, hi as int);
        if c3 < hi {
            assert(r2.take(c3 - c2 - 1) == v@.subrange(c2 + 1, c3 as int));
        }
    }
    let (dlo, dhi) = trim_bounds(v, c2 + 1, c3);
    let service = string_of(v, slo, shi);
    let digest = string_of(v, dlo, dhi);
    let k = find_service(entries, &service);
    proof {
        lemma_index_of_service(m, service@);
        assert(m.len() == entries@.len());
    }
    if range_equals(v, c1 + 1, c2, "active") {
        match k {
            Some(_) => {
                return Err(Error::invalid_config("duplicate service name in service tokens"));
            },
            None => {},
        }
        entries.push(ServiceToken { service, active: digest, previous: None });
        proof {
            assert(entries_view(entries@) == m.push((service@, digest@, None)));
        }
        Ok(())
    } else if range_equals(v, c1 + 1, c2, "previous") {
        match k {
            Some(i) => {
                assert(m[i as int] == entry_view(entries@[i as int]));
                if entries[i].previous.is_some() {
                    assert(index_of_service(m, service@) == i);
                    assert(service@ == trim(e.take(c1 - lo)));
                    assert(v@.subrange(c1 + 1, c2 as int) == "previous"@);
                    assert(parse_entry(m, e) is None);
                    return Err(Error::invalid_config("duplicate previous token for a service"));
                }
                let old_entry = entries.remove(i);
                let ghost before = entries@;
                let ServiceToken { service: sv, active: ac, previous: _ } = old_entry;
                entries.insert(i, ServiceToken { service: sv, active: ac, previous: Some(digest) });
                proof {
                    assert(entries_view(entries@) =~= m.update(i as int, (m[i as int].0, m[i as int].1, Some(digest@))));
                }
                Ok(())
            },
            None => {
                entries.push(ServiceToken { service, active: String::new(), previous: Some(digest) });
                proof {
                    assert(entries_view(entries@) == m.push((service@, Seq::<char>::empty(), Some(digest@))));
                }
                Ok(())
            },
        }
    } else {
        Err(Error::invalid_config("unknown service token kind"))
    }
}

/// Parses the service-token configuration: comma-separated
/// `service:sha256hex` pairs, also written `service:active:sha256hex`,
/// and `service:previous:sha256hex` entries for a rotation window
/// (blank entries skipped, service and digest trimmed). Malformed input,
/// or input without any entry, is an `InvalidConfig` error.
pub fn parse_service_token_spec(spec: &str) -> (r: Result<ServiceTokens, Error>)
    ensures
        parse_tokens(spec@) matches Some(m) ==> r is Ok && entries_view(r->Ok_0.entries@) == m,
        parse_tokens(spec@) is None ==> r is Err && r->Err_0 is InvalidConfig
            && r->Err_0->InvalidConfig_0@ == tokens_error(spec@),
{
    let v = chars_of(spec);
    let n = v.len();
    let mut entries: Vec<ServiceToken> = Vec::new();
    let mut pos: usize = 0;
    assert(v@.subrange(0, n as int) == v@);
    assert(entries_view(entries@) == Seq::<(Seq<char>, Seq<char>, Option<Seq<char>>)>::empty());
    loop
        invariant_except_break
            parse_pieces(Seq::empty(), spec@) == parse_pieces(entries_view(entries@), v@.subrange(pos as int, n as int)),
            parse_pieces(Seq::empty(), spec@) is None ==> pieces_error(Seq::empty(), spec@) == pieces_error(
                entries_view(entries@),
                v@.subrange(pos as int, n as int),
            ),
        invariant
            pos <= n == v@.len(),
            v@ == spec@,
        ensures
            parse_pieces(Seq::empty(), spec@) == Some(entries_view(entries@)),
        decreases n - pos,
    {
        let ghost s = v@.subrange(pos as int, n as int);
        let end = find_char(&v, ',', pos, n);
        proof {
            if end < n {
                assert(s.take(end - pos) == v@.subrange(pos as int, end as int));
                assert(s.skip(end - pos + 1) == v@.subrange(end + 1, n as int));
            } else {
                assert(s == v@.subrange(pos as int, end as int));
            }
        }
        let (lo, hi) = trim_bounds(&v, pos, end);
        if lo < hi {
            match add_entry(&mut entries, &v, lo, hi) {
                Ok(()) => {},
                Err(e) => {
                    return Err(e);
                },
            }
        }
        if end == n {
            break;
        }
        pos = end + 1;
    }
    if entries.len() == 0 {
        return Err(Error::invalid_config("no service token entries found"));
    }
    Ok(ServiceTokens { entries })
}


/// The token of an `Authorization` value `Bearer <token>` (or
/// `bearer <token>`).
pub open spec fn bearer_token(h: Seq<char>) -> Option<Seq<char>> {
    if h.len() >= 7 && (h.take(7) == "Bearer "@ || h.take(7) == "bearer "@) {
        Some(h.skip(7))
    } else {
        None
    }
}

/// The first configured service whose active digest, or else previous
/// digest, matches the token.
pub open spec fn first_matching_service(
    m: Seq<(Seq<char>, Seq<char>, Option<Seq<char>>)>,
    token: Seq<u8>,
) -> Option<Seq<char>>
    decreases m.len(),
{
    if m.len() == 0 {
        None
    } else if digest_ok(token, vstd::utf8::encode_utf8(m[0].1)) || (m[0].2 matches Some(p)
        && digest_ok(token, vstd::utf8::encode_utf8(p))) {
        Some(m[0].0)
    } else {
        first_matching_service(m.drop_first(), token)
    }
}

/// The service authenticated by an `Authorization` header value.
pub open spec fn authenticated_service(
    m: Seq<(Seq<char>, Seq<char>, Option<Seq<char>>)>,
    header: Option<Seq<char>>,
) -> Option<Seq<char>> {
    match header {
        None => None,
        Some(h) => match bearer_token(h) {
            None => None,
            Some(t) => if t.len() == 0 {
                None
            } else {
                first_matching_service(m, vstd::utf8::encode_utf8(t))
            },
        },
    }
}

/// The resolved authentication configuration.
#[derive(Debug)]
pub struct AuthConfig {
    /// Configured service digests.
    pub service_tokens: ServiceTokens,
    /// The server was deliberately started without authentication.
    pub allow_insecure: bool,
}

impl AuthConfig {
    /// Builds the configuration from the two settings: the service-token
    /// text (if set) and the insecure escape hatch (enabled by exactly
    /// `"1"`). Fails closed: without tokens and without the escape hatch
    /// it is an `InvalidConfig` error, as is a malformed token text.
    pub fn from_settings(tokens_spec: Option<&str>, allow_insecure_value: Option<&str>) -> (r: Result<
        AuthConfig,
        Error,
    >)
        ensures
            ({
                let allow = allow_insecure_value matches Some(v) && v@ == "1"@;
                match tokens_spec {
                    Some(t) => match parse_tokens(t@) {
                        Some(m) => r is Ok && entries_view(r->Ok_0.service_tokens.entries@) == m
                            && r->Ok_0.allow_insecure == allow,
                        None => r is Err && r->Err_0 is InvalidConfig,
                    },
                    None => if allow {
                        r is Ok && r->Ok_0.service_tokens.entries@.len() == 0
                            && r->Ok_0.allow_insecure
                    } else {
                        r is Err && r->Err_0 is InvalidConfig
                    },
                }
            }),
    {
        let allow_insecure = match allow_insecure_value {
            Some(v) => text_eq(v, "1"),
            None => false,
        };
        let tokens = match tokens_spec {
            Some(t) => match parse_service_token_spec(t) {
                Ok(m) => Some(m),
                Err(e) => {
                    return Err(e);
                },
            },
            None => None,
        };
        match tokens {
            Some(service_tokens) => Ok(AuthConfig { service_tokens, allow_insecure }),
            None => if allow_insecure {
                Ok(AuthConfig { service_tokens: ServiceTokens { entries: Vec::new() }, allow_insecure })
            } else {
                Err(
                    Error::invalid_config(
                        "refusing to start unauthenticated: set PROPFIRM_SERVICE_TOKENS or PROPFIRM_ALLOW_INSECURE=1",
                    ),
                )
            },
        }
    }

    /// Startup warnings: running without authentication (when the
    /// escape hatch is on and no token is configured), and no token
    /// configured.
    pub fn insecure_warnings(&self) -> (r: Vec<String>)
        ensures
            r@.len() == (if self.allow_insecure && self.service_tokens.entries@.len() == 0 {
                1int
            } else {
                0int
            }) + (if self.service_tokens.entries@.len() == 0 {
                1int
            } else {
                0int
            }),
    {
        let mut w: Vec<String> = Vec::new();
        if self.allow_insecure && self.service_tokens.is_empty() {
            w.push(
                "WARNING: PROPFIRM_ALLOW_INSECURE=1 — this server is running WITHOUT authentication. NOT for production.".to_string(),
            );
        }
        if self.service_tokens.is_empty() {
            w.push(
                "WARNING: no service bearer tokens configured — every /internal/* and /v1 request will be rejected with 401.".to_string(),
            );
        }
        w
    }

    /// The identity of the caller presenting `Authorization: Bearer
    /// <token>`: the first configured service whose active digest, or else
    /// previous digest (rotation window), matches the token. `None`
    /// without a header, without the bearer prefix, with an empty token,
    /// or when no digest matches.
    pub fn authenticate(&self, auth_header: Option<&str>) -> (r: Option<AuthedIdentity>)
        ensures
            ({
                let h = match auth_header {
                    Some(x) => Some(x@),
                    None => None::<Seq<char>>,
                };
                match authenticated_service(entries_view(self.service_tokens.entries@), h) {
                    Some(s) => r is Some && r->0.service_name@ == s,
                    None => r is None,
                }
            }),
    {
        let raw = match auth_header {
            Some(x) => x,
            None => {
                return None;
            },
        };
        let v = chars_of(raw);
        let n = v.len();
        if n < 7 {
            return None;
        }
        let prefixed = range_equals(&v, 0, 7, "Bearer ") || range_equals(&v, 0, 7, "bearer ");
        proof {
            assert(v@.subrange(0, 7) == v@.take(7));
        }
        if !prefixed {
            return None;
        }
        let token = string_of(&v, 7, n);
        proof {
            assert(v@.subrange(7, n as int) == raw@.skip(7));
        }
        if n == 7 {
            return None;
        }
        let tok = token.as_str();
        let entries = &self.service_tokens.entries;
        let ghost m = entries_view(entries@);
        let ghost goal = authenticated_service(
            m,
            match auth_header {
                Some(x) => Some(x@),
                None => None::<Seq<char>>,
            },
        );
        assert(goal == first_matching_service(m, tok.spec_bytes()));
        let mut i: usize = 0;
        assert(m.skip(0) == m);
        while i < entries.len()
            invariant
                i <= entries@.len(),
                m == entries_view(entries@),
                m == entries_view(self.service_tokens.entries@),
                goal == authenticated_service(
                    m,
                    match auth_header {
                        Some(x) => Some(x@),
                        None => None::<Seq<char>>,
                    },
                ),
                goal == first_matching_service(m, tok.spec_bytes()),
                tok@ == raw@.skip(7),
                first_matching_service(m, tok.spec_bytes()) == first_matching_service(m.skip(i as int), tok.spec_bytes()),
            decreases entries@.len() - i,
        {
            proof {
                assert(m.skip(i as int)[0] == entry_view(entries@[i as int]));
                assert(m.skip(i as int).drop_first() == m.skip(i + 1));
            }
            let e = &entries[i];
            if AuthConfig::digest_matches(tok, e.active.as_str()) {
                return Some(AuthedIdentity::new(e.service.as_str()));
            }
            match &e.previous {
                Some(p) => {
                    if AuthConfig::digest_matches(tok, p.as_str()) {
                        return Some(AuthedIdentity::new(e.service.as_str()));
                    }
                },
                None => {},
            }
            i = i + 1;
        }
        None
    }

    /// Checks a presented raw token against an expected hex digest: the
    /// token's SHA-256 hex digest and the expected text are compared as bytes,
    /// zero-padded to equal length, in constant time.
    pub fn digest_matches(presented: &str, expected_hex: &str) -> (r: bool)
        ensures
            r == digest_ok(presented.spec_bytes(), expected_hex.spec_bytes()),
    {
        let d = sha256_digest(presented.as_bytes());
        let hex = hex_fmt(d.as_slice());
        let hs = hex.as_str();
        proof {
            lemma_hex_ascii(d@);
            assert(vstd::string::is_ascii(hs));
            assert(hs.spec_bytes() =~= hex_chars(sha256_of(presented.spec_bytes())).map_values(
                |c: char| c as u8,
            ));
        }
        let a = hs.as_bytes();
        let b = expected_hex.as_bytes();
        let n = if a.len() >= b.len() {
            a.len()
        } else {
            b.len()
        };
        let pa = padded(a, n);
        let pb = padded(b, n);
        ct_bytes_eq(pa.as_slice(), pb.as_slice())
    }

    /// Paths that never require credentials (`/health`, `/ready`).
    pub fn is_exempt(path: &str) -> (r: bool)
        ensures
            r == (path@ == "/health"@ || path@ == "/ready"@),
    {
        text_eq(path, "/health") || text_eq(path, "/ready")
    }
}

} // verus!
