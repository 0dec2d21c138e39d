//! Reading one HTTP/1.x request head: the permissive head parser sits behind
//! a trusted wrapper, and everything after it — method and version mapping,
//! target-URL normalization, host completion — is verified.

use vstd::prelude::*;

use crate::bytes::{
    ascii_bytes, bytes_as_str, contains_byte, eq_lit, has_byte, last_index_of, lemma_last_index_of,
    lit_bytes, push_all, spec_last_index_of,
};
use crate::error::{Error, Part};
use crate::http::{Request, RequestView, spec_parse_method, spec_version_of, parse_method,
    version_of_tag};

verus! {

/// What the head parser reports about a complete request head, as a
/// mathematical value.
pub struct HeadView {
    pub method: Option<Seq<u8>>,
    pub target: Option<Seq<u8>>,
    pub version: Option<u8>,
    pub headers: Seq<(Seq<u8>, Seq<u8>)>,
    pub offset: nat,
}

/// What the head parser reports about a complete request head.
pub struct ParsedHead {
    pub method: Option<Vec<u8>>,
    pub target: Option<Vec<u8>>,
    pub version: Option<u8>,
    pub headers: Vec<(Vec<u8>, Vec<u8>)>,
    pub offset: usize,
}

/// The mathematical contents of a header list.
pub open spec fn headers_view(hs: Seq<(Vec<u8>, Vec<u8>)>) -> Seq<(Seq<u8>, Seq<u8>)> {
    hs.map_values(|p: (Vec<u8>, Vec<u8>)| (p.0@, p.1@))
}

impl View for ParsedHead {
    type V = HeadView;

    open spec fn view(&self) -> HeadView {
        HeadView {
            method: match self.method {
                Some(m) => Some(m@),
                None => None,
            },
            target: match self.target {
                Some(t) => Some(t@),
                None => None,
            },
            version: self.version,
            headers: headers_view(self.headers@),
            offset: self.offset as nat,
        }
    }
}

/// What the permissive HTTP/1.x head parser, run with 64 header slots, makes
/// of a byte buffer: `None` for an error or an incomplete head, otherwise the
/// parsed fields and the byte length of the head.
pub uninterp spec fn head_parse(buf: Seq<u8>) -> Option<HeadView>;

/// Relies on httparse::Request::parse (with 64 header slots): on a complete
/// head it reports the method, request-target, numeric version tag, header
/// list and the head's byte length, which never exceeds the buffer's; an
/// error or a partial head is reported as `None`.
#[verifier::external_body]
fn parse_head(buf: &[u8]) -> (r: Option<ParsedHead>)
    ensures
        r is Some <==> head_parse(buf@) is Some,
        r matches Some(h) ==> head_parse(buf@) == Some(h@),
        r matches Some(h) ==> h.offset <= buf@.len(),
{
    let mut headers = [httparse::EMPTY_HEADER; 64];
    let mut req = httparse::Request::new(&mut headers);
    match req.parse(buf) {
        Ok(httparse::Status::Complete(offset)) => Some(ParsedHead {
            method: req.method.map(|s| s.as_bytes().to_vec()),
            target: req.path.map(|s| s.as_bytes().to_vec()),
            version: req.version,
            headers: req.headers.iter().map(|h| (h.name.as_bytes().to_vec(), h.value.to_vec())).collect(),
            offset,
        }),
        _ => None,
    }
}

/// The `://` separator that marks an absolute-form request target.
pub open spec fn scheme_sep() -> Seq<u8> {
    seq![':' as u8, '/' as u8, '/' as u8]
}

/// Whether `://` occurs anywhere in `s`.
pub open spec fn has_scheme_sep(s: Seq<u8>) -> bool {
    exists|i: int| 0 <= i && i + 3 <= s.len() && #[trigger] s.subrange(i, i + 3) == scheme_sep()
}

/// Whether `://` occurs anywhere in `v`.
pub fn contains_scheme_sep(v: &[u8]) -> (r: bool)
    ensures
        r == has_scheme_sep(v@),
{
    if v.len() < 3 {
        return false;
    }
    let mut i: usize = 0;
    while i <= v.len() - 3
        invariant
            v@.len() >= 3,
            i <= v@.len(),
            forall|j: int| 0 <= j < i ==> #[trigger] v@.subrange(j, j + 3) != scheme_sep(),
        decreases v@.len() - i,
    {
        let hit = v[i] == ':' as u8 && v[i + 1] == '/' as u8 && v[i + 2] == '/' as u8;
        proof {
            assert(v@.subrange(i as int, i as int + 3)[0] == v@[i as int]);
            assert(v@.subrange(i as int, i as int + 3)[1] == v@[i as int + 1]);
            assert(v@.subrange(i as int, i as int + 3)[2] == v@[i as int + 2]);
        }
        if hit {
            proof {
                assert(v@.subrange(i as int, i as int + 3) =~= scheme_sep());
            }
            return true;
        }
        i += 1;
    }
    proof {
        assert forall|j: int| 0 <= j && j + 3 <= v@.len() implies #[trigger] v@.subrange(j, j + 3)
            != scheme_sep() by {
            assert(j < i);
        }
    }
    false
}

/// The bytes after the last `:` of a request target, if it has one.
pub open spec fn port_suffix(s: Seq<u8>) -> Option<Seq<u8>> {
    match spec_last_index_of(s, ':' as u8) {
        Some(i) => Some(s.subrange(i + 1, s.len() as int)),
        None => None,
    }
}

/// The scheme synthesized for a request target without `://`: `https` for a
/// trailing `:443`, `ftp` for `:21`, `http` otherwise.
pub open spec fn spec_scheme_for(s: Seq<u8>) -> Seq<u8> {
    match port_suffix(s) {
        Some(p) => if p == ascii_bytes("443"@) {
            ascii_bytes("https"@)
        } else if p == ascii_bytes("21"@) {
            ascii_bytes("ftp"@)
        } else {
            ascii_bytes("http"@)
        },
        None => ascii_bytes("http"@),
    }
}

/// The scheme synthesized for a request target without `://`.
pub fn scheme_for(t: &[u8]) -> (r: Vec<u8>)
    ensures
        r@ == spec_scheme_for(t@),
{
    proof {
        reveal_strlit("443");
        reveal_strlit("21");
        reveal_strlit("https");
        reveal_strlit("ftp");
        reveal_strlit("http");
        lemma_last_index_of(t@, ':' as u8);
    }
    match last_index_of(t, ':' as u8) {
        None => lit_bytes("http"),
        Some(i) => {
            let n = t.len();
            proof {
                assert(spec_last_index_of(t@, ':' as u8) == Some(i as int));
                assert((i as int) < t@.len());
            }
            let suffix = vstd::slice::slice_subrange(t, i + 1, n);
            if eq_lit(suffix, "443") {
                lit_bytes("https")
            } else if eq_lit(suffix, "21") {
                lit_bytes("ftp")
            } else {
                lit_bytes("http")
            }
        },
    }
}

/// The canonical absolute target: a target with `://` stays as it is, any
/// other has a synthesized scheme and `://` prepended.
pub open spec fn spec_normalize_target(t: Seq<u8>) -> Seq<u8> {
    if has_scheme_sep(t) {
        t
    } else {
        spec_scheme_for(t) + scheme_sep() + t
    }
}

/// Normalizes a request target to an absolute URL.
pub fn normalize_target(t: Vec<u8>) -> (r: Vec<u8>)
    ensures
        r@ == spec_normalize_target(t@),
{
    if contains_scheme_sep(t.as_slice()) {
        t
    } else {
        let mut out = scheme_for(t.as_slice());
        out.push(':' as u8);
        out.push('/' as u8);
        out.push('/' as u8);
        push_all(&mut out, t.as_slice());
        proof {
            assert(out@ =~= spec_scheme_for(t@) + scheme_sep() + t@);
        }
        out
    }
}

/// The authority with an explicit port: a host with a `:` stays as it is, any
/// other has `:80` appended.
pub open spec fn spec_complete_host(h: Seq<u8>) -> Seq<u8> {
    if has_byte(h, ':' as u8) {
        h
    } else {
        h + ascii_bytes(":80"@)
    }
}

/// Completes an authority with an explicit port.
pub fn complete_host(h: Vec<u8>) -> (r: Vec<u8>)
    ensures
        r@ == spec_complete_host(h@),
{
    proof {
        reveal_strlit(":80");
    }
    let ghost h0 = h@;
    if contains_byte(h.as_slice(), ':' as u8) {
        h
    } else {
        let mut out = h;
        out.push(':' as u8);
        out.push('8' as u8);
        out.push('0' as u8);
        proof {
            assert(out@ =~= spec_complete_host(h0));
        }
        out
    }
}

/// The value of the first `Host` header, if any.
pub open spec fn spec_find_host(hs: Seq<(Seq<u8>, Seq<u8>)>) -> Option<Seq<u8>>
    decreases hs.len(),
{
    if hs.len() == 0 {
        None
    } else if hs[0].0 == ascii_bytes("Host"@) {
        Some(hs[0].1)
    } else {
        spec_find_host(hs.drop_first())
    }
}

/// Finds the value of the first `Host` header, if any.
fn find_host(headers: &Vec<(Vec<u8>, Vec<u8>)>) -> (r: Option<Vec<u8>>)
    ensures
        match r {
            Some(v) => spec_find_host(headers_view(headers@)) == Some(v@),
            None => spec_find_host(headers_view(headers@)) is None,
        },
{
    proof {
        reveal_strlit("Host");
        assert(headers_view(headers@).skip(0) =~= headers_view(headers@));
    }
    let ghost hv = headers_view(headers@);
    let mut i: usize = 0;
    while i < headers.len()
        invariant
            i <= headers@.len(),
            hv == headers_view(headers@),
            hv.len() == headers@.len(),
            spec_find_host(hv) == spec_find_host(hv.skip(i as int)),
        decreases headers@.len() - i,
    {
        proof {
            reveal_strlit("Host");
            assert(hv.skip(i as int)[0] == hv[i as int]);
        }
        if eq_lit(headers[i].0.as_slice(), "Host") {
            return Some(vstd::slice::slice_to_vec(headers[i].1.as_slice()));
        }
        proof {
            assert(hv.skip(i as int).drop_first() =~= hv.skip(i as int + 1));
        }
        i += 1;
    }
    proof {
        assert(hv.skip(i as int) =~= Seq::<(Seq<u8>, Seq<u8>)>::empty());
    }
    None
}

/// What one buffered read parses and normalizes to: the head parser's verdict
/// first, then — in this order — method, target, version and host are checked
/// and normalized exactly as the handler does it.
pub open spec fn spec_parse_request(buf: Seq<u8>) -> Result<RequestView, Error> {
    match head_parse(buf) {
        None => Err(Error::Parse),
        Some(h) => {
            let payload = buf.take(h.offset as int);
            match h.method {
                None => Err(Error::BadRequest(Part::Method)),
                Some(mb) => match spec_parse_method(mb) {
                    None => Err(Error::BadRequest(Part::Method)),
                    Some(method) => match h.target {
                        None => Err(Error::BadRequest(Part::Path)),
                        Some(t) => {
                            let path = spec_normalize_target(t);
                            match h.version {
                                None => Err(Error::BadRequest(Part::Version)),
                                Some(tag) => match spec_find_host(h.headers) {
                                    None => Err(Error::BadRequest(Part::Host)),
                                    Some(hb) => if !vstd::utf8::valid_utf8(hb) {
                                        Err(Error::Utf8)
                                    } else {
                                        Ok(RequestView {
                                            method,
                                            path,
                                            version: spec_version_of(tag),
                                            host: spec_complete_host(hb),
                                            payload,
                                        })
                                    },
                                },
                            }
                        },
                    },
                },
            }
        },
    }
}

/// Law: normalization is idempotent across reads — parsing the same raw
/// request head twice yields identical `Request` values, because the whole
/// parse is a function of the raw bytes alone.
pub proof fn lemma_parse_deterministic(b1: Seq<u8>, b2: Seq<u8>)
    requires
        b1 == b2,
    ensures
        spec_parse_request(b1) == spec_parse_request(b2),
{
}

/// Law: URL canonicalization — a request target without `://` becomes
/// exactly the scheme selected by its trailing port (`:443` for https, `:21`
/// for ftp, anything else for http), then `://`, then the target itself.
pub proof fn lemma_url_canonicalization(t: Seq<u8>)
    requires
        !has_scheme_sep(t),
    ensures
        spec_normalize_target(t) == spec_scheme_for(t) + scheme_sep() + t,
        spec_normalize_target(t).take((spec_scheme_for(t) + scheme_sep()).len() as int)
            == spec_scheme_for(t) + scheme_sep(),
        port_suffix(t) == Some(ascii_bytes("443"@)) ==> spec_scheme_for(t) == ascii_bytes(
            "https"@,
        ),
        port_suffix(t) == Some(ascii_bytes("21"@)) ==> spec_scheme_for(t) == ascii_bytes("ftp"@),
        (match port_suffix(t) {
            Some(p) => p != ascii_bytes("443"@) && p != ascii_bytes("21"@),
            None => true,
        }) ==> spec_scheme_for(t) == ascii_bytes("http"@),
{
    reveal_strlit("443");
    reveal_strlit("21");
    let prefix = spec_scheme_for(t) + scheme_sep();
    assert(spec_normalize_target(t).take(prefix.len() as int) =~= prefix);
    assert(ascii_bytes("443"@).len() == 3 && ascii_bytes("21"@).len() == 2);
}

/// Law: host port completion — for any Host value that does not itself end
/// in `:`, the completed authority contains a `:` and a non-empty port after
/// its last `:`. (A Host value ending in `:`, such as `example.com:`, is
/// kept as it is and keeps its empty port; those inputs are excluded.)
pub proof fn lemma_host_port_completion(h: Seq<u8>)
    requires
        has_byte(h, ':' as u8) ==> h[h.len() - 1] != ':' as u8,
    ensures
        has_byte(spec_complete_host(h), ':' as u8),
        port_suffix(spec_complete_host(h)) matches Some(p) && p.len() > 0,
{
    reveal_strlit(":80");
    let c = spec_complete_host(h);
    if !has_byte(h, ':' as u8) {
        assert(c[h.len() as int] == ':' as u8);
        assert(has_byte(c, ':' as u8));
    }
    lemma_last_index_of(c, ':' as u8);
    let i = spec_last_index_of(c, ':' as u8)->Some_0;
    if has_byte(h, ':' as u8) {
        assert(i < c.len() - 1);
    } else {
        assert(c[c.len() - 1] == '0' as u8);
        assert(i < c.len() - 1);
    }
}

/// Parses and normalizes one buffered request head into a `Request`.
pub fn parse_request(buf: &[u8]) -> (r: Result<Request, Error>)
    ensures
        ({
            let s = spec_parse_request(buf@);
            match r {
                Ok(req) => s matches Ok(v) && req@ == v,
                Err(e) => s matches Err(e2) && e == e2,
            }
        }),
{
    let parsed = match parse_head(buf) {
        Some(p) => p,
        None => return Err(Error::Parse),
    };
    let ParsedHead { method, target, version, headers, offset } = parsed;
    let payload = vstd::slice::slice_to_vec(vstd::slice::slice_subrange(buf, 0, offset));
    proof {
        assert(buf@.subrange(0, offset as int) =~= buf@.take(offset as int));
    }
    let method_bytes = match method {
        Some(m) => m,
        None => return Err(Error::BadRequest(Part::Method)),
    };
    let method = match parse_method(method_bytes.as_slice()) {
        Some(m) => m,
        None => return Err(Error::BadRequest(Part::Method)),
    };
    let target = match target {
        Some(t) => t,
        None => return Err(Error::BadRequest(Part::Path)),
    };
    let path = normalize_target(target);
    let version = match version {
        Some(tag) => version_of_tag(tag),
        None => return Err(Error::BadRequest(Part::Version)),
    };
    let host_raw = match find_host(&headers) {
        Some(h) => h,
        None => return Err(Error::BadRequest(Part::Host)),
    };
    if bytes_as_str(host_raw.as_slice()).is_none() {
        return Err(Error::Utf8);
    }
    let host = complete_host(host_raw);
    Ok(Request { method, path, version, host, payload })
}

} // verus!
