//! HTTP data model: methods, versions, the parsed `Request`, and the minimal
//! status-line `Response`.

use vstd::prelude::*;

use crate::bytes::{ascii_bytes, lit_bytes, eq_lit, push_all};
use crate::error::{Error, IoKind, Part, spec_part_text, part_text};

verus! {

/// The request methods this proxy recognizes.
#[derive(Clone, Copy, PartialEq, Eq, Structural, Debug)]
pub enum Method {
    OPTIONS,
    GET,
    POST,
    PUT,
    DELETE,
    HEAD,
    TRACE,
    CONNECT,
    PATCH,
}

/// The protocol versions this proxy recognizes.
#[allow(non_camel_case_types)]
#[derive(Clone, Copy, PartialEq, Eq, Structural, Debug)]
pub enum Version {
    HTTP_09,
    HTTP_10,
    HTTP_11,
    HTTP_2,
    HTTP_3,
}

/// Maps the spelling of a method on the wire to the method, if recognized.
pub open spec fn spec_parse_method(s: Seq<u8>) -> Option<Method> {
    if s == ascii_bytes("OPTIONS"@) {
        Some(Method::OPTIONS)
    } else if s == ascii_bytes("GET"@) {
        Some(Method::GET)
    } else if s == ascii_bytes("POST"@) {
        Some(Method::POST)
    } else if s == ascii_bytes("PUT"@) {
        Some(Method::PUT)
    } else if s == ascii_bytes("DELETE"@) {
        Some(Method::DELETE)
    } else if s == ascii_bytes("HEAD"@) {
        Some(Method::HEAD)
    } else if s == ascii_bytes("TRACE"@) {
        Some(Method::TRACE)
    } else if s == ascii_bytes("CONNECT"@) {
        Some(Method::CONNECT)
    } else if s == ascii_bytes("PATCH"@) {
        Some(Method::PATCH)
    } else {
        None
    }
}

/// Maps the spelling of a method on the wire to the method, if recognized.
pub fn parse_method(v: &[u8]) -> (r: Option<Method>)
    ensures
        r == spec_parse_method(v@),
{
    proof {
        reveal_strlit("OPTIONS");
        reveal_strlit("GET");
        reveal_strlit("POST");
        reveal_strlit("PUT");
        reveal_strlit("DELETE");
        reveal_strlit("HEAD");
        reveal_strlit("TRACE");
        reveal_strlit("CONNECT");
        reveal_strlit("PATCH");
    }
    if eq_lit(v, "OPTIONS") {
        Some(Method::OPTIONS)
    } else if eq_lit(v, "GET") {
        Some(Method::GET)
    } else if eq_lit(v, "POST") {
        Some(Method::POST)
    } else if eq_lit(v, "PUT") {
        Some(Method::PUT)
    } else if eq_lit(v, "DELETE") {
        Some(Method::DELETE)
    } else if eq_lit(v, "HEAD") {
        Some(Method::HEAD)
    } else if eq_lit(v, "TRACE") {
        Some(Method::TRACE)
    } else if eq_lit(v, "CONNECT") {
        Some(Method::CONNECT)
    } else if eq_lit(v, "PATCH") {
        Some(Method::PATCH)
    } else {
        None
    }
}

/// Maps the parser's numeric version tag to a protocol version; tags other
/// than the five known ones fall back to HTTP/0.9.
pub open spec fn spec_version_of(tag: u8) -> Version {
    if tag == 3 {
        Version::HTTP_3
    } else if tag == 2 {
        Version::HTTP_2
    } else if tag == 11 {
        Version::HTTP_11
    } else if tag == 1 {
        Version::HTTP_10
    } else {
        Version::HTTP_09
    }
}

/// Maps the parser's numeric version tag to a protocol version.
pub fn version_of_tag(tag: u8) -> (r: Version)
    ensures
        r == spec_version_of(tag),
{
    if tag == 3 {
        Version::HTTP_3
    } else if tag == 2 {
        Version::HTTP_2
    } else if tag == 11 {
        Version::HTTP_11
    } else if tag == 1 {
        Version::HTTP_10
    } else {
        Version::HTTP_09
    }
}

/// The wire spelling of a protocol version.
pub open spec fn spec_version_bytes(v: Version) -> Seq<u8> {
    match v {
        Version::HTTP_09 => ascii_bytes("HTTP/0.9"@),
        Version::HTTP_10 => ascii_bytes("HTTP/1.0"@),
        Version::HTTP_11 => ascii_bytes("HTTP/1.1"@),
        Version::HTTP_2 => ascii_bytes("HTTP/2.0"@),
        Version::HTTP_3 => ascii_bytes("HTTP/3.0"@),
    }
}

/// The wire spelling of a protocol version.
pub fn version_bytes(v: Version) -> (r: Vec<u8>)
    ensures
        r@ == spec_version_bytes(v),
{
    match v {
        Version::HTTP_09 => {
            proof {
                reveal_strlit("HTTP/0.9");
            }
            lit_bytes("HTTP/0.9")
        },
        Version::HTTP_10 => {
            proof {
                reveal_strlit("HTTP/1.0");
            }
            lit_bytes("HTTP/1.0")
        },
        Version::HTTP_11 => {
            proof {
                reveal_strlit("HTTP/1.1");
            }
            lit_bytes("HTTP/1.1")
        },
        Version::HTTP_2 => {
            proof {
                reveal_strlit("HTTP/2.0");
            }
            lit_bytes("HTTP/2.0")
        },
        Version::HTTP_3 => {
            proof {
                reveal_strlit("HTTP/3.0");
            }
            lit_bytes("HTTP/3.0")
        },
    }
}

/// The parsed and normalized head of a client request, as a mathematical
/// value.
pub struct RequestView {
    pub method: Method,
    pub path: Seq<u8>,
    pub version: Version,
    pub host: Seq<u8>,
    pub payload: Seq<u8>,
}

/// The parsed and normalized head of a client request.
///
/// `path` is the absolute target URL handed to the filter engine; `host` is
/// the authority the upstream connection is opened to; `payload` holds the
/// exact head bytes as read from the wire.
#[derive(Debug)]
pub struct Request {
    pub method: Method,
    pub path: Vec<u8>,
    pub version: Version,
    pub host: Vec<u8>,
    pub payload: Vec<u8>,
}

impl View for Request {
    type V = RequestView;

    open spec fn view(&self) -> RequestView {
        RequestView {
            method: self.method,
            path: self.path@,
            version: self.version,
            host: self.host@,
            payload: self.payload@,
        }
    }
}

impl Request {
    /// The exact bytes of the request head as read from the wire.
    pub fn as_bytes(&self) -> (r: &[u8])
        ensures
            r@ == self@.payload,
    {
        self.payload.as_slice()
    }

    /// The authority (`host:port`) the request is addressed to.
    pub fn host(&self) -> (r: &Vec<u8>)
        ensures
            r@ == self@.host,
    {
        &self.host
    }
}

/// The decimal digits of `n`, most significant first.
pub open spec fn spec_dec_digits(n: nat) -> Seq<u8>
    decreases n,
{
    if n < 10 {
        seq![(n + 48) as u8]
    } else {
        spec_dec_digits(n / 10).push((n % 10 + 48) as u8)
    }
}

/// The decimal digits of `n`, most significant first.
pub fn dec_digits(n: u16) -> (r: Vec<u8>)
    ensures
        r@ == spec_dec_digits(n as nat),
    decreases n,
{
    if n < 10 {
        let mut v: Vec<u8> = Vec::new();
        v.push((48 + n) as u8);
        proof {
            assert(v@ =~= spec_dec_digits(n as nat));
        }
        v
    } else {
        let mut v = dec_digits(n / 10);
        v.push((48 + n % 10) as u8);
        v
    }
}

/// The bytes of a bare status-line response:
/// `<version> <status> <message>\r\n\r\n`.
pub open spec fn spec_status_line(v: Version, status: u16, msg: Seq<char>) -> Seq<u8> {
    spec_version_bytes(v) + seq![' ' as u8] + spec_dec_digits(status as nat) + seq![' ' as u8]
        + vstd::utf8::encode_utf8(msg) + seq!['\r' as u8, '\n' as u8, '\r' as u8, '\n' as u8]
}

/// A minimal HTTP response: a status line with no body, used only to tell the
/// client about a handler-side failure (or to accept a CONNECT).
#[derive(Debug)]
pub struct Response {
    pub version: Version,
    pub status: u16,
    pub message: String,
}

impl Response {
    /// A response with the given version, status and message.
    pub fn new(version: Version, status: u16, message: &str) -> (r: Self)
        ensures
            r.version == version,
            r.status == status,
            r.message@ == message@,
    {
        Self { version, status, message: message.to_owned() }
    }

    /// An HTTP/1.1 response with the given status and message.
    pub fn make(status: u16, message: &str) -> (r: Self)
        ensures
            r.version == Version::HTTP_11,
            r.status == status,
            r.message@ == message@,
    {
        Self::new(Version::HTTP_11, status, message)
    }

    /// The response that reports a handler failure to the client, one status
    /// code per error kind.
    pub fn from_err(err: Error) -> (r: Self)
        ensures
            r.version == Version::HTTP_11,
            match err {
                Error::BadRequest(p) => r.status == 400 && r.message@ == spec_part_text(p),
                Error::Io(IoKind::TimedOut) => r.status == 408 && r.message@ == "Timeout"@,
                Error::Io(IoKind::Other) => r.status == 503 && r.message@ == "Unavailable"@,
                Error::Parse => r.status == 500 && r.message@ == "Internal Server Error"@,
                Error::Utf8 => r.status == 500 && r.message@ == "Internal Server Error"@,
            },
    {
        match err {
            Error::BadRequest(p) => Self::make(400, part_text(p)),
            Error::Io(IoKind::TimedOut) => Self::make(408, "Timeout"),
            Error::Io(IoKind::Other) => Self::make(503, "Unavailable"),
            Error::Parse => Self::make(500, "Internal Server Error"),
            Error::Utf8 => Self::make(500, "Internal Server Error"),
        }
    }

    /// The bytes of this response on the wire.
    pub fn status_line(&self) -> (r: Vec<u8>)
        ensures
            r@ == spec_status_line(self.version, self.status, self.message@),
    {
        let mut out = version_bytes(self.version);
        out.push(' ' as u8);
        let digits = dec_digits(self.status);
        push_all(&mut out, digits.as_slice());
        out.push(' ' as u8);
        push_all(&mut out, self.message.as_str().as_bytes());
        out.push('\r' as u8);
        out.push('\n' as u8);
        out.push('\r' as u8);
        out.push('\n' as u8);
        proof {
            assert(out@ =~= spec_status_line(self.version, self.status, self.message@));
        }
        out
    }
}

impl Default for Response {
    /// The plain `200 OK` acknowledgement.
    fn default() -> (r: Self)
        ensures
            r.version == Version::HTTP_11,
            r.status == 200,
            r.message@ == "OK"@,
    {
        Self::make(200, "OK")
    }
}

} // verus!
