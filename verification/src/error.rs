//! The error taxonomy of the per-connection handler and of server startup.

use vstd::prelude::*;

verus! {

/// The part of a request head that was found missing or invalid.
#[derive(Clone, Copy, PartialEq, Eq, Structural, Debug)]
pub enum Part {
    Method,
    Path,
    Version,
    Host,
}

/// The coarse kind of an I/O failure, as far as the handler distinguishes it.
#[derive(Clone, Copy, PartialEq, Eq, Structural, Debug)]
pub enum IoKind {
    TimedOut,
    Other,
}

/// A handler-side failure; each variant maps to one status code.
#[derive(Clone, Copy, PartialEq, Eq, Structural, Debug)]
pub enum Error {
    /// A missing or invalid part of the request head.
    BadRequest(Part),
    /// A failed or timed-out I/O operation.
    Io(IoKind),
    /// The HTTP head parser rejected the input or found it incomplete.
    Parse,
    /// Text was required where the bytes were not UTF-8.
    Utf8,
}

/// A startup-time failure while building the server.
#[derive(Debug)]
pub enum BuildError {
    /// The upstream URL's scheme names no supported proxy protocol.
    Unsupported(String),
    /// An I/O failure while fetching the filter list.
    Io,
    /// The HTTP client failed while fetching the filter list.
    Client,
    /// TLS setup failed while fetching the filter list.
    Tls,
    /// The filter list was not valid base64.
    Decode,
    /// The decoded filter list was not UTF-8.
    Utf8,
}

/// The response-message text for each bad-request part.
pub open spec fn spec_part_text(p: Part) -> Seq<char> {
    match p {
        Part::Method => "METHOD"@,
        Part::Path => "PATH"@,
        Part::Version => "VERSION"@,
        Part::Host => "Host"@,
    }
}

/// The response-message text for each bad-request part.
pub fn part_text(p: Part) -> (r: &'static str)
    ensures
        r@ == spec_part_text(p),
{
    match p {
        Part::Method => "METHOD",
        Part::Path => "PATH",
        Part::Version => "VERSION",
        Part::Host => "Host",
    }
}

} // verus!
