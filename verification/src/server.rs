//! Building the server: choosing the upstream kind from the remote URL's
//! scheme, decoding the downloaded filter list, and assembling the shared
//! handler. Downloading the list and running the accept loop are I/O and live
//! outside the library.

use vstd::prelude::*;

use crate::agent::{Agent, AgentConfig};
use crate::bytes::{bytes_as_str, str_eq};
use crate::connection::ConnectionBuilder;
use crate::engine::{add_filter_list, engine_with_filter_set, filter_set_new, Engine};
use crate::error::BuildError;

verus! {

/// Whether a remote-URL scheme selects the HTTP-proxy upstream.
pub open spec fn spec_is_http_scheme(s: Seq<char>) -> bool {
    s == "http"@ || s == ""@
}

/// Whether a remote-URL scheme selects the SOCKS5 upstream.
pub open spec fn spec_is_socks_scheme(s: Seq<char>) -> bool {
    s == "socks"@ || s == "socks5"@
}

/// Selects the upstream kind from the remote URL's scheme: `http` or an empty
/// scheme is the HTTP proxy, `socks` or `socks5` is SOCKS5, and any other
/// scheme is a fatal startup error carrying the scheme itself.
pub fn choose_upstream(scheme: &str, authority: String) -> (r: Result<
    ConnectionBuilder,
    BuildError,
>)
    ensures
        match r {
            Ok(cb) => match cb {
                ConnectionBuilder::Http(a) => spec_is_http_scheme(scheme@) && a@ == authority@,
                ConnectionBuilder::Socks5(a) => spec_is_socks_scheme(scheme@) && a@ == authority@,
            },
            Err(e) => !spec_is_http_scheme(scheme@) && !spec_is_socks_scheme(scheme@) && (
            e matches BuildError::Unsupported(s) && s@ == scheme@),
        },
{
    if str_eq(scheme, "http") || str_eq(scheme, "") {
        Ok(ConnectionBuilder::Http(authority))
    } else if str_eq(scheme, "socks") || str_eq(scheme, "socks5") {
        Ok(ConnectionBuilder::Socks5(authority))
    } else {
        Err(BuildError::Unsupported(scheme.to_owned()))
    }
}

/// Whether a byte is ASCII whitespace.
pub open spec fn is_ascii_ws(b: u8) -> bool {
    b == 32 || b == 9 || b == 10 || b == 11 || b == 12 || b == 13
}

/// The bytes of `s` with all ASCII whitespace removed.
pub open spec fn spec_strip_ws(s: Seq<u8>) -> Seq<u8> {
    s.filter(|b: u8| !is_ascii_ws(b))
}

/// Removes all ASCII whitespace from a byte string.
pub fn strip_whitespace(v: &[u8]) -> (r: Vec<u8>)
    ensures
        r@ == spec_strip_ws(v@),
{
    let mut out: Vec<u8> = Vec::new();
    let mut i: usize = 0;
    while i < v.len()
        invariant
            i <= v@.len(),
            out@ == spec_strip_ws(v@.take(i as int)),
        decreases v@.len() - i,
    {
        let b = v[i];
        if !(b == 32 || b == 9 || b == 10 || b == 11 || b == 12 || b == 13) {
            out.push(b);
        }
        proof {
            reveal(Seq::filter);
            let t = v@.take(i as int + 1);
            assert(t.drop_last() =~= v@.take(i as int));
            assert(t.last() == v@[i as int]);
            assert(out@ =~= spec_strip_ws(t));
        }
        i += 1;
    }
    proof {
        assert(v@.take(v@.len() as int) =~= v@);
    }
    out
}

/// What the standard-alphabet base64 decoder makes of a byte string: `None`
/// exactly on invalid input, otherwise the decoded bytes; a function of the
/// input alone.
pub uninterp spec fn b64_decode(s: Seq<u8>) -> Option<Seq<u8>>;

/// Relies on base64's standard-alphabet engine: `decode` fails exactly on
/// invalid base64, and its result is a function of the input bytes alone.
#[verifier::external_body]
fn base64_decode(v: &[u8]) -> (r: Option<Vec<u8>>)
    ensures
        r is Some <==> b64_decode(v@) is Some,
        r matches Some(d) ==> b64_decode(v@) == Some(d@),
{
    base64::engine::Engine::decode(&base64::engine::general_purpose::STANDARD, v).ok()
}

/// Configures and assembles the server around a chosen upstream.
pub struct ServerBuilder {
    pub filter_url: Option<String>,
    pub buf_size: Option<usize>,
    pub timeout: Option<u64>,
    pub encoded: bool,
}

impl Default for ServerBuilder {
    /// No filter URL, default limits, base64 decoding on.
    fn default() -> (r: Self)
        ensures
            r.filter_url is None,
            r.buf_size is None,
            r.timeout is None,
            !r.encoded,
    {
        Self { filter_url: None, buf_size: None, timeout: None, encoded: false }
    }
}

impl ServerBuilder {
    /// Sets the URL the filter list is downloaded from.
    pub fn filter(self, url: String) -> (r: Self)
        ensures
            r.filter_url matches Some(u) && u@ == url@,
            r.buf_size == self.buf_size,
            r.timeout == self.timeout,
            r.encoded == self.encoded,
    {
        Self { filter_url: Some(url), ..self }
    }

    /// Sets the size of the single head-read buffer.
    pub fn buffer(self, size: usize) -> (r: Self)
        ensures
            r.buf_size == Some(size),
            r.filter_url == self.filter_url,
            r.timeout == self.timeout,
            r.encoded == self.encoded,
    {
        Self { buf_size: Some(size), ..self }
    }

    /// Sets the per-I/O timeout in seconds.
    pub fn timeout(self, timeout: u64) -> (r: Self)
        ensures
            r.timeout == Some(timeout),
            r.filter_url == self.filter_url,
            r.buf_size == self.buf_size,
            r.encoded == self.encoded,
    {
        Self { timeout: Some(timeout), ..self }
    }

    /// Sets whether the downloaded filter list is base64-encoded.
    pub fn encoded(self, encoded: bool) -> (r: Self)
        ensures
            r.encoded == encoded,
            r.filter_url == self.filter_url,
            r.buf_size == self.buf_size,
            r.timeout == self.timeout,
    {
        Self { encoded, ..self }
    }

    /// Parses a downloaded filter list into a matcher snapshot. When the list
    /// is base64-encoded, whitespace is stripped and the text decoded first:
    /// invalid base64 and a non-UTF-8 decoding are the two startup errors
    /// this step can raise.
    pub fn build_rules(&self, text: String) -> (r: Result<adblock::Engine, BuildError>)
        ensures
            ({
                let stripped = spec_strip_ws(vstd::utf8::encode_utf8(text@));
                match r {
                    Ok(_) => !self.encoded || (b64_decode(stripped) matches Some(d)
                        && vstd::utf8::valid_utf8(d)),
                    Err(e) => self.encoded && match e {
                        BuildError::Decode => b64_decode(stripped) is None,
                        BuildError::Utf8 => b64_decode(stripped) matches Some(d)
                            && !vstd::utf8::valid_utf8(d),
                        _ => false,
                    },
                }
            }),
    {
        let list_text = if self.encoded {
            let stripped = strip_whitespace(text.as_str().as_bytes());
            let decoded = match base64_decode(stripped.as_slice()) {
                Some(d) => d,
                None => return Err(BuildError::Decode),
            };
            match bytes_as_str(decoded.as_slice()) {
                Some(s) => s.to_owned(),
                None => return Err(BuildError::Utf8),
            }
        } else {
            text
        };
        let mut set = filter_set_new(false);
        add_filter_list(&mut set, list_text);
        Ok(engine_with_filter_set(set))
    }

    /// Assembles the server: the agent's limits take their defaults (buffer
    /// 1024 bytes, timeout effectively none), and a ruleset snapshot is built
    /// exactly when a filter list was downloaded.
    pub fn build(self, upstream: ConnectionBuilder, filter_text: Option<String>) -> (r: Result<
        Server,
        BuildError,
    >)
        ensures
            match r {
                Ok(server) => {
                    &&& server.agent.builder == upstream
                    &&& server.agent.config.bufsize == (match self.buf_size {
                        Some(b) => b,
                        None => 1024usize,
                    })
                    &&& server.agent.config.timeout == (match self.timeout {
                        Some(t) => t,
                        None => u64::MAX,
                    })
                    &&& (server.agent.engine.has_rules() <==> filter_text is Some)
                },
                Err(e) => filter_text matches Some(t) && self.encoded && (match e {
                    BuildError::Decode => b64_decode(
                        spec_strip_ws(vstd::utf8::encode_utf8(t@)),
                    ) is None,
                    BuildError::Utf8 => b64_decode(spec_strip_ws(vstd::utf8::encode_utf8(t@)))
                        matches Some(d) && !vstd::utf8::valid_utf8(d),
                    _ => false,
                }),
            },
    {
        let config = AgentConfig {
            bufsize: match self.buf_size {
                Some(b) => b,
                None => 1024,
            },
            timeout: match self.timeout {
                Some(t) => t,
                None => u64::MAX,
            },
        };
        let ruleset = match filter_text {
            Some(t) => match self.build_rules(t) {
                Ok(e) => Some(e),
                Err(e) => return Err(e),
            },
            None => None,
        };
        let engine = Engine::new(ruleset);
        let agent = Agent::new(upstream, config, engine);
        Ok(Server { agent: std::sync::Arc::new(agent) })
    }
}

/// The assembled server: the shared read-only handler. Binding a listener and
/// accepting clients is I/O and lives outside the library.
pub struct Server {
    pub agent: std::sync::Arc<Agent>,
}

impl Server {
    /// A fresh builder with nothing configured.
    pub fn builder() -> (r: ServerBuilder)
        ensures
            r.filter_url is None,
            r.buf_size is None,
            r.timeout is None,
            !r.encoded,
    {
        Default::default()
    }
}

} // verus!
