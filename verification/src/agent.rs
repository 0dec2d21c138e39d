//! The per-connection decision core: which connection to open, which bytes to
//! write to whom before splicing, and the per-chunk step of the splice.

use vstd::prelude::*;

use crate::bytes::bytes_as_str;
use crate::connection::{ConnectionBuilder, Dial};
use crate::engine::Engine;
use crate::http::{Method, Request, Response, spec_status_line, Version};

verus! {

/// Per-connection limits: the size of the single head-read buffer, and the
/// bound in seconds on every individual I/O operation (`u64::MAX` meaning
/// effectively none).
#[derive(Clone, Copy, Debug)]
pub struct AgentConfig {
    pub bufsize: usize,
    pub timeout: u64,
}

/// The shared, read-only per-connection handler: upstream kind, limits, and
/// the filter engine.
pub struct Agent {
    pub builder: ConnectionBuilder,
    pub config: AgentConfig,
    pub engine: Engine,
}

/// Everything a handler does between parsing the head and splicing: the
/// connection to open, the bytes owed to the upstream, and the bytes owed to
/// the client.
#[derive(Debug)]
pub struct ForwardPlan {
    pub dial: Dial,
    pub upstream_write: Option<Vec<u8>>,
    pub client_write: Option<Vec<u8>>,
}

/// The bytes of the bare `HTTP/1.1 200 OK` acknowledgement sent to a client
/// whose CONNECT is served directly.
pub open spec fn spec_ok_response() -> Seq<u8> {
    spec_status_line(Version::HTTP_11, 200, "OK"@)
}

/// The acknowledgement a directly tunneled CONNECT receives is exactly the
/// bytes of `HTTP/1.1 200 OK` followed by an empty header block.
pub proof fn lemma_ok_response_bytes()
    ensures
        spec_ok_response() == crate::bytes::ascii_bytes("HTTP/1.1 200 OK\r\n\r\n"@),
{
    reveal_strlit("HTTP/1.1");
    reveal_strlit("OK");
    reveal_strlit("HTTP/1.1 200 OK\r\n\r\n");
    vstd::utf8::is_ascii_chars_encode_utf8("OK"@);
    assert(crate::http::spec_dec_digits(2) =~= seq![50u8]);
    assert(crate::http::spec_dec_digits(20) =~= seq![50u8, 48u8]);
    assert(crate::http::spec_dec_digits(200) =~= seq![50u8, 48u8, 48u8]);
    assert(spec_ok_response() =~= crate::bytes::ascii_bytes("HTTP/1.1 200 OK\r\n\r\n"@));
}

/// The plan of a proxied request: the upstream of the configured kind is
/// opened (with the request's own authority as SOCKS5 target), the raw head
/// is forwarded to it verbatim, and the client is told nothing beforehand.
pub open spec fn spec_proxied_plan(b: ConnectionBuilder, r: crate::http::RequestView, p: ForwardPlan) -> bool {
    &&& match b {
        ConnectionBuilder::Http(a) => p.dial matches Dial::Proxy(x) && x@ == a@,
        ConnectionBuilder::Socks5(a) => p.dial matches Dial::Socks(x, t) && x@ == a@ && t@
            == r.host,
    }
    &&& p.upstream_write matches Some(w) && w@ == r.payload
    &&& p.client_write is None
}

/// The plan of a direct request: a plain TCP connection to the request's own
/// authority. A CONNECT gets exactly the `200 OK` acknowledgement and its
/// head is never forwarded; any other method has the raw head forwarded
/// verbatim and the client told nothing.
pub open spec fn spec_direct_plan(r: crate::http::RequestView, p: ForwardPlan) -> bool {
    &&& p.dial matches Dial::Direct(h) && h@ == r.host
    &&& if r.method == Method::CONNECT {
        p.upstream_write is None && (p.client_write matches Some(c) && c@ == spec_ok_response())
    } else {
        (p.upstream_write matches Some(w) && w@ == r.payload) && p.client_write is None
    }
}

/// The routing decision tree: a matched request is forwarded verbatim
/// through the configured upstream; an unmatched CONNECT is answered `200 OK`
/// and tunneled directly with nothing forwarded; any other unmatched request
/// is forwarded verbatim over a direct connection.
pub fn plan_route(builder: &ConnectionBuilder, req: &Request, matched: bool) -> (p: ForwardPlan)
    ensures
        matched ==> spec_proxied_plan(*builder, req@, p),
        !matched ==> spec_direct_plan(req@, p),
{
    if matched {
        ForwardPlan {
            dial: builder.dial(req.host()),
            upstream_write: Some(vstd::slice::slice_to_vec(req.as_bytes())),
            client_write: None,
        }
    } else {
        let dial = Dial::Direct(vstd::slice::slice_to_vec(req.host().as_slice()));
        if matches!(req.method, Method::CONNECT) {
            let ok: Response = Default::default();
            ForwardPlan { dial, upstream_write: None, client_write: Some(ok.status_line()) }
        } else {
            ForwardPlan {
                dial,
                upstream_write: Some(vstd::slice::slice_to_vec(req.as_bytes())),
                client_write: None,
            }
        }
    }
}

impl Agent {
    /// A handler over the given upstream kind, limits and filter engine.
    pub fn new(builder: ConnectionBuilder, config: AgentConfig, engine: Engine) -> (r: Self)
        ensures
            r.builder == builder,
            r.config == config,
            r.engine == engine,
    {
        Self { builder, config, engine }
    }

    /// Consults the filter engine on the request's target URL. Fail-safe:
    /// with no ruleset loaded — and for a target the engine cannot read —
    /// the request is routed through the upstream proxy.
    pub fn classify(&self, req: &Request) -> (r: bool)
        ensures
            !self.engine.has_rules() ==> r,
            !vstd::utf8::valid_utf8(req@.path) ==> r,
    {
        match bytes_as_str(req.path.as_slice()) {
            Some(url) => self.engine.check_request_blocked(url),
            None => true,
        }
    }

    /// The whole decision a handler takes for one parsed request: one of the
    /// two plan shapes, and always the proxied one while no ruleset is
    /// loaded.
    pub fn plan(&self, req: &Request) -> (p: ForwardPlan)
        ensures
            spec_proxied_plan(self.builder, req@, p) || spec_direct_plan(req@, p),
            !self.engine.has_rules() ==> spec_proxied_plan(self.builder, req@, p),
    {
        let matched = self.classify(req);
        plan_route(&self.builder, req, matched)
    }
}

/// What one half-duplex copy step does after a read: forward the bytes read,
/// or shut the direction down on end-of-stream.
#[derive(Debug)]
pub enum SpliceStep {
    /// Write exactly these bytes onward.
    Forward(Vec<u8>),
    /// The source reached end-of-stream: shut this direction down.
    Shut,
}

/// One step of a half-duplex copy: `n` is what the read returned on a buffer
/// holding `chunk`. The bytes forwarded are exactly the bytes read.
pub fn splice_step(chunk: &[u8], n: usize) -> (s: SpliceStep)
    requires
        n <= chunk@.len(),
    ensures
        n == 0 ==> s is Shut,
        n > 0 ==> (s matches SpliceStep::Forward(w) && w@ == chunk@.take(n as int)),
{
    if n == 0 {
        SpliceStep::Shut
    } else {
        SpliceStep::Forward(vstd::slice::slice_to_vec(vstd::slice::slice_subrange(chunk, 0, n)))
    }
}

/// The bytes a sequence of chunks delivers, in order.
pub open spec fn concat_chunks(chunks: Seq<Seq<u8>>) -> Seq<u8>
    decreases chunks.len(),
{
    if chunks.len() == 0 {
        Seq::empty()
    } else {
        concat_chunks(chunks.drop_last()) + chunks.last()
    }
}

/// Law: the tunnel is transparent. If each chunk written onward equals the
/// chunk read — which `splice_step` guarantees — then the byte sequence one
/// side receives is exactly the byte sequence the other side sent, in order.
pub proof fn lemma_tunnel_transparent(reads: Seq<Seq<u8>>, writes: Seq<Seq<u8>>)
    requires
        writes.len() == reads.len(),
        forall|i: int| 0 <= i < reads.len() ==> writes[i] == reads[i],
    ensures
        concat_chunks(writes) == concat_chunks(reads),
{
    assert(writes =~= reads);
}

} // verus!
