//! The upstream kind and the connection each kind opens.

use vstd::prelude::*;

verus! {

/// The configured upstream: an HTTP proxy or a SOCKS5 proxy, each with its
/// authority (`host:port`).
#[derive(Debug)]
pub enum ConnectionBuilder {
    Http(String),
    Socks5(String),
}

/// The one TCP connection a handler opens for a request: directly to the
/// request's authority, to an HTTP proxy, or through a SOCKS5 CONNECT
/// handshake for a target.
#[derive(Debug)]
pub enum Dial {
    /// Plain TCP to the request's own authority.
    Direct(Vec<u8>),
    /// Plain TCP to the HTTP proxy's authority.
    Proxy(String),
    /// TCP to the SOCKS5 proxy's authority, then a SOCKS5 CONNECT handshake
    /// for the carried target authority.
    Socks(String, Vec<u8>),
}

impl ConnectionBuilder {
    /// The connection this upstream kind opens for `target`: TCP to the
    /// proxy's authority, with a SOCKS5 CONNECT handshake for `target` first
    /// when the upstream is SOCKS5.
    pub fn dial(&self, target: &Vec<u8>) -> (d: Dial)
        ensures
            match self {
                ConnectionBuilder::Http(a) => d matches Dial::Proxy(p) && p@ == a@,
                ConnectionBuilder::Socks5(a) => d matches Dial::Socks(p, t) && p@ == a@ && t@
                    == target@,
            },
    {
        match self {
            ConnectionBuilder::Http(a) => Dial::Proxy(a.clone()),
            ConnectionBuilder::Socks5(a) => Dial::Socks(
                a.clone(),
                vstd::slice::slice_to_vec(target.as_slice()),
            ),
        }
    }
}

} // verus!
