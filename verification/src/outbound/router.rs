//! Accepting outbound connections whose protocol the client decides on.

use crate::net::SocketAddr;
use vstd::prelude::*;

verus! {

/// Accepts connections to any address.
#[derive(Clone, Copy, Debug)]
pub struct Router {}

/// Accepts connections to `target`.
#[derive(Clone, Copy, Debug)]
pub struct Accept {
    pub target: SocketAddr,
    pub detect: Detect,
}

/// How the protocol of a connection is detected.
#[derive(Clone, Copy, Debug, PartialEq, Eq, Structural)]
pub enum Detect {
    Opaque,
    Client,
}

/// What a connection carries.
#[derive(Clone, Copy, Debug, PartialEq, Eq, Structural)]
pub enum Protocol {
    Unknown,
    Http,
    H2,
}

impl Router {
    /// Accepts connections to `target`.
    pub fn call(&self, target: SocketAddr) -> (accept: Accept)
        ensures
            accept == (Accept { target, detect: Detect::Client }),
    {
        Accept { target, detect: Detect::Client }
    }
}

impl Detect {
    /// What the connection `io` carries. Only opaque connections are supported.
    pub fn detect<I>(&self, io: I) -> (detected: (Protocol, I))
        requires
            *self is Opaque,
        ensures
            detected == (Protocol::Unknown, io),
    {
        (Protocol::Unknown, io)
    }
}

impl Accept {
    /// What is proxied, of which `detected` is the outcome of detecting the protocol. A
    /// connection that fails is dropped.
    pub fn call<I, X>(&self, detected: Result<(Protocol, I), X>) -> (proxied: Option<
        (SocketAddr, Protocol, I),
    >)
        ensures
            proxied == match detected {
                Ok((protocol, io)) => Some((self.target, protocol, io)),
                Err(_) => None,
            },
    {
        match detected {
            Ok((protocol, io)) => Some((self.target, protocol, io)),
            Err(_) => None,
        }
    }
}

} // verus!
