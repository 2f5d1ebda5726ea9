//! Serving a connection: its protocol is detected, and it is handed to an HTTP server or
//! forwarded.
//!
//! The connection is peeked at and served outside.

use crate::net::{port, Addrs};
use crate::tls::ports::{self, Ports};
use std::sync::Arc;
use vstd::prelude::*;

verus! {

/// A version of HTTP.
#[derive(Clone, Copy, Debug, PartialEq, Eq, Structural)]
pub enum HttpVersion {
    Http1,
    H2,
}

/// The HTTP version that a connection to `target` carries, if it carries HTTP.
#[derive(Debug)]
pub struct Protocol<T> {
    pub http: Option<HttpVersion>,
    pub target: T,
}

/// Detects whether connections carry HTTP, but not on `skip_ports`.
pub struct ProtocolDetect {
    pub capacity: usize,
    pub skip_ports: Arc<Ports>,
}

/// How a protocol is detected.
#[derive(Debug)]
pub enum Detection<T, I> {
    /// It is known.
    Done(Protocol<T>, I),
    /// Up to so many bytes are to be peeked at.
    Peek(T, I, usize),
}

/// How many bytes are peeked at.
pub const PEEK_CAPACITY: usize = 8192;

impl ProtocolDetect {
    pub fn new(skip_ports: Arc<Ports>) -> (detect: Self)
        ensures
            detect.skip_ports == skip_ports,
            detect.capacity == PEEK_CAPACITY,
    {
        ProtocolDetect { skip_ports, capacity: PEEK_CAPACITY }
    }

    /// Starts to detect what the connection `io` to `target`, whose addresses are `addrs`,
    /// carries. Nothing is detected on the ports that are skipped.
    pub fn detect<T, I>(&self, addrs: &Addrs, target: T, io: I) -> (detection: Detection<T, I>)
        ensures
            detection == if ports::ports_in(*self.skip_ports).contains(addrs.target.2) {
                Detection::Done(Protocol { http: None, target }, io)
            } else {
                Detection::Peek(target, io, self.capacity)
            },
    {
        if ports::has_port(&self.skip_ports, port(&addrs.target_addr())) {
            return Detection::Done(Protocol { target, http: None }, io);
        }
        Detection::Peek(target, io, self.capacity)
    }

    /// What a connection carries, of which `peeked` is the outcome of peeking at it: the
    /// connection with the bytes put back, and the HTTP version that the bytes start with.
    pub fn peeked<T, I, X>(target: T, peeked: Result<(I, Option<HttpVersion>), X>) -> (detected:
        Result<(Protocol<T>, I), X>)
        ensures
            detected == match peeked {
                Ok((io, http)) => Ok((Protocol { http, target }, io)),
                Err(error) => Err(error),
            },
    {
        match peeked {
            Ok((io, http)) => Ok((Protocol { http, target }, io)),
            Err(error) => Err(error),
        }
    }
}

/// The HTTP/2 settings of a server.
#[derive(Clone, Copy, Debug, PartialEq, Eq, Structural)]
pub struct H2Settings {
    pub initial_stream_window_size: Option<u32>,
    pub initial_connection_window_size: Option<u32>,
}

/// The settings of an HTTP server.
#[derive(Clone, Copy, Debug, PartialEq, Eq, Structural)]
pub struct HttpSettings {
    pub adaptive_window: bool,
    pub h2: H2Settings,
}

/// Serves connections whose protocol `D` detects: HTTP by what `H` makes, others by `F`. `W`
/// tells when to shut down.
#[derive(Debug)]
pub struct Server<D, F, H, W> {
    pub drain: W,
    pub detect: D,
    pub forward_tcp: F,
    pub make_http: H,
    pub http: HttpSettings,
}

/// How shutting down affects a connection.
#[derive(Clone, Copy, Debug, PartialEq, Eq, Structural)]
pub enum Drain {
    /// The connection is told to finish.
    GracefulShutdown,
    /// The connection is not told, and is waited for.
    ReleaseAfter,
}

/// How a connection is served.
#[derive(Debug)]
pub enum Plan<T, I> {
    /// By an HTTP server for one version, with a service made for the target.
    Http {
        target: T,
        io: I,
        version: HttpVersion,
        /// Whether the connection can be upgraded to another protocol.
        upgrades: bool,
        drain: Drain,
    },
    /// It is forwarded.
    Forward {
        target: T,
        io: I,
        drain: Drain,
    },
}

/// How a connection that carries `protocol` is served.
pub open spec fn planned<T, I>(protocol: Protocol<T>, io: I) -> Plan<T, I> {
    match protocol.http {
        Some(version) => Plan::Http {
            target: protocol.target,
            io,
            version,
            upgrades: version is Http1,
            drain: Drain::GracefulShutdown,
        },
        None => Plan::Forward { target: protocol.target, io, drain: Drain::ReleaseAfter },
    }
}

impl<D, F, H, W> Server<D, F, H, W> {
    pub fn new(detect: D, forward_tcp: F, make_http: H, h2: H2Settings, drain: W) -> (server: Self)
        ensures
            server == (Server {
                drain,
                detect,
                forward_tcp,
                make_http,
                http: HttpSettings { adaptive_window: true, h2 },
            }),
    {
        let http = HttpSettings { adaptive_window: true, h2 };
        Server { drain, detect, forward_tcp, make_http, http }
    }

    /// How a connection is served, of which `detected` is the outcome of detecting its
    /// protocol. HTTP/1 supports upgrades. A connection that is not HTTP is forwarded.
    pub fn call<T, I, X>(&self, detected: Result<(Protocol<T>, I), X>) -> (plan: Result<
        Plan<T, I>,
        X,
    >)
        ensures
            plan == match detected {
                Ok((protocol, io)) => Ok(planned(protocol, io)),
                Err(error) => Err(error),
            },
    {
        match detected {
            Err(error) => Err(error),
            Ok((Protocol { http, target }, io)) => match http {
                Some(HttpVersion::Http1) => Ok(
                    Plan::Http {
                        target,
                        io,
                        version: HttpVersion::Http1,
                        upgrades: true,
                        drain: Drain::GracefulShutdown,
                    },
                ),
                Some(HttpVersion::H2) => Ok(
                    Plan::Http {
                        target,
                        io,
                        version: HttpVersion::H2,
                        upgrades: false,
                        drain: Drain::GracefulShutdown,
                    },
                ),
                None => Ok(Plan::Forward { target, io, drain: Drain::ReleaseAfter }),
            },
        }
    }
}

/// A connection is served as HTTP exactly if it was detected to be HTTP. One on a port that is
/// skipped is forwarded.
pub proof fn law_only_http_is_served_as_http<T, I>(protocol: Protocol<T>, io: I)
    ensures
        planned(protocol, io) is Http <==> protocol.http is Some,
        protocol.http is None ==> planned(protocol, io) == (Plan::Forward {
            target: protocol.target,
            io,
            drain: Drain::ReleaseAfter,
        }),
{
}

} // verus!
