//! Accepting a connection: it is looked at for the start of a TLS handshake, TLS is
//! established where there is one, and the connection is handed on.
//!
//! The socket, the handshake and the service that takes the connection are driven from
//! outside.

use super::buf;
use super::identity::{self, peer_identity, Conditional, PeerIdentity, ReasonForNoPeerName};
use super::ports::{self, Ports};
use crate::arc::share;
use crate::net::Addrs;
use crate::poll::Poll;
use crate::text;
use bytes::{Bytes, BytesMut};
use std::sync::Arc;
use vstd::prelude::*;

verus! {

/// What the start of a TLS handshake needs to be known.
pub trait HasConfig {
    type Config;

    fn tls_server_name(&self) -> String;

    fn tls_server_config(&self) -> Arc<Self::Config>;
}

/// How the first bytes of a connection compare with a TLS handshake for a name.
#[derive(Clone, Copy, Debug, PartialEq, Eq, Structural)]
pub enum Match {
    /// They start a handshake for that name.
    Matched,
    /// They do not.
    NotMatched,
    /// There are too few of them to tell.
    Incomplete,
}

/// What is known of a connection.
#[derive(Debug)]
pub struct Meta {
    pub peer_identity: PeerIdentity,
    pub addrs: Addrs,
}

/// A socket some of whose bytes were read already. They come first.
#[derive(Debug)]
pub struct PrefixedIo<K> {
    pub prefix: Bytes,
    pub io: K,
}

/// What carries the bytes of a connection: a socket `K` or a TLS stream `S`.
#[derive(Debug)]
pub enum BoxedIo<K, S> {
    Plain(K),
    Prefixed(PrefixedIo<K>),
    Tls(S),
}

/// A connection and what is known of it.
pub type Connection<K, S> = (Meta, BoxedIo<K, S>);

/// Accepts connections for `accept`, with TLS as `tls` says.
pub struct AcceptTls<A, T> {
    pub accept: A,
    pub tls: Conditional<T>,
    pub skip_ports: Arc<Ports>,
}

/// Makes an `AcceptTls` of each service.
pub struct AcceptTlsLayer<T> {
    pub tls: Conditional<T>,
    pub skip_ports: Arc<Ports>,
}

/// The service that a connection is for, and the addresses of the connection.
pub struct AcceptMeta<A> {
    pub accept: A,
    pub addrs: Addrs,
}

/// A connection that is looked at for a TLS handshake.
pub struct TryTls<A, K, C> {
    pub meta: AcceptMeta<A>,
    pub server_name: String,
    pub config: Arc<C>,
    pub peek_buf: BytesMut,
    pub socket: K,
}

/// How a connection is accepted.
pub enum Called<A, K, C, S> {
    /// It is handed to the service.
    Accept(Connection<K, S>),
    /// It is looked at for a TLS handshake first.
    TryTls(TryTls<A, K, C>),
}

/// How many bytes are buffered at first.
pub const PEEK_CAPACITY: usize = 8192;

/// Whether `conn` is `io` with the identity of the peer missing for `reason`.
pub open spec fn unidentified<K, S>(
    conn: Connection<K, S>,
    reason: ReasonForNoPeerName,
    addrs: Addrs,
    io: BoxedIo<K, S>,
) -> bool {
    &&& conn.0.peer_identity == Conditional::<String>::Absent(reason)
    &&& conn.0.addrs == addrs
    &&& conn.1 == io
}

/// Whether `conn` is `socket` after `read` was read from it, without TLS.
pub open spec fn passed_through<K, S>(
    conn: Connection<K, S>,
    addrs: Addrs,
    socket: K,
    read: Seq<u8>,
) -> bool {
    &&& conn.0.peer_identity == Conditional::<String>::Absent(ReasonForNoPeerName::NoTlsFromRemote)
    &&& conn.0.addrs == addrs
    &&& conn.1 matches BoxedIo::Prefixed(io)
    &&& io.io == socket
    &&& buf::frozen(io.prefix) == read
}

impl<A, T: HasConfig> AcceptTls<A, T> {
    /// Accepts connections for `accept`, on every port alike.
    pub fn new(tls: Conditional<T>, accept: A) -> (made: Self)
        ensures
            made.accept == accept,
            made.tls == tls,
            ports::ports_in(*made.skip_ports) == Set::<u16>::empty(),
    {
        AcceptTls { accept, tls, skip_ports: Arc::new(ports::no_ports()) }
    }

    /// Does not look for TLS on the ports in `skip_ports`.
    pub fn with_skip_ports(self, skip_ports: Arc<Ports>) -> (made: Self)
        ensures
            made.accept == self.accept,
            made.tls == self.tls,
            made.skip_ports == skip_ports,
    {
        AcceptTls { accept: self.accept, tls: self.tls, skip_ports }
    }

    /// Makes an `AcceptTls` of each service.
    pub fn layer(tls: Conditional<T>, skip_ports: Arc<Ports>) -> (layer: AcceptTlsLayer<T>)
        ensures
            layer.tls == tls,
            layer.skip_ports == skip_ports,
    {
        AcceptTlsLayer { tls, skip_ports }
    }
}

impl<T: HasConfig + Clone> AcceptTlsLayer<T> {
    /// Accepts connections for `accept`.
    pub fn layer<A>(&self, accept: A) -> (made: AcceptTls<A, T>)
        ensures
            made.accept == accept,
            identity::cloned_conditional(self.tls, made.tls),
            made.skip_ports == self.skip_ports,
    {
        AcceptTls::new(self.tls.clone(), accept).with_skip_ports(share(&self.skip_ports))
    }
}

impl<A: Clone, T: HasConfig> AcceptTls<A, T> {
    /// Decides how a connection is accepted.
    pub fn call<K, S>(&self, addrs: Addrs, socket: K) -> (called: Called<A, K, T::Config, S>)
        ensures
            match self.tls {
                // TLS is disabled.
                Conditional::Absent(reason) => called matches Called::Accept(conn)
                    && unidentified(conn, reason, addrs, BoxedIo::Plain(socket)),
                // Protocol detection is disabled for the port.
                Conditional::Present(tls) if ports::ports_in(*self.skip_ports).contains(
                    addrs.target.2,
                ) => called matches Called::Accept(conn) && unidentified(
                    conn,
                    ReasonForNoPeerName::NotHttp,
                    addrs,
                    BoxedIo::Plain(socket),
                ),
                Conditional::Present(tls) => {
                    &&& called matches Called::TryTls(try_tls)
                    &&& cloned(self.accept, try_tls.meta.accept)
                    &&& try_tls.meta.addrs == addrs
                    &&& try_tls.socket == socket
                    &&& buf::buffered(try_tls.peek_buf) == Seq::<u8>::empty()
                    &&& call_ensures(T::tls_server_name, (&tls,), try_tls.server_name)
                    &&& call_ensures(T::tls_server_config, (&tls,), try_tls.config)
                },
            },
    {
        match &self.tls {
            Conditional::Absent(reason) => {
                let meta = Meta { peer_identity: Conditional::Absent(*reason), addrs };
                Called::Accept((meta, BoxedIo::Plain(socket)))
            },
            Conditional::Present(tls) => {
                if ports::has_port(&self.skip_ports, crate::net::port(&addrs.target_addr())) {
                    let meta = Meta {
                        peer_identity: Conditional::Absent(ReasonForNoPeerName::NotHttp),
                        addrs,
                    };
                    Called::Accept((meta, BoxedIo::Plain(socket)))
                } else {
                    let meta = AcceptMeta { accept: self.accept.clone(), addrs };
                    Called::TryTls(
                        TryTls {
                            meta,
                            socket,
                            peek_buf: buf::with_capacity(PEEK_CAPACITY),
                            config: tls.tls_server_config(),
                            server_name: tls.tls_server_name(),
                        },
                    )
                }
            },
        }
    }
}

/// Whether `after` is `before` after `read` was read.
pub open spec fn buffers<A, K, C>(
    before: TryTls<A, K, C>,
    read: Seq<u8>,
    after: TryTls<A, K, C>,
) -> bool {
    &&& after.meta == before.meta
    &&& after.server_name == before.server_name
    &&& after.config == before.config
    &&& after.socket == before.socket
    &&& buf::buffered(after.peek_buf) == buf::buffered(before.peek_buf) + read
}

impl<A, K, C> TryTls<A, K, C> {
    /// Buffers what was read from the socket.
    ///
    /// `NotMatched` is returned if the socket has closed: it is ambiguous whether a TLS
    /// handshake was to follow, which is resolved in favor of plaintext. Otherwise the
    /// buffer has to be matched for a TLS handshake.
    pub fn poll_match_client_hello(&mut self, read: Vec<u8>) -> (closed: Option<Match>)
        requires
            buf::fits(buf::buffered(old(self).peek_buf).len(), read@.len()),
        ensures
            buffers(*old(self), read@, *final(self)),
            closed == if read@.len() == 0 {
                Some(Match::NotMatched)
            } else {
                None
            },
            read@.len() == 0 ==> *final(self) == *old(self),
    {
        if read.len() == 0 {
            assert(buf::buffered(self.peek_buf) + read@ =~= buf::buffered(self.peek_buf));
            return Some(Match::NotMatched);
        }
        buf::extend(&mut self.peek_buf, &read);
        None
    }

    fn pass_through<S>(self) -> (made: (A, Connection<K, S>))
        ensures
            made.0 == self.meta.accept,
            passed_through(
                made.1,
                self.meta.addrs,
                self.socket,
                buf::buffered(self.peek_buf),
            ),
    {
        let TryTls { meta: AcceptMeta { accept, addrs }, peek_buf, socket, .. } = self;
        let meta = Meta {
            addrs,
            peer_identity: Conditional::Absent(ReasonForNoPeerName::NoTlsFromRemote),
        };
        let io = PrefixedIo { prefix: buf::freeze(peek_buf), io: socket };
        (accept, (meta, BoxedIo::Prefixed(io)))
    }
}

/// How far a connection is accepted.
///
/// `H` is a TLS handshake, and `F` the service's reply to the connection.
pub enum AcceptState<A, K, C, S, H, F> {
    /// The socket is to be read.
    TryTls(TryTls<A, K, C>),
    /// What was read is to be matched for a TLS handshake for the server's name.
    MatchHello(TryTls<A, K, C>),
    /// The handshake is to be polled.
    TerminateTls(H, AcceptMeta<A>),
    /// The service is to be polled for readiness.
    ReadyAccept(A, Connection<K, S>),
    /// The service's reply is to be polled.
    Accept(F),
}

/// The outcome of outside work.
pub enum Event<S, R, X> {
    /// What was read from the socket, which is nothing if it has closed.
    Read(Poll<Result<Vec<u8>, X>>),
    /// How the bytes that were read compare with a TLS handshake.
    Matched(Match),
    /// The stream that the handshake gave, and the identity of the peer.
    Tls(Poll<Result<(S, Option<String>), X>>),
    /// The readiness of the service.
    Ready(Poll<Result<(), X>>),
    /// The service's reply.
    Accepted(Poll<Result<R, X>>),
}

/// What comes next.
pub enum Step<A, K, C, S, H, F, R, X> {
    /// Go on with this state.
    Next(AcceptState<A, K, C, S, H, F>),
    /// Start a TLS handshake, and poll it next.
    StartTls(Arc<C>, PrefixedIo<K>, AcceptMeta<A>),
    /// Hand the connection to the service, and poll its reply next.
    CallAccept(A, Connection<K, S>),
    /// Wait, then go on with this state.
    Pending(AcceptState<A, K, C, S, H, F>),
    /// The connection is accepted, or failed.
    Done(Result<R, X>),
}

/// Whether `event` is an outcome of the work that `state` asks for.
pub open spec fn answers<A, K, C, S, H, F, R, X>(
    event: Event<S, R, X>,
    state: AcceptState<A, K, C, S, H, F>,
) -> bool {
    match event {
        Event::Read(Poll::Ready(Ok(read))) => state matches AcceptState::TryTls(try_tls)
            && buf::fits(buf::buffered(try_tls.peek_buf).len(), read@.len()),
        Event::Read(_) => state is TryTls,
        Event::Matched(_) => state is MatchHello,
        Event::Tls(_) => state is TerminateTls,
        Event::Ready(_) => state is ReadyAccept,
        Event::Accepted(_) => state is Accept,
    }
}

/// Whether the service is asked for `conn` after `try_tls` turned out not to be TLS.
pub open spec fn goes_plaintext<A, K, C, S, H, F, R, X>(
    try_tls: TryTls<A, K, C>,
    step: Step<A, K, C, S, H, F, R, X>,
) -> bool {
    &&& step matches Step::Next(AcceptState::ReadyAccept(accept, conn))
    &&& accept == try_tls.meta.accept
    &&& passed_through(
        conn,
        try_tls.meta.addrs,
        try_tls.socket,
        buf::buffered(try_tls.peek_buf),
    )
}

/// Whether `step` is what comes next in `state` after `event`.
pub open spec fn follows<A, K, C, S, H, F, R, X>(
    state: AcceptState<A, K, C, S, H, F>,
    event: Event<S, R, X>,
    step: Step<A, K, C, S, H, F, R, X>,
) -> bool {
    match (state, event) {
        (AcceptState::TryTls(try_tls), Event::Read(Poll::Ready(Ok(read)))) => if read@.len() == 0 {
            goes_plaintext(try_tls, step)
        } else {
            step matches Step::Next(AcceptState::MatchHello(after)) && buffers(
                try_tls,
                read@,
                after,
            )
        },
        (AcceptState::TryTls(_), Event::Read(Poll::Ready(Err(error)))) => step == Step::<
            A,
            K,
            C,
            S,
            H,
            F,
            R,
            X,
        >::Done(Err(error)),
        (AcceptState::MatchHello(try_tls), Event::Matched(Match::Matched)) => {
            &&& step matches Step::StartTls(config, io, meta)
            &&& config == try_tls.config
            &&& io.io == try_tls.socket
            &&& buf::frozen(io.prefix) == buf::buffered(try_tls.peek_buf)
            &&& meta == try_tls.meta
        },
        (AcceptState::MatchHello(try_tls), Event::Matched(Match::NotMatched)) => goes_plaintext(
            try_tls,
            step,
        ),
        (AcceptState::MatchHello(try_tls), Event::Matched(Match::Incomplete)) => step
            == Step::<A, K, C, S, H, F, R, X>::Next(AcceptState::TryTls(try_tls)),
        (AcceptState::TerminateTls(_, meta), Event::Tls(Poll::Ready(Ok((stream, name))))) => {
            &&& step matches Step::Next(AcceptState::ReadyAccept(accept, conn))
            &&& accept == meta.accept
            &&& conn.0.addrs == meta.addrs
            &&& identity::peer_view(conn.0.peer_identity) == identity::tls_peer(
                text::text_view(name),
            )
            &&& conn.1 == BoxedIo::<K, S>::Tls(stream)
        },
        (AcceptState::TerminateTls(..), Event::Tls(Poll::Ready(Err(error)))) => step == Step::<
            A,
            K,
            C,
            S,
            H,
            F,
            R,
            X,
        >::Done(Err(error)),
        (AcceptState::ReadyAccept(accept, conn), Event::Ready(Poll::Ready(Ok(())))) => step
            == Step::<A, K, C, S, H, F, R, X>::CallAccept(accept, conn),
        (AcceptState::ReadyAccept(..), Event::Ready(Poll::Ready(Err(error)))) => step == Step::<
            A,
            K,
            C,
            S,
            H,
            F,
            R,
            X,
        >::Done(Err(error)),
        (AcceptState::Accept(_), Event::Accepted(Poll::Ready(reply))) => step == Step::<
            A,
            K,
            C,
            S,
            H,
            F,
            R,
            X,
        >::Done(reply),
        // The outside work is not done yet.
        _ => step == Step::<A, K, C, S, H, F, R, X>::Pending(state),
    }
}

/// Accepts one connection.
pub struct AcceptFuture<A, K, C, S, H, F> {
    pub state: AcceptState<A, K, C, S, H, F>,
}

impl<A, K, C, S, H, F> AcceptFuture<A, K, C, S, H, F> {
    /// Waits for the service's reply to a connection.
    pub fn accept(reply: F) -> (future: Self)
        ensures
            future.state == AcceptState::<A, K, C, S, H, F>::Accept(reply),
    {
        AcceptFuture { state: AcceptState::Accept(reply) }
    }

    /// Looks at a connection for a TLS handshake.
    pub fn try_tls(try_tls: TryTls<A, K, C>) -> (future: Self)
        ensures
            future.state == AcceptState::<A, K, C, S, H, F>::TryTls(try_tls),
    {
        AcceptFuture { state: AcceptState::TryTls(try_tls) }
    }

    /// Goes on with the outcome of the work that the state asks for.
    pub fn poll<R, X>(self, event: Event<S, R, X>) -> (step: Step<A, K, C, S, H, F, R, X>)
        requires
            answers(event, self.state),
        ensures
            follows(self.state, event, step),
    {
        match event {
            Event::Read(polled) => match self.state {
                AcceptState::TryTls(mut try_tls) => match polled {
                    Poll::Ready(Ok(read)) => match try_tls.poll_match_client_hello(read) {
                        Some(_) => {
                            let (accept, conn) = try_tls.pass_through();
                            Step::Next(AcceptState::ReadyAccept(accept, conn))
                        },
                        None => Step::Next(AcceptState::MatchHello(try_tls)),
                    },
                    Poll::Ready(Err(error)) => Step::Done(Err(error)),
                    Poll::Pending => Step::Pending(AcceptState::TryTls(try_tls)),
                },
                state => Step::Pending(state),
            },
            Event::Matched(matched) => match self.state {
                AcceptState::MatchHello(try_tls) => match matched {
                    Match::Matched => {
                        let TryTls { meta, config, peek_buf, socket, .. } = try_tls;
                        let io = PrefixedIo { prefix: buf::freeze(peek_buf), io: socket };
                        Step::StartTls(config, io, meta)
                    },
                    Match::NotMatched => {
                        let (accept, conn) = try_tls.pass_through();
                        Step::Next(AcceptState::ReadyAccept(accept, conn))
                    },
                    Match::Incomplete => Step::Next(AcceptState::TryTls(try_tls)),
                },
                state => Step::Pending(state),
            },
            Event::Tls(polled) => match self.state {
                AcceptState::TerminateTls(handshake, meta) => match polled {
                    Poll::Ready(Ok((stream, name))) => {
                        let AcceptMeta { accept, addrs } = meta;
                        let meta = Meta { addrs, peer_identity: peer_identity(name) };
                        Step::Next(AcceptState::ReadyAccept(accept, (meta, BoxedIo::Tls(stream))))
                    },
                    Poll::Ready(Err(error)) => Step::Done(Err(error)),
                    Poll::Pending => Step::Pending(AcceptState::TerminateTls(handshake, meta)),
                },
                state => Step::Pending(state),
            },
            Event::Ready(polled) => match self.state {
                AcceptState::ReadyAccept(accept, conn) => match polled {
                    Poll::Ready(Ok(())) => Step::CallAccept(accept, conn),
                    Poll::Ready(Err(error)) => Step::Done(Err(error)),
                    Poll::Pending => Step::Pending(AcceptState::ReadyAccept(accept, conn)),
                },
                state => Step::Pending(state),
            },
            Event::Accepted(polled) => match self.state {
                AcceptState::Accept(reply) => match polled {
                    Poll::Ready(result) => Step::Done(result),
                    Poll::Pending => Step::Pending(AcceptState::Accept(reply)),
                },
                state => Step::Pending(state),
            },
        }
    }
}

} // verus!
