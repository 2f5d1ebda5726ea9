//! Detecting whether a connection starts with a TLS handshake.
//!
//! The socket and the handshake are driven from outside, and the bytes are matched there.

use super::accept::{self, BoxedIo, Connection, HasConfig, Match, Meta, PrefixedIo};
use super::buf;
use super::identity::{self, peer_identity, Conditional, ReasonForNoPeerName};
use super::ports::{self, Ports};
use crate::net::Addrs;
use crate::text;
use bytes::BytesMut;
use std::sync::Arc;
use vstd::prelude::*;

verus! {

/// Detects TLS for the identity of this process.
pub struct Detect<I> {
    pub local_identity: Option<I>,
    pub skip_ports: Arc<Ports>,
    pub capacity: usize,
}

/// A connection whose first bytes are looked at for a TLS handshake for `server_name`. TLS is
/// established with `config`.
pub struct Probe<K, C> {
    pub addrs: Addrs,
    pub tcp: K,
    pub buf: BytesMut,
    pub server_name: String,
    pub config: Arc<C>,
}

/// How far a detection is.
pub enum Detecting<K, C> {
    /// The bytes that have arrived are to be peeked at, and left in the socket.
    Peek(Probe<K, C>),
    /// What was peeked at is to be matched for a TLS handshake for the name of the server.
    MatchPeeked(Probe<K, C>),
    /// The socket is to be read.
    FirstRead(Probe<K, C>),
    /// What was read is not enough, and the socket is to be read again.
    Read(Probe<K, C>),
    /// What was read is to be matched alike. The flag says whether the last read brought bytes.
    MatchRead(Probe<K, C>, bool),
}

/// The outcome of outside work.
pub enum Event<X> {
    /// The bytes that were peeked at.
    Peeked(Result<Vec<u8>, X>),
    /// The bytes that were read, none if the socket has closed.
    Read(Result<Vec<u8>, X>),
    /// How the buffered bytes compare with a TLS handshake for the name of the server.
    Matched(Match),
}

/// What comes next.
pub enum Step<K, C, S, X> {
    /// Go on with this state.
    Next(Detecting<K, C>),
    /// Establish TLS with the config, then the connection is detected.
    StartTls(Arc<C>, Addrs, BoxedIo<K, S>),
    /// The connection is detected, or failed.
    Done(Result<Connection<K, S>, X>),
}

/// What holds of the buffer in each state.
pub open spec fn wf<K, C>(state: Detecting<K, C>) -> bool {
    match state {
        Detecting::Peek(probe) => buf::buffered(probe.buf).len() == 0,
        Detecting::MatchPeeked(_) => true,
        Detecting::FirstRead(probe) => buf::buffered(probe.buf).len() == 0,
        Detecting::Read(probe) => buf::buffered(probe.buf).len() > 0,
        Detecting::MatchRead(probe, _) => buf::buffered(probe.buf).len() > 0,
    }
}

/// The connection that a detection looks at.
pub open spec fn probe_of<K, C>(state: Detecting<K, C>) -> Probe<K, C> {
    match state {
        Detecting::Peek(probe) => probe,
        Detecting::MatchPeeked(probe) => probe,
        Detecting::FirstRead(probe) => probe,
        Detecting::Read(probe) => probe,
        Detecting::MatchRead(probe, _) => probe,
    }
}

/// Whether `after` is `before` with `bytes` buffered.
pub open spec fn probes<K, C>(after: Probe<K, C>, before: Probe<K, C>, bytes: Seq<u8>) -> bool {
    &&& after.addrs == before.addrs
    &&& after.tcp == before.tcp
    &&& after.server_name == before.server_name
    &&& after.config == before.config
    &&& buf::buffered(after.buf) == bytes
}

/// Whether `event` is an outcome of the work that `state` asks for.
pub open spec fn answers<K, C, X>(event: Event<X>, state: Detecting<K, C>) -> bool {
    match event {
        Event::Peeked(Ok(bytes)) => state is Peek && buf::fits(
            buf::buffered(probe_of(state).buf).len(),
            bytes@.len(),
        ),
        Event::Peeked(Err(_)) => state is Peek,
        Event::Read(Ok(bytes)) => (state is FirstRead || state is Read) && buf::fits(
            buf::buffered(probe_of(state).buf).len(),
            bytes@.len(),
        ),
        Event::Read(Err(_)) => state is FirstRead || state is Read,
        Event::Matched(_) => state is MatchPeeked || state is MatchRead,
    }
}

/// Whether the connection is not TLS, with all bytes that were read put before the socket.
pub open spec fn not_tls<K, C, S, X>(probe: Probe<K, C>, step: Step<K, C, S, X>) -> bool {
    step matches Step::Done(Ok(conn)) && accept::passed_through(
        conn,
        probe.addrs,
        probe.tcp,
        buf::buffered(probe.buf),
    )
}

/// Whether `step` is what comes next in `state` after `event`.
pub open spec fn follows<K, C, S, X>(
    state: Detecting<K, C>,
    event: Event<X>,
    step: Step<K, C, S, X>,
) -> bool {
    let before = probe_of(state);
    let held = buf::buffered(before.buf);
    match (state, event) {
        (Detecting::Peek(_), Event::Peeked(Ok(bytes))) => step matches Step::Next(
            Detecting::MatchPeeked(after),
        ) && probes(after, before, held + bytes@),
        (Detecting::MatchPeeked(_), Event::Matched(Match::Matched)) => step == Step::<
            K,
            C,
            S,
            X,
        >::StartTls(before.config, before.addrs, BoxedIo::Plain(before.tcp)),
        (Detecting::MatchPeeked(_), Event::Matched(Match::NotMatched)) => step matches Step::Done(
            Ok(conn),
        ) && accept::unidentified(
            conn,
            ReasonForNoPeerName::NoTlsFromRemote,
            before.addrs,
            BoxedIo::Plain(before.tcp),
        ),
        // Peeking did not give enough bytes, so that the socket is read instead.
        (Detecting::MatchPeeked(_), Event::Matched(Match::Incomplete)) => step matches Step::Next(
            Detecting::FirstRead(after),
        ) && probes(after, before, Seq::empty()),
        (Detecting::FirstRead(probe), Event::Read(Ok(bytes))) => if bytes@.len() > 0 {
            step matches Step::Next(Detecting::MatchRead(after, more)) && probes(
                after,
                before,
                held + bytes@,
            ) && more
        } else {
            not_tls(probe, step)
        },
        (Detecting::Read(_), Event::Read(Ok(bytes))) => step matches Step::Next(
            Detecting::MatchRead(after, more),
        ) && probes(after, before, held + bytes@) && more == (bytes@.len() > 0),
        (Detecting::MatchRead(..), Event::Matched(Match::Matched)) => {
            &&& step matches Step::StartTls(config, to, BoxedIo::Prefixed(io))
            &&& config == before.config
            &&& to == before.addrs
            &&& io.io == before.tcp
            &&& buf::frozen(io.prefix) == held
        },
        (Detecting::MatchRead(probe, _), Event::Matched(Match::NotMatched)) => not_tls(probe, step),
        (Detecting::MatchRead(probe, more), Event::Matched(Match::Incomplete)) => if more {
            step == Step::<K, C, S, X>::Next(Detecting::Read(probe))
        } else {
            not_tls(probe, step)
        },
        (_, Event::Peeked(Err(error))) => step == Step::<K, C, S, X>::Done(Err(error)),
        (_, Event::Read(Err(error))) => step == Step::<K, C, S, X>::Done(Err(error)),
        _ => true,
    }
}

/// Whether `probe` is the connection `tcp` to `addrs` of which nothing was read, looked at for
/// the identity `local`.
pub open spec fn probes_for<I: HasConfig, K>(
    probe: Probe<K, I::Config>,
    local: I,
    addrs: Addrs,
    tcp: K,
) -> bool {
    &&& probe.addrs == addrs
    &&& probe.tcp == tcp
    &&& buf::buffered(probe.buf) == Seq::<u8>::empty()
    &&& call_ensures(I::tls_server_name, (&local,), probe.server_name)
    &&& call_ensures(I::tls_server_config, (&local,), probe.config)
}

impl<I: HasConfig> Detect<I> {
    /// Starts to detect what the connection `tcp` to `addrs` is.
    pub fn detect<K, S, X>(&self, addrs: Addrs, tcp: K) -> (step: Step<K, I::Config, S, X>)
        requires
            self.capacity <= isize::MAX,
        ensures
            match self.local_identity {
                None => step matches Step::Done(Ok(conn)) && accept::unidentified(
                    conn,
                    ReasonForNoPeerName::LocalIdentityDisabled,
                    addrs,
                    BoxedIo::Plain(tcp),
                ),
                Some(local) => if ports::ports_in(*self.skip_ports).contains(addrs.target.2) {
                    step matches Step::Done(Ok(conn)) && accept::unidentified(
                        conn,
                        ReasonForNoPeerName::PortSkipped,
                        addrs,
                        BoxedIo::Plain(tcp),
                    )
                } else {
                    step matches Step::Next(Detecting::Peek(probe)) && probes_for(
                        probe,
                        local,
                        addrs,
                        tcp,
                    )
                },
            },
            step matches Step::Next(state) ==> wf(state),
    {
        let local = match &self.local_identity {
            Some(local) => local,
            None => {
                let meta = Meta {
                    peer_identity: Conditional::Absent(ReasonForNoPeerName::LocalIdentityDisabled),
                    addrs,
                };
                return Step::Done(Ok((meta, BoxedIo::Plain(tcp))));
            },
        };
        if ports::has_port(&self.skip_ports, crate::net::port(&addrs.target_addr())) {
            let meta = Meta {
                peer_identity: Conditional::Absent(ReasonForNoPeerName::PortSkipped),
                addrs,
            };
            return Step::Done(Ok((meta, BoxedIo::Plain(tcp))));
        }
        Step::Next(
            Detecting::Peek(
                Probe {
                    addrs,
                    tcp,
                    buf: buf::with_capacity(self.capacity),
                    server_name: local.tls_server_name(),
                    config: local.tls_server_config(),
                },
            ),
        )
    }

    /// The connection after TLS was established with a peer that proved `name`.
    pub fn tls_accepted<K, S>(addrs: Addrs, stream: S, name: Option<String>) -> (conn: Connection<
        K,
        S,
    >)
        ensures
            conn.0.addrs == addrs,
            identity::peer_view(conn.0.peer_identity) == identity::tls_peer(
                text::text_view(name),
            ),
            conn.1 == BoxedIo::<K, S>::Tls(stream),
    {
        (Meta { peer_identity: peer_identity(name), addrs }, BoxedIo::Tls(stream))
    }
}

impl<K, C> Probe<K, C> {
    /// The connection is not TLS. The bytes that were read come before the socket.
    fn pass_through<S, X>(self) -> (step: Step<K, C, S, X>)
        ensures
            not_tls(self, step),
    {
        let meta = Meta {
            peer_identity: Conditional::Absent(ReasonForNoPeerName::NoTlsFromRemote),
            addrs: self.addrs,
        };
        let io = PrefixedIo { prefix: buf::freeze(self.buf), io: self.tcp };
        Step::Done(Ok((meta, BoxedIo::Prefixed(io))))
    }
}

impl<K, C> Detecting<K, C> {
    /// Goes on with the outcome of the work that the state asks for.
    pub fn follow<S, X>(self, event: Event<X>) -> (step: Step<K, C, S, X>)
        requires
            wf(self),
            answers(event, self),
        ensures
            follows(self, event, step),
            step matches Step::Next(state) ==> wf(state),
    {
        match event {
            Event::Peeked(Err(error)) => Step::Done(Err(error)),
            Event::Read(Err(error)) => Step::Done(Err(error)),
            Event::Peeked(Ok(bytes)) => match self {
                Detecting::Peek(mut probe) => {
                    buf::extend(&mut probe.buf, &bytes);
                    Step::Next(Detecting::MatchPeeked(probe))
                },
                state => Step::Next(state),
            },
            Event::Read(Ok(bytes)) => match self {
                Detecting::FirstRead(mut probe) => {
                    let ghost held = buf::buffered(probe.buf);
                    buf::extend(&mut probe.buf, &bytes);
                    if bytes.len() > 0 && buf::capacity(&probe.buf) > 0 {
                        Step::Next(Detecting::MatchRead(probe, true))
                    } else {
                        assert(held + bytes@ =~= held);
                        probe.pass_through()
                    }
                },
                Detecting::Read(mut probe) => {
                    buf::extend(&mut probe.buf, &bytes);
                    Step::Next(Detecting::MatchRead(probe, bytes.len() > 0))
                },
                state => Step::Next(state),
            },
            Event::Matched(matched) => match self {
                Detecting::MatchPeeked(mut probe) => match matched {
                    Match::Matched => Step::StartTls(
                        probe.config,
                        probe.addrs,
                        BoxedIo::Plain(probe.tcp),
                    ),
                    Match::NotMatched => {
                        let meta = Meta {
                            peer_identity: Conditional::Absent(
                                ReasonForNoPeerName::NoTlsFromRemote,
                            ),
                            addrs: probe.addrs,
                        };
                        Step::Done(Ok((meta, BoxedIo::Plain(probe.tcp))))
                    },
                    Match::Incomplete => {
                        buf::clear(&mut probe.buf);
                        Step::Next(Detecting::FirstRead(probe))
                    },
                },
                Detecting::MatchRead(probe, more) => match matched {
                    Match::Matched => {
                        let io = PrefixedIo { prefix: buf::freeze(probe.buf), io: probe.tcp };
                        Step::StartTls(probe.config, probe.addrs, BoxedIo::Prefixed(io))
                    },
                    Match::NotMatched => probe.pass_through(),
                    Match::Incomplete => {
                        if more && buf::capacity(&probe.buf) > 0 {
                            Step::Next(Detecting::Read(probe))
                        } else {
                            probe.pass_through()
                        }
                    },
                },
                state => Step::Next(state),
            },
        }
    }
}

} // verus!
