//! What accepting a connection does at each step: when it waits, when TLS is established and
//! when the connection is passed on without it.

use super::accept::{
    self, AcceptFuture, AcceptState, AcceptTls, AcceptTlsLayer, BoxedIo, Called, Connection, Event,
    HasConfig, Match, Step, TryTls,
};
use super::buf;
use super::detect::{self, Detect, Detecting, Probe};
use super::identity::{self, Conditional, DnsName};
use super::ports::{self, Ports};
use crate::net::Addrs;
use crate::poll::Poll;
use std::sync::Arc;
use vstd::prelude::*;

verus! {

/// Whether `conn` is `socket` with `bytes` before what is left in it, of a peer that has no name
/// for it did not start TLS.
pub open spec fn plain_with<K, S>(
    conn: Connection<K, S>,
    addrs: Addrs,
    socket: K,
    bytes: Seq<u8>,
) -> bool {
    &&& conn.0.addrs == addrs
    &&& conn.0.peer_identity matches Conditional::Absent(reason)
    &&& reason is NoTlsFromRemote
    &&& conn.1 matches BoxedIo::Prefixed(io)
    &&& io.io == socket
    &&& buf::frozen(io.prefix) == bytes
}

/// Whether `event` says that the outside work is not done yet.
pub open spec fn not_done<S, R, X>(event: Event<S, R, X>) -> bool {
    match event {
        Event::Read(polled) => polled is Pending,
        Event::Matched(_) => false,
        Event::Tls(polled) => polled is Pending,
        Event::Ready(polled) => polled is Pending,
        Event::Accepted(polled) => polled is Pending,
    }
}

/// While what is waited for is not there, accepting waits and keeps all that it has. It waits in
/// no other case.
pub proof fn law_accepting_waits<A, K, C, S, H, F, R, X>(
    future: AcceptFuture<A, K, C, S, H, F>,
    event: Event<S, R, X>,
    step: Step<A, K, C, S, H, F, R, X>,
)
    requires
        accept::answers(event, future.state),
        call_ensures(AcceptFuture::<A, K, C, S, H, F>::poll::<R, X>, (future, event), step),
    ensures
        not_done(event) ==> step == Step::<A, K, C, S, H, F, R, X>::Pending(future.state),
        step is Pending ==> not_done(event),
{
}

/// A connection is passed on without TLS only if its socket closed before it could be told, or
/// what was read does not start TLS for the server. All that was read comes before the socket.
pub proof fn law_plaintext_is_not_tls<A, K, C, S, H, F, R, X>(
    future: AcceptFuture<A, K, C, S, H, F>,
    event: Event<S, R, X>,
    step: Step<A, K, C, S, H, F, R, X>,
)
    requires
        accept::answers(event, future.state),
        call_ensures(AcceptFuture::<A, K, C, S, H, F>::poll::<R, X>, (future, event), step),
    ensures
        step matches Step::Next(AcceptState::ReadyAccept(to, conn)) ==> (match future.state {
            AcceptState::TryTls(try_tls) => {
                &&& event matches Event::Read(Poll::Ready(Ok(read)))
                &&& read@.len() == 0
                &&& to == try_tls.meta.accept
                &&& plain_with(
                    conn,
                    try_tls.meta.addrs,
                    try_tls.socket,
                    buf::buffered(try_tls.peek_buf),
                )
            },
            AcceptState::MatchHello(try_tls) => {
                &&& event matches Event::Matched(matched)
                &&& matched is NotMatched
                &&& to == try_tls.meta.accept
                &&& plain_with(
                    conn,
                    try_tls.meta.addrs,
                    try_tls.socket,
                    buf::buffered(try_tls.peek_buf),
                )
            },
            AcceptState::TerminateTls(..) => event matches Event::Tls(Poll::Ready(Ok(_))),
            _ => false,
        }),
        event matches Event::Read(Poll::Ready(Ok(read))) ==> (read@.len() == 0 ==> step
            matches Step::Next(AcceptState::ReadyAccept(..))),
        event == Event::<S, R, X>::Matched(Match::NotMatched) ==> step matches Step::Next(
            AcceptState::ReadyAccept(..),
        ),
{
}

/// What is read is added to what was read before and is looked at, and nothing else of the
/// connection changes. If it is too little to tell, more is read.
pub proof fn law_reads_are_looked_at<A, K, C, S, H, F, R, X>(
    future: AcceptFuture<A, K, C, S, H, F>,
    event: Event<S, R, X>,
    step: Step<A, K, C, S, H, F, R, X>,
)
    requires
        accept::answers(event, future.state),
        call_ensures(AcceptFuture::<A, K, C, S, H, F>::poll::<R, X>, (future, event), step),
    ensures
        event matches Event::Read(Poll::Ready(Ok(read))) ==> (read@.len() > 0 ==> {
            &&& future.state matches AcceptState::TryTls(before)
            &&& step matches Step::Next(AcceptState::MatchHello(after))
            &&& buf::buffered(after.peek_buf) == buf::buffered(before.peek_buf) + read@
            &&& after.socket == before.socket
            &&& after.meta == before.meta
            &&& after.server_name == before.server_name
            &&& after.config == before.config
        }),
        event == Event::<S, R, X>::Matched(Match::Incomplete) ==> {
            &&& future.state matches AcceptState::MatchHello(before)
            &&& step matches Step::Next(AcceptState::TryTls(after))
            &&& after == before
        },
{
}

/// TLS is established exactly if what was read starts TLS for the server: with the config of the
/// server, over the socket that starts with all that was read.
pub proof fn law_matched_connections_start_tls<A, K, C, S, H, F, R, X>(
    future: AcceptFuture<A, K, C, S, H, F>,
    event: Event<S, R, X>,
    step: Step<A, K, C, S, H, F, R, X>,
)
    requires
        accept::answers(event, future.state),
        call_ensures(AcceptFuture::<A, K, C, S, H, F>::poll::<R, X>, (future, event), step),
    ensures
        step is StartTls <==> event == Event::<S, R, X>::Matched(Match::Matched),
        step matches Step::StartTls(config, io, meta) ==> {
            &&& future.state matches AcceptState::MatchHello(try_tls)
            &&& config == try_tls.config
            &&& meta == try_tls.meta
            &&& io.io == try_tls.socket
            &&& buf::frozen(io.prefix) == buf::buffered(try_tls.peek_buf)
        },
{
}

/// A TLS stream is passed on with the name that the peer proved, or with the fact that it proved
/// none.
pub proof fn law_tls_streams_are_passed_on<A, K, C, S, H, F, R, X>(
    future: AcceptFuture<A, K, C, S, H, F>,
    stream: S,
    name: Option<String>,
    step: Step<A, K, C, S, H, F, R, X>,
)
    requires
        future.state is TerminateTls,
        call_ensures(
            AcceptFuture::<A, K, C, S, H, F>::poll::<R, X>,
            (future, Event::Tls(Poll::Ready(Ok((stream, name))))),
            step,
        ),
    ensures
        ({
            &&& future.state matches AcceptState::TerminateTls(_, meta)
            &&& step matches Step::Next(AcceptState::ReadyAccept(to, conn))
            &&& to == meta.accept
            &&& conn.0.addrs == meta.addrs
            &&& conn.1 == BoxedIo::<K, S>::Tls(stream)
            &&& match name {
                Some(name) => conn.0.peer_identity matches Conditional::Present(known) && known@
                    == name@,
                None => conn.0.peer_identity matches Conditional::Absent(reason) && reason
                    is NoPeerIdFromRemote,
            }
        }),
{
}

/// A connection is handed to the service when that is ready and in no other case, and the
/// service's reply is the outcome. An error at any step is the outcome too.
pub proof fn law_service_gets_the_connection<A, K, C, S, H, F, R, X>(
    future: AcceptFuture<A, K, C, S, H, F>,
    event: Event<S, R, X>,
    step: Step<A, K, C, S, H, F, R, X>,
)
    requires
        accept::answers(event, future.state),
        call_ensures(AcceptFuture::<A, K, C, S, H, F>::poll::<R, X>, (future, event), step),
    ensures
        step is CallAccept <==> event matches Event::Ready(Poll::Ready(Ok(_))),
        step matches Step::CallAccept(to, conn) ==> future.state == AcceptState::<
            A,
            K,
            C,
            S,
            H,
            F,
        >::ReadyAccept(to, conn),
        step matches Step::Done(result) ==> match event {
            Event::Accepted(Poll::Ready(reply)) => result == reply,
            Event::Read(Poll::Ready(Err(error))) => result == Err::<R, X>(error),
            Event::Tls(Poll::Ready(Err(error))) => result == Err::<R, X>(error),
            Event::Ready(Poll::Ready(Err(error))) => result == Err::<R, X>(error),
            _ => false,
        },
        event matches Event::Accepted(Poll::Ready(_)) ==> step is Done,
        event matches Event::Read(Poll::Ready(Err(_))) ==> step is Done,
        event matches Event::Tls(Poll::Ready(Err(_))) ==> step is Done,
        event matches Event::Ready(Poll::Ready(Err(_))) ==> step is Done,
{
}

/// What accepting a connection waits for, by its state.
pub proof fn law_accepting_asks_for<A, K, C, S, H, F, R, X>(
    event: Event<S, R, X>,
    state: AcceptState<A, K, C, S, H, F>,
)
    requires
        accept::answers(event, state),
    ensures
        event is Read <==> state is TryTls,
        event is Matched <==> state is MatchHello,
        event is Tls <==> state is TerminateTls,
        event is Ready <==> state is ReadyAccept,
        event is Accepted <==> state is Accept,
{
}

/// A connection is looked at for TLS exactly if TLS is enabled and its port is not skipped.
/// Otherwise it is passed on as it is, with the reason. Nothing was read of it then.
pub proof fn law_tls_is_tried<A: Clone, T: HasConfig, K, S>(
    by: AcceptTls<A, T>,
    addrs: Addrs,
    socket: K,
    called: Called<A, K, T::Config, S>,
)
    requires
        call_ensures(AcceptTls::<A, T>::call::<K, S>, (&by, addrs, socket), called),
    ensures
        called is TryTls <==> by.tls is Present && !ports::ports_in(*by.skip_ports).contains(
            addrs.target.2,
        ),
        called matches Called::TryTls(try_tls) ==> {
            &&& by.tls matches Conditional::Present(local)
            &&& call_ensures(T::tls_server_name, (&local,), try_tls.server_name)
            &&& call_ensures(T::tls_server_config, (&local,), try_tls.config)
            &&& try_tls.socket == socket
            &&& try_tls.meta.addrs == addrs
            &&& cloned(by.accept, try_tls.meta.accept)
            &&& buf::buffered(try_tls.peek_buf).len() == 0
        },
        called matches Called::Accept(conn) ==> {
            &&& conn.1 == BoxedIo::<K, S>::Plain(socket)
            &&& conn.0.addrs == addrs
            &&& conn.0.peer_identity matches Conditional::Absent(reason)
            &&& match by.tls {
                Conditional::Absent(disabled) => reason == disabled,
                Conditional::Present(_) => reason is NotHttp,
            }
        },
{
}

/// No port is skipped at first, and then those that are given. A layer hands its settings to
/// what it makes.
pub proof fn law_accept_settings<A, T: HasConfig + Clone>(
    tls: Conditional<T>,
    to: A,
    made: AcceptTls<A, T>,
    skip_ports: Arc<Ports>,
    skipping: AcceptTls<A, T>,
    layer: AcceptTlsLayer<T>,
    layered: AcceptTls<A, T>,
)
    requires
        call_ensures(AcceptTls::<A, T>::new, (tls, to), made),
        call_ensures(AcceptTls::<A, T>::with_skip_ports, (made, skip_ports), skipping),
        call_ensures(AcceptTls::<A, T>::layer, (tls, skip_ports), layer),
        call_ensures(AcceptTlsLayer::<T>::layer::<A>, (&layer, to), layered),
    ensures
        forall|port: u16| !(#[trigger] ports::ports_in(*made.skip_ports).contains(port)),
        made.accept == to,
        made.tls == tls,
        skipping.accept == to,
        skipping.tls == tls,
        skipping.skip_ports == skip_ports,
        layered.accept == to,
        layered.skip_ports == skip_ports,
        tls matches Conditional::Absent(reason) ==> layered.tls == Conditional::<T>::Absent(reason),
        tls matches Conditional::Present(local) ==> (layered.tls matches Conditional::Present(copy)
            && cloned(local, copy)),
{
}

/// Of a socket that closed nothing can be told, and nothing is buffered. Otherwise what was read
/// is buffered behind what was read before.
pub proof fn law_hello_is_buffered<A, K, C>(
    before: TryTls<A, K, C>,
    after: TryTls<A, K, C>,
    read: Vec<u8>,
    closed: Option<Match>,
)
    requires
        exists|t: &mut TryTls<A, K, C>|
            *t == before && *final(t) == after && #[trigger] call_ensures(
                TryTls::<A, K, C>::poll_match_client_hello,
                (t, read),
                closed,
            ),
    ensures
        closed == Some(Match::NotMatched) <==> read@.len() == 0,
        closed is None <==> read@.len() > 0,
        buf::buffered(after.peek_buf) == buf::buffered(before.peek_buf) + read@,
        after.socket == before.socket,
        after.meta == before.meta,
        after.server_name == before.server_name,
        after.config == before.config,
{
}

/// A detection looks at a connection exactly if there is a local identity and the port is not
/// skipped. Otherwise the connection is plain, with the reason.
pub proof fn law_detection_is_tried<I: HasConfig, K, S, X>(
    by: Detect<I>,
    addrs: Addrs,
    tcp: K,
    step: detect::Step<K, I::Config, S, X>,
)
    requires
        by.capacity <= isize::MAX,
        call_ensures(Detect::<I>::detect::<K, S, X>, (&by, addrs, tcp), step),
    ensures
        step is Next <==> by.local_identity is Some && !ports::ports_in(*by.skip_ports).contains(
            addrs.target.2,
        ),
        step is Next || step is Done,
        step matches detect::Step::Next(state) ==> {
            &&& state matches Detecting::Peek(probe)
            &&& probe.addrs == addrs
            &&& probe.tcp == tcp
            &&& buf::buffered(probe.buf).len() == 0
            &&& by.local_identity matches Some(local)
            &&& call_ensures(I::tls_server_name, (&local,), probe.server_name)
            &&& call_ensures(I::tls_server_config, (&local,), probe.config)
        },
        step matches detect::Step::Done(result) ==> {
            &&& result matches Ok(conn)
            &&& conn.1 == BoxedIo::<K, S>::Plain(tcp)
            &&& conn.0.addrs == addrs
            &&& conn.0.peer_identity matches Conditional::Absent(reason)
            &&& if by.local_identity is None {
                reason is LocalIdentityDisabled
            } else {
                reason is PortSkipped
            }
        },
{
}

/// Whether `after` is the connection that `before` is.
pub open spec fn same_probe<K, C>(before: Probe<K, C>, after: Probe<K, C>) -> bool {
    &&& after.addrs == before.addrs
    &&& after.tcp == before.tcp
    &&& after.server_name == before.server_name
    &&& after.config == before.config
}

/// A detection peeks first. If that is too little to tell, what was peeked at is dropped, for it
/// is still in the socket, and the socket is read. What is read is kept, and looked at before
/// more is read.
pub proof fn law_detection_goes_on<K, C, S, X>(
    state: Detecting<K, C>,
    event: detect::Event<X>,
    step: detect::Step<K, C, S, X>,
    next: Detecting<K, C>,
)
    requires
        detect::wf(state),
        detect::answers(event, state),
        call_ensures(Detecting::<K, C>::follow::<S, X>, (state, event), step),
        step == detect::Step::<K, C, S, X>::Next(next),
    ensures
        same_probe(detect::probe_of(state), detect::probe_of(next)),
        ({
            let held = buf::buffered(detect::probe_of(state).buf);
            let holds = buf::buffered(detect::probe_of(next).buf);
            match event {
                detect::Event::Peeked(Ok(bytes)) => next is MatchPeeked && holds == held + bytes@,
                detect::Event::Read(Ok(bytes)) => {
                    &&& next matches Detecting::MatchRead(_, more)
                    &&& holds == held + bytes@
                    &&& more <==> bytes@.len() > 0
                    &&& state is FirstRead ==> bytes@.len() > 0
                },
                detect::Event::Matched(matched) => {
                    &&& matched is Incomplete
                    &&& state is MatchPeeked ==> next is FirstRead && holds.len() == 0
                    &&& state matches Detecting::MatchRead(_, more) ==> more && next is Read
                        && holds == held
                },
                _ => false,
            }
        }),
{
}

/// A detection starts TLS exactly on bytes that start TLS for the name of the server, with its
/// config. What was only peeked at is still in the socket, and what was read comes before it.
pub proof fn law_detection_starts_tls<K, C, S, X>(
    state: Detecting<K, C>,
    event: detect::Event<X>,
    step: detect::Step<K, C, S, X>,
)
    requires
        detect::wf(state),
        detect::answers(event, state),
        call_ensures(Detecting::<K, C>::follow::<S, X>, (state, event), step),
    ensures
        step is StartTls <==> event == detect::Event::<X>::Matched(Match::Matched),
        step matches detect::Step::StartTls(config, addrs, io) ==> {
            let probe = detect::probe_of(state);
            &&& config == probe.config
            &&& addrs == probe.addrs
            &&& match io {
                BoxedIo::Plain(tcp) => state is MatchPeeked && tcp == probe.tcp,
                BoxedIo::Prefixed(io) => state is MatchRead && io.io == probe.tcp && buf::frozen(
                    io.prefix,
                ) == buf::buffered(probe.buf),
                BoxedIo::Tls(_) => false,
            }
        },
{
}

/// A detection ends without TLS exactly on bytes that do not start TLS for the server, or if the
/// socket closed before it could be told. It ends with an error exactly if the socket fails.
pub proof fn law_detection_ends<K, C, S, X>(
    state: Detecting<K, C>,
    event: detect::Event<X>,
    step: detect::Step<K, C, S, X>,
)
    requires
        detect::wf(state),
        detect::answers(event, state),
        call_ensures(Detecting::<K, C>::follow::<S, X>, (state, event), step),
    ensures
        step matches detect::Step::Done(Ok(_)) <==> (event == detect::Event::<X>::Matched(
            Match::NotMatched,
        ) || (event matches detect::Event::Read(Ok(bytes)) && state is FirstRead && bytes@.len()
            == 0) || (event == detect::Event::<X>::Matched(Match::Incomplete) && (state
            matches Detecting::MatchRead(_, more) && !more))),
        step matches detect::Step::Done(Ok(conn)) ==> {
            let probe = detect::probe_of(state);
            if state is MatchPeeked {
                &&& conn.1 == BoxedIo::<K, S>::Plain(probe.tcp)
                &&& conn.0.addrs == probe.addrs
                &&& conn.0.peer_identity matches Conditional::Absent(reason)
                &&& reason is NoTlsFromRemote
            } else {
                plain_with(conn, probe.addrs, probe.tcp, buf::buffered(probe.buf))
            }
        },
        step matches detect::Step::Done(Err(error)) ==> event == detect::Event::<X>::Peeked(
            Err(error),
        ) || event == detect::Event::<X>::Read(Err(error)),
        event matches detect::Event::Peeked(Err(_)) ==> step matches detect::Step::Done(Err(_)),
        event matches detect::Event::Read(Err(_)) ==> step matches detect::Step::Done(Err(_)),
{
}

/// A detected TLS stream has the name that the peer proved, or the fact that it proved none.
pub proof fn law_detected_peer_is_named<I: HasConfig, K, S>(
    addrs: Addrs,
    stream: S,
    name: Option<String>,
    conn: Connection<K, S>,
)
    requires
        call_ensures(Detect::<I>::tls_accepted::<K, S>, (addrs, stream, name), conn),
    ensures
        conn.0.addrs == addrs,
        conn.1 == BoxedIo::<K, S>::Tls(stream),
        match name {
            Some(name) => conn.0.peer_identity matches Conditional::Present(known) && known@
                == name@,
            None => conn.0.peer_identity matches Conditional::Absent(reason) && reason
                is NoPeerIdFromRemote,
        },
{
}

/// A peer is identified by the first name of its first certificate, if that is an end-entity
/// certificate and the name is no wildcard, and by nothing else.
pub proof fn law_peers_are_identified_by_certificate(
    certs: Option<Vec<Vec<u8>>>,
    names: Option<Vec<DnsName>>,
    identity: Option<String>,
)
    requires
        call_ensures(identity::client_identity, (&certs, &names), identity),
    ensures
        identity is Some <==> {
            &&& certs matches Some(certs)
            &&& certs@.len() > 0
            &&& identity::is_end_entity(certs@[0]@)
            &&& names matches Some(names)
            &&& names@.len() > 0
            &&& names@[0] is Name
        },
        identity matches Some(identity) ==> (names matches Some(names) && names@[0]
            == DnsName::Name(names@[0]->Name_0) && identity@ == names@[0]->Name_0@),
{
}

/// The first name counts if the certificate could be parsed and the name is no wildcard. A peer
/// with a name is identified by it, and one without is not.
pub proof fn law_names_identify_peers(
    parses: bool,
    names: Option<Vec<DnsName>>,
    first: Option<String>,
    name: Option<String>,
    peer: Conditional<String>,
)
    requires
        call_ensures(identity::first_name, (parses, &names), first),
        call_ensures(identity::peer_identity, (name,), peer),
    ensures
        first is Some <==> parses && (names matches Some(names) && names@.len() > 0 && names@[0]
            is Name),
        first matches Some(first) ==> first@ == names->0@[0]->Name_0@,
        match name {
            Some(name) => peer matches Conditional::Present(known) && known@ == name@,
            None => peer matches Conditional::Absent(reason) && reason is NoPeerIdFromRemote,
        },
{
}

/// Each outcome of the work that accepting asks for is accepted, as long as what is read fits
/// into memory.
pub proof fn law_outcomes_are_accepted<A, K, C, S, H, F, R, X>(
    future: AcceptFuture<A, K, C, S, H, F>,
    event: Event<S, R, X>,
)
    requires
        match event {
            Event::Read(polled) => {
                &&& future.state matches AcceptState::TryTls(try_tls)
                &&& polled matches Poll::Ready(Ok(read)) ==> 4 * (buf::buffered(
                    try_tls.peek_buf,
                ).len() + read@.len()) <= isize::MAX
            },
            Event::Matched(_) => future.state is MatchHello,
            Event::Tls(_) => future.state is TerminateTls,
            Event::Ready(_) => future.state is ReadyAccept,
            Event::Accepted(_) => future.state is Accept,
        },
    ensures
        call_requires(AcceptFuture::<A, K, C, S, H, F>::poll::<R, X>, (future, event)),
{
}

/// The same of a detection. What it peeked at is dropped before it reads, and it reads more
/// only after it has read something.
pub proof fn law_detected_outcomes_are_accepted<K, C, S, X>(
    state: Detecting<K, C>,
    event: detect::Event<X>,
)
    requires
        match event {
            detect::Event::Peeked(peeked) => {
                &&& state matches Detecting::Peek(probe)
                &&& buf::buffered(probe.buf).len() == 0
                &&& peeked matches Ok(bytes) ==> 4 * bytes@.len() <= isize::MAX
            },
            detect::Event::Read(read) => match state {
                Detecting::FirstRead(probe) => buf::buffered(probe.buf).len() == 0 && (read
                    matches Ok(bytes) ==> 4 * bytes@.len() <= isize::MAX),
                Detecting::Read(probe) => buf::buffered(probe.buf).len() > 0 && (read
                    matches Ok(bytes) ==> 4 * (buf::buffered(probe.buf).len() + bytes@.len())
                    <= isize::MAX),
                _ => false,
            },
            detect::Event::Matched(_) => match state {
                Detecting::MatchPeeked(_) => true,
                Detecting::MatchRead(probe, _) => buf::buffered(probe.buf).len() > 0,
                _ => false,
            },
        },
    ensures
        call_requires(Detecting::<K, C>::follow::<S, X>, (state, event)),
{
}

/// Accepting starts with looking at the connection, or with the reply that is waited for. A
/// clone of what is known conditionally is known on the same condition.
pub proof fn law_accepting_starts<A, K, C, S, H, F, T: Clone>(
    try_tls: TryTls<A, K, C>,
    looking: AcceptFuture<A, K, C, S, H, F>,
    reply: F,
    waiting: AcceptFuture<A, K, C, S, H, F>,
    known: Conditional<T>,
    copy: Conditional<T>,
)
    requires
        call_ensures(AcceptFuture::<A, K, C, S, H, F>::try_tls, (try_tls,), looking),
        call_ensures(AcceptFuture::<A, K, C, S, H, F>::accept, (reply,), waiting),
        call_ensures(Conditional::<T>::clone, (&known,), copy),
    ensures
        looking.state == AcceptState::<A, K, C, S, H, F>::TryTls(try_tls),
        waiting.state == AcceptState::<A, K, C, S, H, F>::Accept(reply),
        known matches Conditional::Absent(reason) ==> copy == Conditional::<T>::Absent(reason),
        known matches Conditional::Present(value) ==> (copy matches Conditional::Present(same)
            && cloned(value, same)),
{
}

} // verus!
