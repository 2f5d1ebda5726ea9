//! What serving a connection does with it.

use super::forward::Forward;
use super::instrumented::Instrumented;
use super::server::{Detection, H2Settings, HttpVersion, Plan, Protocol, ProtocolDetect, Server};
use super::skip_detect::{Accept, SkipDetect, SkipTarget};
use crate::net::Addrs;
use crate::tls::ports::{self, Ports};
use std::sync::Arc;
use vstd::prelude::*;

verus! {

/// A connection is peeked at unless its port is skipped. On a port that is skipped it is not
/// HTTP. Nothing of the connection is lost.
pub proof fn law_protocols_are_detected<T, I>(
    by: ProtocolDetect,
    addrs: Addrs,
    target: T,
    io: I,
    detection: Detection<T, I>,
)
    requires
        call_ensures(ProtocolDetect::detect::<T, I>, (&by, &addrs, target, io), detection),
    ensures
        detection is Peek <==> !ports::ports_in(*by.skip_ports).contains(addrs.target.2),
        detection matches Detection::Peek(to, given, capacity) ==> to == target && given == io
            && capacity == by.capacity,
        detection matches Detection::Done(protocol, given) ==> protocol.http is None
            && protocol.target == target && given == io,
{
}

/// What was peeked at says what a connection carries, and a failure to peek is the outcome.
pub proof fn law_peeks_are_believed<T, I, X>(
    target: T,
    peeked: Result<(I, Option<HttpVersion>), X>,
    detected: Result<(Protocol<T>, I), X>,
)
    requires
        call_ensures(ProtocolDetect::peeked::<T, I, X>, (target, peeked), detected),
    ensures
        detected is Ok <==> peeked is Ok,
        detected matches Ok((protocol, io)) ==> protocol.target == target && peeked == Ok::<
            (I, Option<HttpVersion>),
            X,
        >((io, protocol.http)),
        detected matches Err(error) ==> peeked == Err::<(I, Option<HttpVersion>), X>(error),
{
}

/// A connection that carries HTTP is served as that version, can be upgraded if that is the
/// first one, and is told to finish. Any other is forwarded, and waited for.
pub proof fn law_connections_are_served<D, F, H, W, T, I, X>(
    by: Server<D, F, H, W>,
    detected: Result<(Protocol<T>, I), X>,
    plan: Result<Plan<T, I>, X>,
)
    requires
        call_ensures(Server::<D, F, H, W>::call::<T, I, X>, (&by, detected), plan),
    ensures
        plan matches Err(error) ==> detected == Err::<(Protocol<T>, I), X>(error),
        detected is Err ==> plan is Err,
        plan matches Ok(Plan::Http { target, io, version, upgrades, drain }) ==> {
            &&& detected matches Ok((protocol, given))
            &&& protocol.http == Some(version)
            &&& protocol.target == target
            &&& given == io
            &&& upgrades <==> version is Http1
            &&& drain is GracefulShutdown
        },
        plan matches Ok(Plan::Forward { target, io, drain }) ==> {
            &&& detected matches Ok((protocol, given))
            &&& protocol.http is None
            &&& protocol.target == target
            &&& given == io
            &&& drain is ReleaseAfter
        },
{
}

/// A detection peeks at eight kibibytes and skips the given ports. A server keeps what it is
/// made of.
pub proof fn law_server_settings<D, F, H, W>(
    skip_ports: Arc<Ports>,
    by: ProtocolDetect,
    detect: D,
    forward_tcp: F,
    make_http: H,
    h2: H2Settings,
    drain: W,
    server: Server<D, F, H, W>,
)
    requires
        call_ensures(ProtocolDetect::new, (skip_ports,), by),
        call_ensures(
            Server::<D, F, H, W>::new,
            (detect, forward_tcp, make_http, h2, drain),
            server,
        ),
    ensures
        by.skip_ports == skip_ports,
        by.capacity == 8 * 1024,
        server.detect == detect,
        server.forward_tcp == forward_tcp,
        server.make_http == make_http,
        server.drain == drain,
        server.http.h2 == h2,
        server.http.adaptive_window,
{
}

/// A target is accepted without detection exactly if that is said of it.
pub proof fn law_detection_is_skipped<S: SkipTarget<T>, D: Clone, F: Clone, T>(
    by: SkipDetect<S, D, F>,
    target: T,
    accept: Accept<D, F>,
)
    requires
        call_ensures(SkipDetect::<S, D, F>::call::<T>, (&by, &target), accept),
    ensures
        accept matches Accept::Tcp(tcp) ==> {
            &&& call_ensures(S::skip_target, (&by.skip, &target), true)
            &&& cloned(by.tcp, tcp)
        },
        accept matches Accept::Detect(detect) ==> {
            &&& call_ensures(S::skip_target, (&by.skip, &target), false)
            &&& cloned(by.detect, detect)
        },
{
}

/// The choice alone, and what it is made of.
pub proof fn law_choice_of_accept<S, D: Clone, F: Clone>(
    skip: S,
    detect: D,
    tcp: F,
    by: SkipDetect<S, D, F>,
    skips: bool,
    accept: Accept<D, F>,
)
    requires
        call_ensures(SkipDetect::<S, D, F>::new, (skip, detect, tcp), by),
        call_ensures(SkipDetect::<S, D, F>::choose_accept, (&by, skips), accept),
    ensures
        by.skip == skip,
        accept is Tcp <==> skips,
        accept matches Accept::Tcp(copy) ==> cloned(tcp, copy),
        accept matches Accept::Detect(copy) ==> cloned(detect, copy),
{
}

/// What was accepted comes of what accepted it, and a failure of either is the outcome.
pub proof fn law_acceptance_is_kept<A, B, X>(
    result: Accept<Result<A, X>, Result<B, X>>,
    accepted: Result<Accept<A, B>, X>,
)
    requires
        call_ensures(Accept::<A, B>::accepted::<X>, (result,), accepted),
    ensures
        accepted matches Ok(Accept::Detect(a)) ==> result == Accept::<
            Result<A, X>,
            Result<B, X>,
        >::Detect(Ok(a)),
        accepted matches Ok(Accept::Tcp(b)) ==> result == Accept::<
            Result<A, X>,
            Result<B, X>,
        >::Tcp(Ok(b)),
        accepted matches Err(error) ==> result == Accept::<Result<A, X>, Result<B, X>>::Detect(
            Err(error),
        ) || result == Accept::<Result<A, X>, Result<B, X>>::Tcp(Err(error)),
{
}

/// A connection is forwarded as it is to where it is meant for, by a connector of its own.
pub proof fn law_connections_are_forwarded<C: Clone, T, I>(
    connect: C,
    by: Forward<C>,
    target: T,
    io: I,
    plan: (C, T, I),
)
    requires
        call_ensures(Forward::<C>::new, (connect,), by),
        call_ensures(Forward::<C>::call::<T, I>, (&by, target, io), plan),
    ensures
        cloned(connect, plan.0),
        plan.1 == target,
        plan.2 == io,
{
}

/// A traced connection is the connection, in its span.
pub proof fn law_tracing_keeps_the_connection<T>(
    io: T,
    span: tracing::Span,
    traced: Instrumented<T>,
)
    requires
        call_ensures(Instrumented::<T>::new, (io, span), traced),
    ensures
        traced.io == io,
        traced.span == span,
{
}

} // verus!
