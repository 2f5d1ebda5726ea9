use linkerd_middleware::fallback::{
    Either, ErrorKind, Event, Fallback, FallbackLayer, MakeFuture, Predicate, Step,
};
use linkerd_middleware::net::{v4, Addrs};
use linkerd_middleware::poll::Poll;
use linkerd_middleware::proxy::forward::Forward;
use linkerd_middleware::proxy::instrumented::Instrumented;
use linkerd_middleware::proxy::server::{
    Detection, Drain, H2Settings, HttpVersion, Plan, Protocol, ProtocolDetect, Server,
};
use linkerd_middleware::proxy::skip_detect::{Accept, SkipDetect, SkipTarget};
use linkerd_middleware::stack::boxed::BoxLayer;
use linkerd_middleware::stack::chain::Chain;
use linkerd_middleware::stack::layer_response::LayerResponseLayer;
use std::sync::Arc;

fn addrs(port: u16) -> Addrs {
    Addrs {
        target: v4(10, 0, 0, 1, port),
        peer: v4(10, 0, 0, 2, 5555),
    }
}

#[test]
fn protocol_is_not_detected_on_skipped_ports() {
    let detect = ProtocolDetect::new(Arc::new(vec![25, 3306].into_iter().collect()));
    match detect.detect(&addrs(25), "target", "io") {
        Detection::Done(protocol, "io") => {
            assert_eq!(protocol.http, None);
            assert_eq!(protocol.target, "target");
        }
        other => panic!("unexpected {:?}", other),
    }
    assert!(matches!(
        detect.detect(&addrs(80), "target", "io"),
        Detection::Peek("target", "io", 8192)
    ));
    match ProtocolDetect::peeked::<_, _, u8>("target", Ok(("peeked", Some(HttpVersion::H2)))) {
        Ok((protocol, "peeked")) => assert_eq!(protocol.http, Some(HttpVersion::H2)),
        other => panic!("unexpected {:?}", other),
    }
    assert!(matches!(
        ProtocolDetect::peeked::<_, &'static str, u8>("target", Err(4)),
        Err(4)
    ));
}

fn server() -> Server<u8, u8, u8, u8> {
    let h2 = H2Settings {
        initial_stream_window_size: Some(1),
        initial_connection_window_size: None,
    };
    Server::new(1, 2, 3, h2, 4)
}

fn plan(http: Option<HttpVersion>) -> Plan<&'static str, &'static str> {
    let detected: Result<_, u8> = Ok((
        Protocol {
            http,
            target: "target",
        },
        "io",
    ));
    server().call(detected).expect("must be served")
}

#[test]
fn connections_are_served_by_protocol() {
    assert!(server().http.adaptive_window);
    assert_eq!(server().http.h2.initial_stream_window_size, Some(1));
    assert!(matches!(
        plan(Some(HttpVersion::Http1)),
        Plan::Http {
            target: "target",
            io: "io",
            version: HttpVersion::Http1,
            upgrades: true,
            drain: Drain::GracefulShutdown,
        }
    ));
    assert!(matches!(
        plan(Some(HttpVersion::H2)),
        Plan::Http {
            version: HttpVersion::H2,
            upgrades: false,
            drain: Drain::GracefulShutdown,
            ..
        }
    ));
    assert!(matches!(
        plan(None),
        Plan::Forward {
            target: "target",
            io: "io",
            drain: Drain::ReleaseAfter,
        }
    ));
    assert!(matches!(
        server().call::<u8, u8, u8>(Err(9)),
        Err(9)
    ));
}

struct Odd;

impl SkipTarget<u32> for Odd {
    fn skip_target(&self, target: &u32) -> bool {
        target % 2 == 1
    }
}

#[test]
fn detection_is_skipped_for_some_targets() {
    let skip = SkipDetect::new(Odd, "detect", "tcp");
    assert!(matches!(skip.call(&1), Accept::Tcp("tcp")));
    assert!(matches!(skip.call(&2), Accept::Detect("detect")));
    assert!(matches!(skip.choose_accept(true), Accept::Tcp("tcp")));
    assert!(matches!(
        Accept::<u8, u8>::accepted::<u8>(Accept::Detect(Ok(1))),
        Ok(Accept::Detect(1))
    ));
    assert!(matches!(
        Accept::<u8, u8>::accepted::<u8>(Accept::Tcp(Err(2))),
        Err(2)
    ));
}

type TestStep<P> = Step<&'static str, &'static str, P, u8, u8, &'static str>;
type Always = fn(&&'static str) -> bool;

fn kind(is: bool, source_is: Option<bool>) -> ErrorKind {
    ErrorKind { is, source_is }
}

fn fails<P: Fn(&&'static str) -> bool>(
    future: MakeFuture<&'static str, &'static str, P>,
    error: &'static str,
    kind: ErrorKind,
) -> bool {
    let step: TestStep<P> = future.poll(Event::A(Poll::Ready(Err((error, kind)))));
    match step {
        Step::Next(MakeFuture::B("b")) => false,
        Step::Done(Err(returned)) => {
            assert_eq!(returned, error);
            true
        }
        _ => panic!("unexpected step"),
    }
}

#[test]
fn falls_back_as_the_predicate_says() {
    let layer: FallbackLayer<&'static str, Always> = FallbackLayer::new("fallback");
    let fallback: Fallback<&'static str, &'static str, Always> = layer.layer("inner");
    assert_eq!(fallback.fallback, "fallback");
    assert!(!fails(
        fallback.call("a", "b"),
        "error",
        kind(false, None)
    ));

    let layer = FallbackLayer::<&'static str, Always>::new("fallback")
        .with_predicate(|error: &&'static str| *error == "soft");
    let fallback = layer.layer("inner");
    assert!(!fails(fallback.call("a", "b"), "soft", kind(false, None)));
    assert!(fails(fallback.call("a", "b"), "hard", kind(true, None)));

    let fallback = FallbackLayer::<&'static str, Always>::new("fallback")
        .on_error()
        .layer("inner");
    assert!(!fails(fallback.call("a", "b"), "e", kind(true, None)));
    assert!(!fails(fallback.call("a", "b"), "e", kind(false, Some(true))));
    assert!(fails(fallback.call("a", "b"), "e", kind(false, Some(false))));
    assert!(fails(fallback.call("a", "b"), "e", kind(false, None)));
}

#[test]
fn outcomes_of_both_services() {
    let first = || -> MakeFuture<&'static str, &'static str, Always> {
        MakeFuture::A {
            a: "a",
            b: Some("b"),
            predicate: Predicate::Always,
        }
    };
    let step: TestStep<Always> = first().poll(Event::A(Poll::Ready(Ok(1))));
    assert!(matches!(step, Step::Done(Ok(Either::A(1)))));
    let step: TestStep<Always> = first().poll(Event::A(Poll::Pending));
    assert!(matches!(step, Step::Pending(MakeFuture::A { .. })));
    let second = || -> MakeFuture<&'static str, &'static str, Always> { MakeFuture::B("b") };
    let step: TestStep<Always> = second().poll(Event::B(Poll::Ready(Ok(2))));
    assert!(matches!(step, Step::Done(Ok(Either::B(2)))));
    let step: TestStep<Always> = second().poll(Event::B(Poll::Ready(Err("error"))));
    assert!(matches!(step, Step::Done(Err("error"))));
    let step: TestStep<Always> = second().poll(Event::B(Poll::Pending));
    assert!(matches!(step, Step::Pending(MakeFuture::B("b"))));
}

#[test]
fn small_stacks() {
    assert_eq!(Forward::new("connect").connect, "connect");
    assert_eq!(
        Forward::new("connect").call("target", "io"),
        ("connect", "target", "io")
    );
    let span = tracing::Span::none();
    let mut instrumented = Instrumented::new(vec![1, 2], span);
    assert_eq!(instrumented.io, vec![1, 2]);
    assert_eq!(instrumented.poll(|io| io.pop()), Some(2));
    assert_eq!(instrumented.io, vec![1]);
    let _boxed: BoxLayer<u8, u8, u8> = BoxLayer::new();
    let chain = Chain::new("a", "b");
    assert_eq!(chain.call::<u8, u8>(Ok(1)), Ok(("b", 1)));
    assert_eq!(chain.call::<u8, u8>(Err(2)), Err(2));
    let layered = LayerResponseLayer::new("layer").layer("inner");
    assert_eq!((layered.inner, layered.layer), ("inner", "layer"));
    assert_eq!(layered.new_service("made"), ("layer", "made"));
    let called = layered.call("future");
    assert_eq!((called.inner, called.layer), ("future", "layer"));
    assert_eq!(called.poll::<u8, u8>(Poll::Pending), Poll::Pending);
    assert_eq!(
        called.poll::<u8, u8>(Poll::Ready(Err(2))),
        Poll::Ready(Err(2))
    );
    assert_eq!(
        called.poll::<u8, u8>(Poll::Ready(Ok(1))),
        Poll::Ready(Ok(("layer", 1)))
    );
}
