use bytes::BytesMut;
use indexmap::IndexSet;
use linkerd_middleware::net::{v4, Addrs};
use linkerd_middleware::poll::Poll;
use linkerd_middleware::tls::accept::{
    AcceptFuture, AcceptMeta, AcceptState, AcceptTls, BoxedIo, Called, Event, HasConfig, Match,
    Step, TryTls,
};
use linkerd_middleware::tls::detect::{self, Detect, Detecting};
use linkerd_middleware::tls::identity::{
    client_identity, first_name, Conditional, DnsName, ReasonForNoPeerName,
};
use std::sync::Arc;

#[derive(Clone)]
struct Identity;

impl HasConfig for Identity {
    type Config = u8;

    fn tls_server_name(&self) -> String {
        "server".to_owned()
    }

    fn tls_server_config(&self) -> Arc<u8> {
        Arc::new(9)
    }
}

fn addrs(port: u16) -> Addrs {
    Addrs {
        target: v4(10, 0, 0, 1, port),
        peer: v4(10, 0, 0, 2, 5555),
    }
}

fn ports(list: Vec<u16>) -> Arc<IndexSet<u16>> {
    Arc::new(list.into_iter().collect())
}

type TestCalled = Called<&'static str, &'static str, u8, &'static str>;
type Future = AcceptFuture<&'static str, &'static str, u8, &'static str, &'static str, &'static str>;
type TestStep =
    Step<&'static str, &'static str, u8, &'static str, &'static str, &'static str, u32, String>;
type TestState =
    AcceptState<&'static str, &'static str, u8, &'static str, &'static str, &'static str>;

fn reason(peer: &Conditional<String>) -> ReasonForNoPeerName {
    match peer {
        Conditional::Absent(reason) => *reason,
        Conditional::Present(name) => panic!("unexpected name {}", name),
    }
}

fn try_tls() -> TryTls<&'static str, &'static str, u8> {
    let accept = AcceptTls::new(Conditional::Present(Identity), "accept");
    let called: TestCalled = accept.call(addrs(80), "socket");
    match called {
        Called::TryTls(try_tls) => try_tls,
        Called::Accept(_) => panic!("must look for TLS"),
    }
}

#[test]
fn disabled_tls_is_not_looked_for() {
    let accept: AcceptTls<&'static str, Identity> = AcceptTls::new(
        Conditional::Absent(ReasonForNoPeerName::LocalIdentityDisabled),
        "accept",
    );
    let called: TestCalled = accept.call(addrs(80), "socket");
    match called {
        Called::Accept((meta, BoxedIo::Plain("socket"))) => {
            assert_eq!(
                reason(&meta.peer_identity),
                ReasonForNoPeerName::LocalIdentityDisabled
            );
            assert_eq!(meta.addrs.target, addrs(80).target);
        }
        _ => panic!("must be accepted"),
    }
}

#[test]
fn skipped_ports_are_not_looked_at() {
    let layer: linkerd_middleware::tls::accept::AcceptTlsLayer<Identity> =
        AcceptTls::<&'static str, Identity>::layer(Conditional::Present(Identity), ports(vec![25]));
    let accept = layer.layer("accept");
    let called: TestCalled = accept.call(addrs(25), "socket");
    match called {
        Called::Accept((meta, BoxedIo::Plain("socket"))) => {
            assert_eq!(reason(&meta.peer_identity), ReasonForNoPeerName::NotHttp)
        }
        _ => panic!("must be accepted"),
    }
    let called: TestCalled = accept.call(addrs(80), "socket");
    match called {
        Called::TryTls(try_tls) => {
            assert_eq!(try_tls.server_name, "server");
            assert_eq!(*try_tls.config, 9);
            assert_eq!(try_tls.meta.accept, "accept");
            assert!(try_tls.peek_buf.is_empty());
            assert!(try_tls.peek_buf.capacity() >= 8192);
        }
        Called::Accept(_) => panic!("must look for TLS"),
    }
}

fn read(state: TestState, bytes: &[u8]) -> TestState {
    let step: TestStep =
        AcceptFuture { state }.poll(Event::Read(Poll::Ready(Ok(bytes.to_vec()))));
    match step {
        Step::Next(state) => state,
        _ => panic!("must go on"),
    }
}

fn matched(state: TestState, matched: Match) -> TestStep {
    AcceptFuture { state }.poll(Event::Matched(matched))
}

#[test]
fn plaintext_is_passed_through_with_all_bytes() {
    let state = read(Future::try_tls(try_tls()).state, b"GE");
    let state = match matched(state, Match::Incomplete) {
        Step::Next(state) => state,
        _ => panic!("must go on"),
    };
    let state = read(state, b"T /");
    match matched(state, Match::NotMatched) {
        Step::Next(AcceptState::ReadyAccept("accept", (meta, BoxedIo::Prefixed(io)))) => {
            assert_eq!(
                reason(&meta.peer_identity),
                ReasonForNoPeerName::NoTlsFromRemote
            );
            assert_eq!(&io.prefix[..], b"GET /");
            assert_eq!(io.io, "socket");
        }
        _ => panic!("must be passed through"),
    }
}

#[test]
fn closed_socket_is_plaintext() {
    let state = read(Future::try_tls(try_tls()).state, b"");
    match state {
        AcceptState::ReadyAccept("accept", (meta, BoxedIo::Prefixed(io))) => {
            assert_eq!(
                reason(&meta.peer_identity),
                ReasonForNoPeerName::NoTlsFromRemote
            );
            assert!(io.prefix.is_empty());
        }
        _ => panic!("must be passed through"),
    }
}

#[test]
fn tls_is_terminated_and_handed_on() {
    let state = read(Future::try_tls(try_tls()).state, b"\x16hello");
    let meta = match matched(state, Match::Matched) {
        Step::StartTls(config, io, meta) => {
            assert_eq!(*config, 9);
            assert_eq!(&io.prefix[..], b"\x16hello");
            meta
        }
        _ => panic!("must start TLS"),
    };
    let state: TestState = AcceptState::TerminateTls("handshake", meta);
    let step: TestStep = AcceptFuture { state }.poll(Event::Tls(Poll::Pending));
    let state = match step {
        Step::Pending(state) => state,
        _ => panic!("must wait"),
    };
    let step: TestStep = AcceptFuture { state }.poll(Event::Tls(Poll::Ready(Ok((
        "stream",
        Some("peer".to_owned()),
    )))));
    let state = match step {
        Step::Next(state) => state,
        _ => panic!("must go on"),
    };
    let step: TestStep = AcceptFuture { state }.poll(Event::Ready(Poll::Ready(Ok(()))));
    match step {
        Step::CallAccept("accept", (meta, BoxedIo::Tls("stream"))) => {
            match meta.peer_identity {
                Conditional::Present(name) => assert_eq!(name, "peer"),
                Conditional::Absent(_) => panic!("must have a name"),
            }
        }
        _ => panic!("must be handed on"),
    }
    let step: TestStep = Future::accept("reply").poll(Event::Accepted(Poll::Ready(Ok(3))));
    assert!(matches!(step, Step::Done(Ok(3))));
}

#[test]
fn accept_errors_are_returned() {
    let step: TestStep =
        Future::try_tls(try_tls()).poll(Event::Read(Poll::Ready(Err("reset".to_owned()))));
    assert!(matches!(step, Step::Done(Err(_))));
    let meta = AcceptMeta {
        accept: "accept",
        addrs: addrs(80),
    };
    let state: TestState = AcceptState::TerminateTls("handshake", meta);
    let step: TestStep =
        AcceptFuture { state }.poll(Event::Tls(Poll::Ready(Err("bad".to_owned()))));
    assert!(matches!(step, Step::Done(Err(_))));
}

#[test]
fn tls_without_identity_has_a_reason() {
    let meta = AcceptMeta {
        accept: "accept",
        addrs: addrs(80),
    };
    let state: TestState = AcceptState::TerminateTls("handshake", meta);
    let step: TestStep =
        AcceptFuture { state }.poll(Event::Tls(Poll::Ready(Ok(("stream", None)))));
    match step {
        Step::Next(AcceptState::ReadyAccept(_, (meta, BoxedIo::Tls("stream")))) => assert_eq!(
            reason(&meta.peer_identity),
            ReasonForNoPeerName::NoPeerIdFromRemote
        ),
        _ => panic!("must go on"),
    }
}

#[test]
fn closed_hello_is_not_matched() {
    let mut open = try_tls();
    assert_eq!(open.poll_match_client_hello(vec![1, 2]), None);
    assert_eq!(&open.peek_buf[..], &[1, 2]);
    assert_eq!(
        open.poll_match_client_hello(Vec::new()),
        Some(Match::NotMatched)
    );
    assert_eq!(&open.peek_buf[..], &[1, 2]);
}

type DetectStep = detect::Step<&'static str, u8, &'static str, &'static str>;

fn start(local: Option<Identity>, skip: Vec<u16>) -> DetectStep {
    Detect {
        local_identity: local,
        skip_ports: ports(skip),
        capacity: 1024,
    }
    .detect(addrs(80), "tcp")
}

fn next(step: DetectStep) -> Detecting<&'static str, u8> {
    match step {
        detect::Step::Next(state) => state,
        _ => panic!("must go on"),
    }
}

#[test]
fn detection_needs_an_identity_and_a_port() {
    match start(None, vec![]) {
        detect::Step::Done(Ok((meta, BoxedIo::Plain("tcp")))) => assert_eq!(
            reason(&meta.peer_identity),
            ReasonForNoPeerName::LocalIdentityDisabled
        ),
        _ => panic!("must be done"),
    }
    match start(Some(Identity), vec![80]) {
        detect::Step::Done(Ok((meta, BoxedIo::Plain("tcp")))) => {
            assert_eq!(reason(&meta.peer_identity), ReasonForNoPeerName::PortSkipped)
        }
        _ => panic!("must be done"),
    }
}

#[test]
fn detection_by_peeking_leaves_the_socket_alone() {
    let state = next(start(Some(Identity), vec![]));
    let state = next(state.follow(detect::Event::Peeked(Ok(b"hello".to_vec()))));
    match state {
        Detecting::MatchPeeked(ref probe) => {
            assert_eq!(&probe.buf[..], b"hello");
            assert_eq!(probe.server_name, "server");
        }
        _ => panic!("must match"),
    }
    let step: DetectStep = state.follow(detect::Event::Matched(Match::Matched));
    match step {
        detect::Step::StartTls(config, to, BoxedIo::Plain("tcp")) => {
            assert_eq!(*config, 9);
            assert_eq!(to.target, addrs(80).target);
        }
        _ => panic!("must start TLS"),
    }
    let (meta, io) =
        Detect::<Identity>::tls_accepted::<&'static str, _>(addrs(80), "tls", Some("peer".to_owned()));
    assert!(matches!(meta.peer_identity, Conditional::Present(_)));
    assert!(matches!(io, BoxedIo::Tls("tls")));
}

#[test]
fn detection_by_reading_keeps_all_bytes() {
    let state = next(start(Some(Identity), vec![]));
    let state = next(state.follow(detect::Event::Peeked(Ok(b"h".to_vec()))));
    let state = next(state.follow(detect::Event::Matched(Match::Incomplete)));
    let state = next(state.follow(detect::Event::Read(Ok(b"he".to_vec()))));
    let state = next(state.follow(detect::Event::Matched(Match::Incomplete)));
    let state = next(state.follow(detect::Event::Read(Ok(b"ll".to_vec()))));
    let state = next(state.follow(detect::Event::Matched(Match::Incomplete)));
    let state = next(state.follow(detect::Event::Read(Ok(b"o".to_vec()))));
    let step: DetectStep = state.follow(detect::Event::Matched(Match::NotMatched));
    match step {
        detect::Step::Done(Ok((meta, BoxedIo::Prefixed(io)))) => {
            assert_eq!(
                reason(&meta.peer_identity),
                ReasonForNoPeerName::NoTlsFromRemote
            );
            assert_eq!(&io.prefix[..], b"hello");
        }
        _ => panic!("must be done"),
    }
}

#[test]
fn detection_matches_what_the_first_read_brings() {
    let state = next(start(Some(Identity), vec![]));
    let state = next(state.follow(detect::Event::Peeked(Ok(b"h".to_vec()))));
    let state = next(state.follow(detect::Event::Matched(Match::Incomplete)));
    let state = next(state.follow(detect::Event::Read(Ok(b"hello".to_vec()))));
    match state {
        Detecting::MatchRead(ref probe, true) => assert_eq!(probe.server_name, "server"),
        _ => panic!("must match"),
    }
    let step: DetectStep = state.follow(detect::Event::Matched(Match::Matched));
    match step {
        detect::Step::StartTls(config, _, BoxedIo::Prefixed(io)) => {
            assert_eq!(*config, 9);
            assert_eq!(&io.prefix[..], b"hello");
            assert_eq!(io.io, "tcp");
        }
        _ => panic!("must start TLS"),
    }
}

#[test]
fn detection_ends_with_a_socket_that_closes_early() {
    let state = next(start(Some(Identity), vec![]));
    let state = next(state.follow(detect::Event::Peeked(Ok(b"h".to_vec()))));
    let state = next(state.follow(detect::Event::Matched(Match::Incomplete)));
    let state = next(state.follow(detect::Event::Read(Ok(b"he".to_vec()))));
    let state = next(state.follow(detect::Event::Matched(Match::Incomplete)));
    let state = next(state.follow(detect::Event::Read(Ok(Vec::new()))));
    assert!(matches!(state, Detecting::MatchRead(_, false)));
    let step: DetectStep = state.follow(detect::Event::Matched(Match::Incomplete));
    match step {
        detect::Step::Done(Ok((_, BoxedIo::Prefixed(io)))) => assert_eq!(&io.prefix[..], b"he"),
        _ => panic!("must be done"),
    }
}

#[test]
fn detection_ends_with_a_closed_socket() {
    let state = next(start(Some(Identity), vec![]));
    let state = next(state.follow(detect::Event::Peeked(Ok(Vec::new()))));
    let state = next(state.follow(detect::Event::Matched(Match::Incomplete)));
    let step: DetectStep = state.follow(detect::Event::Read(Ok(Vec::new())));
    match step {
        detect::Step::Done(Ok((_, BoxedIo::Prefixed(io)))) => assert!(io.prefix.is_empty()),
        _ => panic!("must be done"),
    }
    let state = next(start(Some(Identity), vec![]));
    let step: DetectStep = state.follow(detect::Event::Peeked(Err("reset")));
    assert!(matches!(step, detect::Step::Done(Err("reset"))));
}

#[test]
fn detection_clears_what_was_peeked() {
    let mut buf = BytesMut::with_capacity(8);
    buf.extend_from_slice(b"peeked");
    let state = Detecting::MatchPeeked(detect::Probe {
        addrs: addrs(80),
        tcp: "tcp",
        buf,
        server_name: "server".to_owned(),
        config: Arc::new(9),
    });
    let step: DetectStep = state.follow(detect::Event::Matched(Match::Incomplete));
    match next(step) {
        Detecting::FirstRead(probe) => assert!(probe.buf.is_empty()),
        _ => panic!("must read"),
    }
}

#[test]
fn peer_names_come_of_the_first_certificate() {
    let names = Some(vec![
        DnsName::Name("a.example".to_owned()),
        DnsName::Name("b.example".to_owned()),
    ]);
    assert_eq!(first_name(true, &names), Some("a.example".to_owned()));
    assert_eq!(first_name(false, &names), None);
    assert_eq!(first_name(true, &Some(vec![])), None);
    assert_eq!(first_name(true, &None), None);
    let wildcard = Some(vec![DnsName::Wildcard("*.example".to_owned())]);
    assert_eq!(first_name(true, &wildcard), None);
    // Bytes that are not a certificate identify nobody.
    assert_eq!(client_identity(&None, &names), None);
    assert_eq!(client_identity(&Some(vec![]), &names), None);
    assert_eq!(client_identity(&Some(vec![vec![1, 2, 3]]), &names), None);
}

fn tlv(tag: u8, content: &[u8]) -> Vec<u8> {
    let mut der = vec![tag, content.len() as u8];
    der.extend_from_slice(content);
    der
}

/// A certificate with as little in it as can be.
fn certificate() -> Vec<u8> {
    let algorithm = tlv(0x30, &tlv(0x06, &[0x2a, 0x03]));
    let extension = tlv(0x30, &[tlv(0x06, &[0x2a, 0x04]), tlv(0x04, &[])].concat());
    let tbs = tlv(
        0x30,
        &[
            tlv(0xa0, &tlv(0x02, &[2])),
            tlv(0x02, &[1]),
            algorithm.clone(),
            tlv(0x30, &[]),
            tlv(0x30, &[]),
            tlv(0x30, &[]),
            tlv(0x30, &[]),
            tlv(0xa3, &tlv(0x30, &extension)),
        ]
        .concat(),
    );
    tlv(0x30, &[tbs, algorithm, tlv(0x03, &[0])].concat())
}

#[test]
fn peer_with_a_certificate_is_identified() {
    let names = Some(vec![DnsName::Name("a.example".to_owned())]);
    let certs = Some(vec![certificate()]);
    assert_eq!(
        client_identity(&certs, &names),
        Some("a.example".to_owned())
    );
    assert_eq!(client_identity(&certs, &None), None);
    // A certificate that is cut short is none.
    let mut short = certificate();
    short.pop();
    assert_eq!(client_identity(&Some(vec![short]), &names), None);
}
