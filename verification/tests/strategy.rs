use linkerd_middleware::destination::api::{Ip, ProtocolHint, TcpAddress, TlsIdentity, WeightedAddr};
use linkerd_middleware::net::{v4, SocketAddr};
use linkerd_middleware::outbound::profiles::{
    Called, Event as OutboundEvent, FromProfiles, Router, Step,
};
use linkerd_middleware::outbound::router;
use linkerd_middleware::profiles::route::{NameAddr, Routes, WeightedAddr as WeightedName};
use linkerd_middleware::strategy::api;
use linkerd_middleware::strategy::client::{Client, Event, Failure, Item, Phase, Watch};
use linkerd_middleware::strategy::discover::{self, Discover};
use linkerd_middleware::strategy::logical::WeightOverflow;
use linkerd_middleware::strategy::types::{
    Concrete, Detect, Logical, ProxyHttpTransport, Split, Strategy,
};
use linkerd_middleware::time::{Duration, ProtoDuration};

fn addr() -> SocketAddr {
    v4(10, 0, 0, 1, 80)
}

fn seconds(seconds: i64) -> Option<ProtoDuration> {
    Some(ProtoDuration { seconds, nanos: 0 })
}

fn forward(ip: u32) -> api::Logical {
    api::Logical {
        kind: Some(api::LogicalKind::Concrete(api::Concrete {
            kind: Some(api::ConcreteKind::Forward {
                addr: Some(WeightedAddr {
                    addr: Some(TcpAddress {
                        ip: Some(Ip::Ipv4(ip)),
                        port: 8080,
                    }),
                    weight: 1,
                    metric_labels: vec![
                        ("b".to_owned(), "1".to_owned()),
                        ("a".to_owned(), "2".to_owned()),
                    ],
                    tls_identity: Some(TlsIdentity {
                        dns_like_identity: Some("id".to_owned()),
                    }),
                    protocol_hint: Some(ProtocolHint { h2: true }),
                    authority_override: Some("over.example".to_owned()),
                    connect_timeout: seconds(2),
                }),
                identity: Some("parsed".to_owned()),
            }),
        })),
    }
}

fn balance(authority: &str) -> api::Logical {
    api::Logical {
        kind: Some(api::LogicalKind::Concrete(api::Concrete {
            kind: Some(api::ConcreteKind::Balance {
                authority: authority.to_owned(),
                peak_ewma_decay: seconds(10),
                peak_ewma_default_rtt: seconds(-1),
            }),
        })),
    }
}

fn split(targets: Vec<(Option<api::Logical>, u32)>) -> api::Logical {
    api::Logical {
        kind: Some(api::LogicalKind::Split(
            targets
                .into_iter()
                .map(|(target, weight)| api::Weighted { target, weight })
                .collect(),
        )),
    }
}

fn response(logical: Option<api::Logical>) -> api::StrategyResponse {
    api::StrategyResponse {
        detect: None,
        logical,
    }
}

#[test]
fn forwards_to_an_endpoint() {
    match Logical::from_api(&forward(0x0a00_0002)) {
        Some(Logical::Concrete(Concrete::Forward(addr, endpoint))) => {
            assert_eq!(addr, v4(10, 0, 0, 2, 8080));
            assert_eq!(endpoint.identity, Some("parsed".to_owned()));
            assert_eq!(endpoint.proxy_http_transport, Some(ProxyHttpTransport::H2));
            assert_eq!(endpoint.authority_override, Some("over.example".to_owned()));
            assert_eq!(endpoint.connect_timeout, Duration::from_secs(2));
            let labels: Vec<&str> = endpoint.metric_labels.keys().map(|k| k.as_str()).collect();
            assert_eq!(labels, vec!["b", "a"]);
        }
        other => panic!("unexpected {:?}", other),
    }
}

#[test]
fn balances_over_an_authority() {
    match Logical::from_api(&balance("books:80")) {
        Some(Logical::Concrete(Concrete::Balance(authority, balancer))) => {
            assert_eq!(authority, "books:80");
            assert_eq!(balancer.peak_ewma_decay, Duration::from_secs(10));
            assert_eq!(balancer.peak_ewma_default_rtt, Duration::from_secs(0));
        }
        other => panic!("unexpected {:?}", other),
    }
    assert!(Logical::from_api(&balance("not an authority")).is_none());
    assert!(Logical::from_api(&api::Logical { kind: None }).is_none());
}

#[test]
fn splits_keep_weighted_targets() {
    let logical = split(vec![
        (Some(forward(1)), 3),
        (Some(forward(2)), 0),
        (None, 5),
        (Some(balance("/")), u32::MAX),
        (Some(split(vec![(Some(forward(3)), 1)])), 4),
        (Some(split(vec![])), 9),
    ]);
    match Logical::from_api(&logical) {
        Some(Logical::Split(split)) => {
            assert_eq!(split.weights, vec![3, 4]);
            assert_eq!(split.targets.len(), 2);
            assert!(matches!(&split.targets[1], Logical::Split(inner) if inner.weights == vec![1]));
        }
        other => panic!("unexpected {:?}", other),
    }
    assert!(Logical::from_api(&split(vec![(Some(forward(1)), 0)])).is_none());
}

#[test]
fn weights_that_overflow_are_refused() {
    let logical = || split(vec![(Some(forward(1)), u32::MAX), (Some(forward(2)), 1)]);
    assert!(matches!(
        Logical::checked_from_api(&logical()),
        Err(WeightOverflow)
    ));
    assert!(matches!(
        Logical::checked_from_api(&split(vec![(Some(logical()), 1)])),
        Err(WeightOverflow)
    ));
    assert!(matches!(
        Strategy::checked_new(addr(), &response(Some(logical()))),
        Err(WeightOverflow)
    ));
    assert!(matches!(
        Logical::checked_from_api(&split(vec![(Some(forward(1)), u32::MAX)])),
        Ok(Some(Logical::Split(_)))
    ));
}

#[test]
fn strategies_have_defaults() {
    let strategy = Strategy::new(addr(), &response(None));
    assert_eq!(strategy.detect, Detect::Opaque);
    match strategy.logical {
        Logical::Concrete(Concrete::Forward(to, endpoint)) => {
            assert_eq!(to, addr());
            assert_eq!(endpoint.identity, None);
            assert!(endpoint.metric_labels.is_empty());
        }
        other => panic!("unexpected {:?}", other),
    }
    let detect = |strategy: Option<api::DetectStrategy>| {
        let response = api::StrategyResponse {
            detect: Some(api::ProtocolDetection { strategy }),
            logical: Some(balance("books")),
        };
        Strategy::new(addr(), &response).detect
    };
    assert_eq!(detect(None), Detect::Opaque);
    assert_eq!(detect(Some(api::DetectStrategy::Opaque)), Detect::Opaque);
    assert_eq!(
        detect(Some(api::DetectStrategy::Client {
            buffer_capacity: 512,
            timeout: seconds(1)
        })),
        Detect::Client {
            buffer_capacity: 512,
            timeout: Duration::from_secs(1)
        }
    );
}

#[test]
fn watch_reuses_the_backoff_of_a_recovery() {
    let client = Client::new(1, 2, "token".to_owned());
    let request = client.request(addr());
    assert_eq!(request.target, addr());
    assert_eq!(request.context_token, "token");
    let mut watch: Watch<u8, &'static str> = Watch::new();
    let item: Item<u32, &'static str> = watch.follow(Event::Init(Err("refused")));
    assert!(matches!(item, Item::Ask(Failure::Status("refused"))));
    watch.follow::<u32, &'static str>(Event::Recovery(Ok(1)));
    watch.follow::<u32, &'static str>(Event::BackedOff(true));
    let item: Item<u32, &'static str> = watch.follow(Event::Init(Ok((None, "stream"))));
    assert!(matches!(item, Item::Ask(Failure::ServerClosed)));
    watch.follow::<u32, &'static str>(Event::Recovery(Ok(2)));
    assert_eq!(watch.backoff, Some(1));
    watch.follow::<u32, &'static str>(Event::BackedOff(true));
    let item: Item<u32, &'static str> = watch.follow(Event::Init(Ok((Some(7), "stream"))));
    assert!(matches!(item, Item::Publish(7)));
    assert_eq!(watch.backoff, None);
    let item: Item<u32, &'static str> = watch.follow(Event::Response(Ok(Some(8))));
    assert!(matches!(item, Item::Publish(8)));
    let item: Item<u32, &'static str> = watch.follow(Event::Response(Ok(None)));
    assert!(matches!(item, Item::Ask(Failure::ServerClosed)));
    let item: Item<u32, &'static str> = watch.follow(Event::Closed);
    assert!(matches!(item, Item::Stop));
    assert!(matches!(watch.phase, Phase::Stopped));
}

#[test]
fn watch_fails() {
    let mut watch: Watch<u8, &'static str> = Watch::new();
    watch.follow::<u32, &'static str>(Event::Init(Err("refused")));
    let item: Item<u32, &'static str> = watch.follow(Event::Recovery(Err("fatal")));
    assert!(matches!(item, Item::Fail(Failure::Status("fatal"))));
    let mut watch: Watch<u8, &'static str> = Watch::new();
    watch.follow::<u32, &'static str>(Event::Init(Err("refused")));
    watch.follow::<u32, &'static str>(Event::Recovery(Ok(1)));
    let item: Item<u32, &'static str> = watch.follow(Event::BackedOff(false));
    assert!(matches!(item, Item::Fail(Failure::BackoffExhausted)));
}

#[test]
fn watch_publishes_what_responses_say() {
    let mut watch: Watch<u8, &'static str> = Watch::new();
    let too_heavy = || {
        response(Some(split(vec![
            (Some(forward(1)), u32::MAX),
            (Some(forward(2)), 1),
        ])))
    };
    let first = Event::<u8, _, _, &'static str>::Init(Ok((Some(too_heavy()), "stream")));
    assert!(matches!(watch.respond(addr(), first), Err(WeightOverflow)));
    assert!(matches!(watch.phase, Phase::Init));
    let first = Event::<u8, _, _, &'static str>::Init(Ok((
        Some(response(Some(balance("books:80")))),
        "stream",
    )));
    match watch.respond(addr(), first) {
        Ok(Item::Publish(strategy)) => {
            assert_eq!(strategy.addr, addr());
            assert_eq!(strategy.detect, Detect::Opaque);
            assert!(matches!(
                strategy.logical,
                Logical::Concrete(Concrete::Balance(authority, _)) if authority == "books:80"
            ));
        }
        _ => panic!("must publish"),
    }
    assert!(watch.started);
    let next = Event::<u8, _, _, &'static str>::Response(Ok(Some(response(None))));
    match watch.respond(addr(), next) {
        Ok(Item::Publish(strategy)) => assert!(matches!(
            strategy.logical,
            Logical::Concrete(Concrete::Forward(to, _)) if to == addr()
        )),
        _ => panic!("must publish"),
    }
    let ended = Event::<u8, _, _, &'static str>::Response(Ok(None));
    assert!(matches!(
        watch.respond(addr(), ended),
        Ok(Item::Ask(Failure::ServerClosed))
    ));
    let fatal = Event::<u8, _, _, &'static str>::Recovery(Err("fatal"));
    assert!(matches!(
        watch.respond(addr(), fatal),
        Ok(Item::Fail(Failure::Status("fatal")))
    ));
}

#[test]
fn failures_have_messages() {
    assert_eq!(
        Failure::<u8>::ServerClosed.message(),
        Some("server closed stream".to_owned())
    );
    assert_eq!(
        Failure::<u8>::BackoffExhausted.message(),
        Some("Backoff exhausted".to_owned())
    );
    assert_eq!(Failure::Status(1).message(), None);
}

fn empty_split() -> Split {
    Split {
        targets: vec![],
        weights: vec![],
    }
}

fn overriding() -> Routes<u8> {
    Routes {
        routes: vec![],
        dst_overrides: vec![WeightedName {
            addr: NameAddr {
                name: "other".to_owned(),
                port: 80,
            },
            weight: 1,
        }],
    }
}

#[test]
fn profiles_make_strategies() {
    let strategy = Strategy::from_profile(addr(), &Routes::<u8>::empty(), empty_split());
    assert_eq!(
        strategy.detect,
        Detect::Client {
            buffer_capacity: 0,
            timeout: Duration::from_secs(0)
        }
    );
    assert!(matches!(
        strategy.logical,
        Logical::Concrete(Concrete::Forward(..))
    ));
    let strategy = Strategy::from_profile(addr(), &overriding(), empty_split());
    assert!(matches!(strategy.logical, Logical::Split(_)));
}

#[test]
fn discovery_by_profile() {
    type D = Discover<u8, u8>;
    assert_eq!(
        D::call::<u8, u8>(Ok(None)),
        Ok(discover::Strategy {})
    );
    assert_eq!(
        D::call::<u8, u8>(Ok(Some(Routes::empty()))),
        Ok(discover::Strategy {})
    );
    assert_eq!(D::call::<u8, u8>(Err(3)), Err(3));
}

#[test]
fn opaque_ports_need_no_profile() {
    let router = Router::from_profiles(&vec![25, 3306, 25], "profiles", "accept");
    assert_eq!(router.make_accept, "accept");
    match router.get_strategy.call::<u8>(v4(10, 0, 0, 1, 25)) {
        Called::Opaque(target) => {
            assert_eq!(target.strategy.detect, Detect::Opaque);
            assert!(target.profile.routes.is_empty());
            assert!(matches!(
                target.strategy.logical,
                Logical::Concrete(Concrete::Forward(to, _)) if to == v4(10, 0, 0, 1, 25)
            ));
        }
        other => panic!("unexpected {:?}", other),
    }
    assert!(matches!(
        router.get_strategy.call::<u8>(addr()),
        Called::GetProfiles(to) if to == addr()
    ));
    type F = FromProfiles<u8>;
    assert!(matches!(
        F::initial::<u8, u8>(addr(), Err(1), empty_split()),
        Err(1)
    ));
    assert!(matches!(
        F::initial::<u8, u8>(addr(), Ok(&overriding()), empty_split()),
        Ok(strategy) if matches!(strategy.logical, Logical::Split(_))
    ));
    assert!(matches!(
        F::publish(addr(), OutboundEvent::<u8>::Closed, empty_split()),
        Step::Stop
    ));
    assert!(matches!(
        F::publish(addr(), OutboundEvent::<u8>::Profile(None), empty_split()),
        Step::Wait
    ));
    assert!(matches!(
        F::publish(addr(), OutboundEvent::Profile(Some(&overriding())), empty_split()),
        Step::Broadcast(strategy) if matches!(strategy.logical, Logical::Split(_))
    ));
}

#[test]
fn outbound_connections_are_detected_by_the_client() {
    let accept = router::Router {}.call(addr());
    assert_eq!(accept.target, addr());
    assert_eq!(accept.detect, router::Detect::Client);
    assert_eq!(
        router::Detect::Opaque.detect("io"),
        (router::Protocol::Unknown, "io")
    );
    assert_eq!(
        accept.call::<&'static str, u8>(Ok((router::Protocol::H2, "io"))),
        Some((addr(), router::Protocol::H2, "io"))
    );
    assert_eq!(accept.call::<&'static str, u8>(Err(1)), None);
}
