use linkerd_middleware::profiles::api;
use linkerd_middleware::profiles::budget::{convert_retry_budget, BudgetParams};
use linkerd_middleware::profiles::client::{
    Addr, Client, Event as ClientEvent, Initial, InvalidProfileAddr, Step as ClientStep,
};
use linkerd_middleware::profiles::pattern::{anchor, path_pattern, trim};
use linkerd_middleware::profiles::request::{convert_req_match, RequestMatch};
use linkerd_middleware::profiles::response::{
    convert_rsp_class, convert_rsp_classes, convert_rsp_match, ResponseMatch,
};
use linkerd_middleware::profiles::route::{
    convert_dst_override, convert_route, NameAddr, Route, Routes,
};
use linkerd_middleware::profiles::updates::{Event, Item, Phase, Profiles};
use linkerd_middleware::time::{Duration, ProtoDuration};
use std::sync::Arc;

fn path(regex: &str) -> api::RequestMatch {
    api::RequestMatch {
        kind: Some(api::RequestMatchKind::Path(regex.to_owned())),
    }
}

fn method(kind: Option<api::MethodType>) -> api::RequestMatch {
    api::RequestMatch {
        kind: Some(api::RequestMatchKind::Method(kind)),
    }
}

fn status(min: u32, max: u32) -> api::ResponseMatch {
    api::ResponseMatch {
        kind: Some(api::ResponseMatchKind::Status { min, max }),
    }
}

fn path_of(orig: api::RequestMatch) -> Option<String> {
    match convert_req_match(&orig) {
        Some(RequestMatch::Path(pattern)) => Some(pattern),
        None => None,
        other => panic!("unexpected {:?}", other),
    }
}

fn method_of(kind: api::MethodType) -> Option<String> {
    match convert_req_match(&method(Some(kind))) {
        Some(RequestMatch::Method(name)) => Some(name),
        None => None,
        other => panic!("unexpected {:?}", other),
    }
}

#[test]
fn paths_are_trimmed_and_anchored() {
    assert_eq!(path_of(path("/books")), Some("^/books$".to_owned()));
    assert_eq!(path_of(path("^/books")), Some("^/books$".to_owned()));
    assert_eq!(path_of(path("/books$")), Some("^/books$".to_owned()));
    assert_eq!(path_of(path(" \t^/books$\u{3000}\n")), Some("^/books$".to_owned()));
    assert_eq!(path_of(path("")), Some("^$".to_owned()));
    assert_eq!(path_of(path("^")), Some("^$".to_owned()));
    assert_eq!(path_of(path("/books/(")), None);
    assert_eq!(path_pattern(&"[a-".to_owned()), None);
    assert_eq!(anchor("a"), "^a$");
    assert_eq!(trim("\u{2003}a b\u{85}"), "a b");
    assert_eq!(trim(" \u{a0} "), "");
}

#[test]
fn trim_agrees_with_std() {
    for code in 0..0x3100u32 {
        if let Some(c) = char::from_u32(code) {
            let text = format!("{}x{}", c, c);
            assert_eq!(trim(&text), text.trim(), "{:x}", code);
        }
    }
}

#[test]
fn methods_by_number_and_name() {
    let names = vec![
        "GET", "POST", "PUT", "DELETE", "PATCH", "OPTIONS", "CONNECT", "HEAD", "TRACE",
    ];
    for (number, name) in names.into_iter().enumerate() {
        assert_eq!(
            method_of(api::MethodType::Registered(number as i32)),
            Some(name.to_owned())
        );
    }
    assert_eq!(method_of(api::MethodType::Registered(9)), None);
    assert_eq!(method_of(api::MethodType::Registered(-1)), None);
    for name in vec!["GET", "wOw!!", "a.very_long-method^name`with|many~chars*+09AZaz"] {
        assert_eq!(
            method_of(api::MethodType::Unregistered(name.to_owned())),
            Some(name.to_owned())
        );
    }
    for name in vec!["", "a b", "a#b", "$", "\u{e9}", "a/b"] {
        assert_eq!(method_of(api::MethodType::Unregistered(name.to_owned())), None);
    }
    assert!(convert_req_match(&method(None)).is_none());
}

#[test]
fn method_characters_are_those_of_the_http_crate() {
    for code in 1..256u32 {
        let c = char::from_u32(code).expect("must be a character");
        let text = format!("{}", c);
        let allowed = c.is_ascii_alphanumeric() || "!*+-.^_`|~".contains(c);
        assert_eq!(
            method_of(api::MethodType::Unregistered(text)).is_some(),
            allowed,
            "{:x}",
            code
        );
    }
}

#[test]
fn request_conditions_nest() {
    let orig = api::RequestMatch {
        kind: Some(api::RequestMatchKind::All(vec![
            path("/a"),
            path("("),
            api::RequestMatch { kind: None },
            api::RequestMatch {
                kind: Some(api::RequestMatchKind::Not(Box::new(path("/b")))),
            },
            api::RequestMatch {
                kind: Some(api::RequestMatchKind::Any(vec![])),
            },
        ])),
    };
    match convert_req_match(&orig) {
        Some(RequestMatch::All(conditions)) => {
            assert_eq!(conditions.len(), 3);
            assert!(matches!(&conditions[0], RequestMatch::Path(p) if p == "^/a$"));
            assert!(matches!(&conditions[1], RequestMatch::Not(_)));
            assert!(matches!(&conditions[2], RequestMatch::Any(any) if any.is_empty()));
        }
        other => panic!("unexpected {:?}", other),
    }
    let not = api::RequestMatch {
        kind: Some(api::RequestMatchKind::Not(Box::new(path("(")))),
    };
    assert!(convert_req_match(&not).is_none());
}

#[test]
fn response_conditions_are_checked() {
    match convert_rsp_match(&status(500, 599)) {
        Some(ResponseMatch::Status { min: 500, max: 599 }) => {}
        other => panic!("unexpected {:?}", other),
    }
    assert!(convert_rsp_match(&status(99, 599)).is_none());
    assert!(convert_rsp_match(&status(100, 1000)).is_none());
    assert!(convert_rsp_match(&status(100, 999)).is_some());
    // Only the low bits count.
    match convert_rsp_match(&status(0x1_0000 + 200, 204)) {
        Some(ResponseMatch::Status { min: 200, max: 204 }) => {}
        other => panic!("unexpected {:?}", other),
    }
    let empty = api::ResponseMatch {
        kind: Some(api::ResponseMatchKind::All(vec![status(1, 2)])),
    };
    assert!(convert_rsp_match(&empty).is_none());
    let any = api::ResponseMatch {
        kind: Some(api::ResponseMatchKind::Any(vec![status(1, 2), status(200, 299)])),
    };
    assert!(matches!(convert_rsp_match(&any), Some(ResponseMatch::Any(ms)) if ms.len() == 1));
    let not = api::ResponseMatch {
        kind: Some(api::ResponseMatchKind::Not(Box::new(status(200, 299)))),
    };
    assert!(matches!(convert_rsp_match(&not), Some(ResponseMatch::Not(_))));
    let class = api::ResponseClass {
        condition: Some(status(500, 599)),
        is_failure: true,
    };
    assert!(convert_rsp_class(&class).expect("must convert").is_failure);
    let none = api::ResponseClass {
        condition: None,
        is_failure: true,
    };
    assert!(convert_rsp_class(&none).is_none());
    assert_eq!(convert_rsp_classes(&vec![none, class]).len(), 1);
}

fn route(is_retryable: bool, timeout: Option<ProtoDuration>) -> api::Route {
    api::Route {
        condition: Some(path("/a")),
        response_classes: vec![api::ResponseClass {
            condition: Some(status(500, 599)),
            is_failure: true,
        }],
        metrics_labels: vec![("route".to_owned(), "a".to_owned())],
        is_retryable,
        timeout,
    }
}

#[test]
fn routes_are_converted() {
    let budget = Arc::new(5u8);
    let timeout = Some(ProtoDuration {
        seconds: 1,
        nanos: 0,
    });
    let (condition, made): (RequestMatch, Route<u8>) =
        convert_route(route(true, timeout), Some(&budget)).expect("must convert");
    assert!(matches!(condition, RequestMatch::Path(p) if p == "^/a$"));
    assert_eq!(made.labels, vec![("route".to_owned(), "a".to_owned())]);
    assert_eq!(made.response_classes.len(), 1);
    assert_eq!(made.retries.as_deref(), Some(&5));
    assert_eq!(made.timeout, Some(Duration { secs: 1, nanos: 0 }));

    let negative = Some(ProtoDuration {
        seconds: -1,
        nanos: 0,
    });
    let (_, made) = convert_route(route(false, negative), Some(&budget)).expect("must convert");
    assert!(made.retries.is_none());
    assert!(made.timeout.is_none());

    let (_, made) = convert_route::<u8>(route(true, None), None).expect("must convert");
    assert!(made.retries.is_none());

    let mut without = route(true, None);
    without.condition = None;
    assert!(convert_route(without, Some(&budget)).is_none());
}

#[test]
fn overrides_need_a_weight_and_an_address() {
    let addr = NameAddr {
        name: "books".to_owned(),
        port: 80,
    };
    let dst = |weight: u32| api::WeightedDst {
        authority: "books:80".to_owned(),
        weight,
    };
    assert!(convert_dst_override(&dst(0), Some(addr.clone())).is_none());
    assert!(convert_dst_override(&dst(1), None).is_none());
    let made = convert_dst_override(&dst(7), Some(addr)).expect("must convert");
    assert_eq!(made.weight, 7);
    assert_eq!(made.addr.name, "books");
    assert_eq!(made.addr.port, 80);
}

fn budget(min: u32, ratio: f32, seconds: i64, nanos: i32) -> Option<BudgetParams> {
    convert_retry_budget(api::RetryBudget {
        min_retries_per_second: min,
        retry_ratio: ratio.to_bits(),
        ttl: Some(ProtoDuration { seconds, nanos }),
    })
}

#[test]
fn retry_budget_from_proto() {
    // A budget that is accepted can be made: nothing panics.
    let ratios = vec![
        0.0,
        -0.0,
        0.2,
        1000.0,
        1000.1,
        -0.1,
        f32::NAN,
        -f32::NAN,
        f32::INFINITY,
        f32::NEG_INFINITY,
        f32::MIN_POSITIVE,
    ];
    let seconds = vec![i64::MIN, -61, -1, 0, 1, 59, 60, 61, i64::MAX];
    let nanos = vec![i32::MIN, -1_000_000_000, -1, 0, 1, 999_999_999, 1_000_000_000, i32::MAX];
    for min in vec![0, 1, i32::MAX as u32 - 1, i32::MAX as u32, u32::MAX] {
        for ratio in ratios.iter() {
            for seconds in seconds.iter() {
                for nanos in nanos.iter() {
                    if let Some(params) = budget(min, *ratio, *seconds, *nanos) {
                        let _ = tower::retry::budget::Budget::new(
                            std::time::Duration::new(params.ttl.secs, params.ttl.nanos),
                            params.min_retries,
                            f32::from_bits(params.retry_ratio),
                        );
                    }
                }
            }
        }
    }
}

#[test]
fn retry_budgets_are_limited() {
    let made = budget(10, 0.2, 10, 5).expect("must convert");
    assert_eq!(made.ttl, Duration { secs: 10, nanos: 5 });
    assert_eq!(made.min_retries, 10);
    assert_eq!(f32::from_bits(made.retry_ratio), 0.2);
    assert!(budget(10, 1000.0, 1, 0).is_some());
    assert!(budget(10, 1000.1, 1, 0).is_none());
    assert!(budget(10, -0.0, 60, 0).is_some());
    assert!(budget(10, -0.1, 60, 0).is_none());
    assert!(budget(10, 0.2, 60, 1).is_none());
    assert!(budget(10, 0.2, 0, 999_999_999).is_none());
    assert!(budget(i32::MAX as u32, 0.2, 10, 0).is_none());
    let without = api::RetryBudget {
        min_retries_per_second: 1,
        retry_ratio: 0,
        ttl: None,
    };
    assert!(convert_retry_budget(without).is_none());
}

fn client() -> Client<u8, u8, &'static str> {
    Client::new(
        1,
        2,
        Duration::from_secs(5),
        "token".to_owned(),
        vec!["svc.cluster.local", "example"],
    )
}

#[test]
fn only_names_under_a_suffix_have_profiles() {
    let name = || {
        Addr::Name(NameAddr {
            name: "books".to_owned(),
            port: 80,
        })
    };
    let client = client();
    let request = client
        .routes(name(), "books:80".to_owned(), &vec![false, true])
        .expect("must be requested");
    assert_eq!(request.path, "books:80");
    assert_eq!(request.context_token, "token");
    let error = client
        .routes(name(), "books:80".to_owned(), &vec![false, false])
        .expect_err("must be refused");
    assert!(matches!(error.addr(), Addr::Name(addr) if addr.name == "books"));
    let socket = linkerd_middleware::net::v4(10, 0, 0, 1, 80);
    let error = client
        .routes(Addr::Socket(socket), "".to_owned(), &vec![true, true])
        .expect_err("must be refused");
    assert!(matches!(error, InvalidProfileAddr(Addr::Socket(addr)) if addr == socket));
}

#[test]
fn default_profile_after_timeout() {
    type C = Client<u8, u8, u8>;
    let routes: Routes<u8> = C::initial_profile::<u8, u8>(Initial::TimedOut).expect("must be there");
    assert!(routes.routes.is_empty());
    assert!(routes.dst_overrides.is_empty());
    assert!(matches!(
        C::initial_profile::<u8, u8>(Initial::Profile(Err(3))),
        Err(3)
    ));
    assert!(C::initial_profile::<u8, u8>(Initial::Profile(Ok(Routes::empty()))).is_ok());
    assert!(matches!(
        C::publish::<u8, u8>(ClientEvent::Closed),
        ClientStep::Stop
    ));
    assert!(matches!(
        C::publish::<u8, u8>(ClientEvent::Profile(Some(Ok(Routes::empty())))),
        ClientStep::Broadcast(_)
    ));
    assert!(matches!(
        C::publish::<u8, u8>(ClientEvent::Profile(None)),
        ClientStep::Stop
    ));
    assert!(matches!(
        C::publish::<u8, u8>(ClientEvent::Broadcast(true)),
        ClientStep::Wait
    ));
    assert!(matches!(
        C::publish::<u8, u8>(ClientEvent::Broadcast(false)),
        ClientStep::Stop
    ));
}

#[test]
fn profile_stream_reuses_its_backoff() {
    let mut profiles: Profiles<u8, &'static str> = Profiles::new();
    let item: Item<u32, &'static str> = profiles.follow(Event::Replied(Err("refused")));
    assert!(matches!(item, Item::Ask("refused")));
    profiles.follow::<u32, &'static str>(Event::Recovery(Ok(1)));
    assert!(matches!(profiles.phase, Phase::Backoff));
    profiles.follow::<u32, &'static str>(Event::BackedOff);
    profiles.follow::<u32, &'static str>(Event::Replied(Err("refused")));
    profiles.follow::<u32, &'static str>(Event::Recovery(Ok(2)));
    assert_eq!(profiles.backoff, Some(1));
    profiles.follow::<u32, &'static str>(Event::BackedOff);
    profiles.follow::<u32, &'static str>(Event::Replied(Ok("updates")));
    let item: Item<u32, &'static str> = profiles.follow(Event::Update(Some(Ok(7))));
    assert!(matches!(item, Item::Yield(7)));
    profiles.follow::<u32, &'static str>(Event::Update(None));
    assert!(matches!(profiles.phase, Phase::Backoff));
    profiles.follow::<u32, &'static str>(Event::BackedOff);
    profiles.follow::<u32, &'static str>(Event::Replied(Ok("updates")));
    let item: Item<u32, &'static str> = profiles.follow(Event::Update(Some(Err("bad"))));
    assert!(matches!(item, Item::Fail("bad")));
    assert!(matches!(profiles.phase, Phase::Failed));
}

#[test]
fn profile_stream_fails_if_not_recovered() {
    let mut profiles: Profiles<u8, &'static str> = Profiles::new();
    profiles.follow::<u32, &'static str>(Event::Replied(Ok("updates")));
    profiles.follow::<u32, &'static str>(Event::Update(None));
    assert!(matches!(profiles.phase, Phase::Request));
    profiles.follow::<u32, &'static str>(Event::Replied(Err("refused")));
    let item: Item<u32, &'static str> = profiles.follow(Event::Recovery(Err("fatal")));
    assert!(matches!(item, Item::Fail("fatal")));
}
