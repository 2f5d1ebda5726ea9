use indexmap::IndexMap;
use linkerd_middleware::net::{v4, SocketAddr};
use linkerd_middleware::poll::Poll;
use linkerd_middleware::resolve::inner::{Connected, Event, Inner, State, Work};
use linkerd_middleware::resolve::recover::reconcile_after_connect;
use linkerd_middleware::resolve::resolution::{Next, Resolution, Resolve, ResolveFuture};
use linkerd_middleware::resolve::update::Update;

fn addr0() -> SocketAddr {
    v4(198, 51, 100, 1, 8080)
}

fn addr1() -> SocketAddr {
    v4(198, 51, 100, 2, 8080)
}

#[test]
fn reconcile_after_initial_connect() {
    let cache = IndexMap::default();
    let add = Update::Add(vec![(addr0(), 0), (addr1(), 0)]);
    assert_eq!(
        reconcile_after_connect(&cache, add.clone()),
        Some((add, None)),
        "Adds should be passed through initially"
    );
    assert_eq!(
        reconcile_after_connect(&cache, Update::Remove(vec![addr0(), addr1()])),
        Some((Update::Empty, None)),
        "Removes should be treated as empty"
    );
    assert_eq!(
        reconcile_after_connect(&cache, Update::Empty),
        Some((Update::Empty, None)),
        "Empties should be passed through"
    );
    assert_eq!(
        reconcile_after_connect(&cache, Update::DoesNotExist),
        Some((Update::DoesNotExist, None)),
        "DNEs should be passed through"
    );
}

#[test]
fn reconcile_after_reconnect_dedupes() {
    let mut cache = IndexMap::new();
    cache.insert(addr0(), 0);

    assert_eq!(
        reconcile_after_connect(&cache, Update::Add(vec![(addr0(), 0), (addr1(), 0)])),
        Some((Update::Add(vec![(addr1(), 0)]), None)),
    );
}

#[test]
fn reconcile_after_reconnect_updates() {
    let mut cache = IndexMap::new();
    cache.insert(addr0(), 0);

    assert_eq!(
        reconcile_after_connect(&cache, Update::Add(vec![(addr0(), 1), (addr1(), 0)])),
        Some((Update::Add(vec![(addr0(), 1), (addr1(), 0)]), None)),
    );
}

#[test]
fn reconcile_after_reconnect_removes() {
    let mut cache = IndexMap::new();
    cache.insert(addr0(), 0);
    cache.insert(addr1(), 0);

    assert_eq!(
        reconcile_after_connect(&cache, Update::Add(vec![(addr0(), 0)])),
        Some((Update::Remove(vec![addr1()]), None))
    );
}

#[test]
fn reconcile_after_reconnect_adds_and_removes() {
    let mut cache = IndexMap::new();
    cache.insert(addr0(), 0);
    cache.insert(addr1(), 0);

    assert_eq!(
        reconcile_after_connect(&cache, Update::Add(vec![(addr0(), 1)])),
        Some((
            Update::Add(vec![(addr0(), 1)]),
            Some(Update::Remove(vec![addr1()]))
        ))
    );
}

#[test]
fn reconcile_after_reconnect_passthru() {
    let mut cache = IndexMap::default();
    cache.insert(addr0(), 0);

    assert_eq!(
        reconcile_after_connect(&cache, Update::Remove(vec![addr1()])),
        Some((Update::Empty, None)),
        "Removes should be treated as empty"
    );
    assert_eq!(
        reconcile_after_connect(&cache, Update::Empty),
        Some((Update::Empty, None)),
        "Empties should be passed through"
    );
    assert_eq!(
        reconcile_after_connect(&cache, Update::DoesNotExist),
        Some((Update::DoesNotExist, None)),
        "DNEs should be passed through"
    );
}

#[test]
fn reconcile_of_a_known_set_is_silent() {
    let mut cache = IndexMap::new();
    cache.insert(addr0(), 7);
    cache.insert(addr1(), 8);
    assert_eq!(
        reconcile_after_connect(&cache, Update::Add(vec![(addr1(), 8), (addr0(), 7)])),
        None
    );
}

type TestInner = Inner<u8, (), (), &'static str, &'static str, u32, &'static str>;

fn inner(state: State<&'static str, &'static str, u32, &'static str>) -> TestInner {
    Inner {
        target: 1,
        resolve: (),
        recover: (),
        state,
    }
}

#[test]
fn backoff_is_kept_until_the_first_update() {
    let mut inner = inner(State::Disconnected { backoff: None });
    assert_eq!(inner.state.work(), Work::RequestResolution);
    assert!(inner
        .poll_connected(Some(Event::Requested(Poll::Ready(Ok("future")))))
        .is_none());
    assert_eq!(inner.state.work(), Work::PollRequest);
    assert!(inner
        .poll_connected(Some(Event::Resolved(Poll::Ready(Err("refused")))))
        .is_none());
    assert_eq!(inner.state.work(), Work::AskRecovery);
    assert_eq!(inner.take_error(), "refused");
    assert!(inner.poll_connected(Some(Event::Recovery(Ok(1)))).is_none());
    assert_eq!(inner.state.work(), Work::PollBackoff);
    assert!(inner
        .poll_connected(Some(Event::BackedOff(Poll::Ready(Some(Ok(()))))))
        .is_none());
    // The next attempt fails too: the first backoff is used again.
    assert!(inner
        .poll_connected(Some(Event::Requested(Poll::Ready(Ok("future")))))
        .is_none());
    assert!(inner
        .poll_connected(Some(Event::Resolved(Poll::Ready(Ok("resolution")))))
        .is_none());
    assert_eq!(inner.state.work(), Work::PollFirstUpdate);
    assert!(inner
        .poll_connected(Some(Event::FirstUpdate(Poll::Ready(Err("reset")))))
        .is_none());
    assert!(inner.poll_connected(Some(Event::Recovery(Ok(2)))).is_none());
    assert!(matches!(inner.state, State::Backoff(Some(1))));
    assert!(inner
        .poll_connected(Some(Event::BackedOff(Poll::Ready(None))))
        .is_none());
    assert!(matches!(inner.state, State::Disconnected { backoff: None }));
}

#[test]
fn unrecoverable_errors_are_returned() {
    let mut one = inner(State::Disconnected { backoff: None });
    assert!(matches!(
        one.poll_connected(Some(Event::Requested(Poll::Ready(Err("unready"))))),
        Some(Poll::Ready(Err("unready")))
    ));
    let mut two = inner(State::Recover {
        error: Some("x"),
        backoff: None,
    });
    assert!(matches!(
        two.poll_connected(Some(Event::Recovery(Err("fatal")))),
        Some(Poll::Ready(Err("fatal")))
    ));
    let mut three = inner(State::Backoff(Some(3)));
    assert!(matches!(
        three.poll_connected(Some(Event::BackedOff(Poll::Ready(Some(Err("late")))))),
        Some(Poll::Ready(Err("late")))
    ));
    let mut four = inner(State::Backoff(Some(3)));
    assert!(matches!(
        four.poll_connected(Some(Event::BackedOff(Poll::Pending))),
        Some(Poll::Pending)
    ));
    let mut five = inner(State::Connected {
        resolution: "r",
        inner: Connected::Connected { initial: None },
    });
    assert!(matches!(five.poll_connected(None), Some(Poll::Ready(Ok(())))));
}

fn connected(
    initial: Update<u64>,
) -> Resolution<u8, (), (), &'static str, &'static str, u32, &'static str> {
    let service: Resolve<(), ()> = Resolve::new((), ());
    let mut future: ResolveFuture<u8, (), (), &'static str, &'static str, u32, &'static str> =
        Resolve::call(1, service.resolve, service.recover, "future");
    assert!(matches!(future.poll(Poll::Pending), Poll::Pending));
    let inner = future.inner.as_mut().expect("must be there");
    assert!(inner
        .poll_connected(Some(Event::Resolved(Poll::Ready(Ok("resolution")))))
        .is_none());
    assert!(inner
        .poll_connected(Some(Event::FirstUpdate(Poll::Ready(Ok(initial)))))
        .is_none());
    match future.poll(Poll::Ready(Ok(()))) {
        Poll::Ready(Ok(resolution)) => resolution,
        _ => panic!("must be connected"),
    }
}

#[test]
fn resolution_recovers() {
    let mut resolution = connected(Update::Add(vec![(addr0(), 0), (addr1(), 1)]));
    // The first update is passed on.
    match resolution.poll() {
        Next::Return(Poll::Ready(Ok(update))) => {
            assert_eq!(update, Update::Add(vec![(addr0(), 0), (addr1(), 1)]))
        }
        _ => panic!("must return"),
    }
    assert!(matches!(resolution.poll(), Next::PollResolution));
    // The stream fails: it is recovered from, with a new backoff.
    assert!(matches!(
        resolution.on_update(Poll::Ready(Err("reset"))),
        Next::PollConnected
    ));
    assert_eq!(resolution.inner.state.work(), Work::AskRecovery);
    assert_eq!(resolution.inner.take_error(), "reset");
    for event in vec![
        Event::Recovery(Ok(4)),
        Event::BackedOff(Poll::Ready(Some(Ok(())))),
        Event::Requested(Poll::Ready(Ok("future"))),
        Event::Resolved(Poll::Ready(Ok("resolution"))),
        Event::FirstUpdate(Poll::Ready(Ok(Update::Add(vec![(addr0(), 5)])))),
    ] {
        assert!(resolution.inner.poll_connected(Some(event)).is_none());
    }
    // What changed meanwhile is advertised: additions first, then removals.
    match resolution.poll() {
        Next::Return(Poll::Ready(Ok(update))) => {
            assert_eq!(update, Update::Add(vec![(addr0(), 5)]))
        }
        _ => panic!("must return"),
    }
    match resolution.poll() {
        Next::Return(Poll::Ready(Ok(update))) => assert_eq!(update, Update::Remove(vec![addr1()])),
        _ => panic!("must return"),
    }
    // The cache is what a consumer of all updates holds.
    let cached: Vec<(SocketAddr, u64)> = resolution.cache.iter().map(|(a, e)| (*a, *e)).collect();
    assert_eq!(cached, vec![(addr0(), 5)]);
    assert!(matches!(resolution.poll(), Next::PollResolution));
    match resolution.on_update(Poll::Ready(Ok(Update::DoesNotExist))) {
        Next::Return(Poll::Ready(Ok(update))) => assert_eq!(update, Update::DoesNotExist),
        _ => panic!("must return"),
    }
    assert!(resolution.cache.is_empty());
}

#[test]
fn resolve_future_returns_errors() {
    let mut future: ResolveFuture<u8, (), (), &'static str, &'static str, u32, &'static str> =
        Resolve::<(), ()>::call(1, (), (), "future");
    assert!(matches!(
        future.poll(Poll::Ready(Err("fatal"))),
        Poll::Ready(Err("fatal"))
    ));
}
