use linkerd_middleware::discover::from_resolve::{
    Change, Discover, DiscoverFuture, FromResolve, Next, Update,
};
use linkerd_middleware::net::{v4, SocketAddr};
use linkerd_middleware::poll::Poll;

fn addr(n: u8) -> SocketAddr {
    v4(10, 0, 0, n, 80)
}

fn update(discover: &mut Discover<u8>, update: Update) -> Vec<(char, SocketAddr, u64)> {
    assert!(matches!(
        discover.poll_next::<u8>(),
        Next::PollResolution
    ));
    assert!(matches!(
        discover.on_update::<u8>(Poll::Ready(Some(Ok(update)))),
        Next::Again
    ));
    let mut changes = Vec::new();
    loop {
        match discover.poll_next::<u8>() {
            Next::Return(Poll::Ready(Some(Ok(Change::Insert(addr, endpoint))))) => {
                changes.push(('+', addr, endpoint))
            }
            Next::Return(Poll::Ready(Some(Ok(Change::Remove(addr))))) => {
                changes.push(('-', addr, 0))
            }
            _ => return changes,
        }
    }
}

fn discover() -> Discover<u8> {
    let from: FromResolve<&'static str, u64> = FromResolve::new("resolve");
    assert_eq!(from.resolve, "resolve");
    let waiting = FromResolve::<&'static str, u64>::call("future");
    assert_eq!(waiting.future, "future");
    assert!(matches!(
        DiscoverFuture::<u8, u64>::poll::<u8, u8>(Poll::Pending),
        Poll::Pending
    ));
    assert!(matches!(
        DiscoverFuture::<u8, u64>::poll::<u8, u8>(Poll::Ready(Err(1))),
        Poll::Ready(Err(1))
    ));
    match DiscoverFuture::<u8, u64>::poll::<u8, u8>(Poll::Ready(Ok(9))) {
        Poll::Ready(Ok(discover)) => discover,
        _ => panic!("must be ready"),
    }
}

#[test]
fn adds_and_removes_become_changes() {
    let mut discover = discover();
    assert_eq!(
        update(&mut discover, Update::Add(vec![(addr(1), 1), (addr(2), 2)])),
        vec![('+', addr(1), 1), ('+', addr(2), 2)]
    );
    assert_eq!(
        update(&mut discover, Update::Add(vec![(addr(1), 1)])),
        vec![('+', addr(1), 1)]
    );
    assert_eq!(
        update(
            &mut discover,
            Update::Remove(vec![addr(3), addr(1), addr(1)])
        ),
        vec![('-', addr(1), 0)]
    );
    assert_eq!(
        update(&mut discover, Update::DoesNotExist),
        vec![('-', addr(2), 0)]
    );
    assert_eq!(update(&mut discover, Update::DoesNotExist), vec![]);
}

#[test]
fn reset_changes_only_what_differs() {
    let mut discover = discover();
    update(
        &mut discover,
        Update::Add(vec![(addr(1), 1), (addr(2), 2), (addr(3), 3), (addr(4), 4)]),
    );
    let mut changes = update(
        &mut discover,
        Update::Reset(vec![(addr(1), 1), (addr(2), 9), (addr(5), 5)]),
    );
    assert_eq!(
        changes.drain(..2).collect::<Vec<_>>(),
        vec![('+', addr(2), 9), ('+', addr(5), 5)]
    );
    changes.sort();
    assert_eq!(changes, vec![('-', addr(3), 0), ('-', addr(4), 0)]);
    // All that is active now is what was reset to.
    let mut changes = update(&mut discover, Update::DoesNotExist);
    changes.sort();
    assert_eq!(
        changes,
        vec![('-', addr(1), 0), ('-', addr(2), 0), ('-', addr(5), 0)]
    );
}

#[test]
fn resolution_outcomes_are_passed_on() {
    let mut discover = discover();
    assert!(matches!(
        discover.on_update::<u8>(Poll::Pending),
        Next::Return(Poll::Pending)
    ));
    assert!(matches!(
        discover.on_update::<u8>(Poll::Ready(None)),
        Next::Return(Poll::Ready(None))
    ));
    assert!(matches!(
        discover.on_update::<u8>(Poll::Ready(Some(Err(5)))),
        Next::Return(Poll::Ready(Some(Err(5))))
    ));
}
