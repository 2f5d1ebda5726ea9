use linkerd_middleware::poll::Poll;
use linkerd_middleware::probe_buffer::dispatch::{Dispatch, Event, Work};
use linkerd_middleware::probe_buffer::error::Closed;
use linkerd_middleware::probe_buffer::layer::SpawnProbeBufferLayer;
use linkerd_middleware::probe_buffer::service::{ProbeBuffer, ResponseError, ResponseFuture};
use linkerd_middleware::time::Duration;

type TestDispatch = Dispatch<&'static str, &'static str, String>;
type TestEvent = Event<&'static str, u32, String>;

fn dispatch() -> TestDispatch {
    let layer: SpawnProbeBufferLayer<u32> =
        SpawnProbeBufferLayer::new(10, Duration::from_secs(3)).clone();
    let (capacity, dispatch) = layer.layer("inner");
    assert_eq!(capacity, 10);
    dispatch
}

fn follow(dispatch: &mut TestDispatch, event: TestEvent) -> Work<u32, String> {
    dispatch.follow(event)
}

fn ready(dispatch: &mut TestDispatch) {
    assert!(matches!(
        follow(dispatch, Event::Inner(Ok(Poll::Ready(())))),
        Work::Broadcast(Ok(Poll::Ready(())))
    ));
    assert!(matches!(
        follow(dispatch, Event::Broadcast(true)),
        Work::PollQueue
    ));
}

#[test]
fn dispatches_requests_while_ready() {
    let mut task = dispatch();
    assert!(matches!(task.poll::<u32>(), Work::CheckClosed));
    assert!(matches!(
        follow(&mut task, Event::Closed(false)),
        Work::PollInner
    ));
    ready(&mut task);
    assert!(matches!(
        follow(&mut task, Event::Queue(Poll::Ready(Some(7)))),
        Work::Call(7)
    ));
    ready(&mut task);
    match follow(&mut task, Event::Queue(Poll::Pending)) {
        Work::StartProbe(timeout) => assert_eq!(timeout, Duration::from_secs(3)),
        _ => panic!("must probe"),
    }
    assert!(matches!(
        follow(&mut task, Event::Probe("delay", false)),
        Work::Return(Poll::Pending)
    ));
    assert_eq!(task.probe, Some("delay"));
    assert!(matches!(task.poll::<u32>(), Work::CheckClosed));
    assert_eq!(task.probe, None);
}

#[test]
fn elapsed_probe_polls_again() {
    let mut task = dispatch();
    task.poll::<u32>();
    follow(&mut task, Event::Closed(false));
    ready(&mut task);
    follow(&mut task, Event::Queue(Poll::Pending));
    assert!(matches!(
        follow(&mut task, Event::Probe("delay", true)),
        Work::PollInner
    ));
    assert_eq!(task.probe, None);
}

#[test]
fn waits_for_an_unready_service() {
    let mut task = dispatch();
    task.poll::<u32>();
    follow(&mut task, Event::Closed(false));
    assert!(matches!(
        follow(&mut task, Event::Inner(Ok(Poll::Pending))),
        Work::Broadcast(Ok(Poll::Pending))
    ));
    assert!(matches!(
        follow(&mut task, Event::Broadcast(true)),
        Work::Return(Poll::Pending)
    ));
}

#[test]
fn failure_reaches_queued_requests() {
    let mut task = dispatch();
    task.poll::<u32>();
    follow(&mut task, Event::Closed(false));
    match follow(&mut task, Event::Inner(Err("broken".to_owned()))) {
        Work::Broadcast(Err(failed)) => assert_eq!(*failed.0, "broken"),
        _ => panic!("must broadcast"),
    }
    assert!(matches!(
        follow(&mut task, Event::Broadcast(true)),
        Work::PollQueue
    ));
    for request in vec![1, 2] {
        match follow(&mut task, Event::Queue(Poll::Ready(Some(request)))) {
            Work::Fail(failed_request, failed) => {
                assert_eq!(failed_request, request);
                assert_eq!(*failed.0, "broken");
            }
            _ => panic!("must fail"),
        }
    }
    assert!(matches!(
        follow(&mut task, Event::Queue(Poll::Pending)),
        Work::Return(Poll::Pending)
    ));
    assert!(task.inner.is_none());
    // Nothing is left to do but to wait for consumers to go.
    task.poll::<u32>();
    assert!(matches!(
        follow(&mut task, Event::Closed(false)),
        Work::Return(Poll::Pending)
    ));
    task.poll::<u32>();
    assert!(matches!(
        follow(&mut task, Event::Closed(true)),
        Work::Return(Poll::Ready(()))
    ));
}

#[test]
fn completes_without_consumers() {
    let mut task = dispatch();
    task.poll::<u32>();
    follow(&mut task, Event::Closed(false));
    follow(&mut task, Event::Inner(Ok(Poll::Ready(()))));
    assert!(matches!(
        follow(&mut task, Event::Broadcast(false)),
        Work::Return(Poll::Ready(()))
    ));
    let mut task = dispatch();
    task.poll::<u32>();
    follow(&mut task, Event::Closed(false));
    ready(&mut task);
    assert!(matches!(
        follow(&mut task, Event::Queue(Poll::Ready(None))),
        Work::Return(Poll::Ready(()))
    ));
}

#[test]
fn closed_queue_and_dropped_requests() {
    assert_eq!(Closed(()).message(), "Closed");
    assert!(matches!(
        ProbeBuffer::<u8>::poll_ready::<u8>(Poll::Ready(Err(1))),
        Poll::Ready(Err(Closed(())))
    ));
    assert!(matches!(
        ProbeBuffer::<u8>::poll_ready::<u8>(Poll::Ready(Ok(()))),
        Poll::Ready(Ok(()))
    ));
    assert!(matches!(
        ProbeBuffer::<u8>::poll_ready::<u8>(Poll::Pending),
        Poll::Pending
    ));
    assert_eq!(ProbeBuffer::new(3).clone().tx, 3);
    assert!(matches!(
        ResponseFuture::<u8>::poll::<u8, u8, u8>(Poll::Ready(Err(1))),
        Poll::Ready(Err(ResponseError::Closed(Closed(()))))
    ));
    assert!(matches!(
        ResponseFuture::<u8>::poll::<u8, u8, u8>(Poll::Ready(Ok(Err(2)))),
        Poll::Ready(Err(ResponseError::Service(2)))
    ));
    assert!(matches!(
        ResponseFuture::<u8>::poll::<u8, u8, u8>(Poll::Ready(Ok(Ok(3)))),
        Poll::Ready(Ok(3))
    ));
    assert!(matches!(
        ResponseFuture::<u8>::poll::<u8, u8, u8>(Poll::Pending),
        Poll::Pending
    ));
}
