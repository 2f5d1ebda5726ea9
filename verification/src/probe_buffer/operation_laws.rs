//! What a buffered service does at each step.

use super::dispatch::{self, Dispatch, Event, Phase, Work};
use super::error::{Closed, Failed};
use super::layer::SpawnProbeBufferLayer;
use super::service::{ProbeBuffer, ResponseError, ResponseFuture};
use crate::poll::Poll;
use crate::time::Duration;
use vstd::prelude::*;

verus! {

/// Which work an event is an outcome of.
pub proof fn law_events_answer<D, Q, E>(event: Event<D, Q, E>, phase: Phase<E>)
    requires
        dispatch::answers(event, phase),
    ensures
        event is Closed <==> phase is CheckClosed,
        event is Inner <==> phase is PollInner,
        event is Broadcast <==> phase is Broadcast,
        event is Queue <==> phase is PollQueue || phase is Drain,
        event is Probe <==> phase is StartProbe,
{
}

/// A request is handed to the service exactly if the service is ready for it, and fails exactly
/// if the service failed before. No request is lost, and none is made up.
pub proof fn law_requests_are_called_or_failed<S, D, Q, E>(
    before: Dispatch<S, D, E>,
    event: Event<D, Q, E>,
    after: Dispatch<S, D, E>,
    work: Work<Q, E>,
)
    requires
        dispatch::answers(event, before.phase),
        exists|d: &mut Dispatch<S, D, E>|
            *d == before && *final(d) == after && #[trigger] call_ensures(
                Dispatch::<S, D, E>::follow::<Q>,
                (d, event),
                work,
            ),
    ensures
        event matches Event::Queue(Poll::Ready(Some(request))) ==> match before.phase {
            Phase::Drain(error) => work == Work::<Q, E>::Fail(request, Failed(error)),
            _ => work == Work::<Q, E>::Call(request),
        },
        work is Call || work is Fail ==> event matches Event::Queue(Poll::Ready(Some(_))),
        work is Call ==> before.phase is PollQueue && after.phase is PollInner,
        work matches Work::Fail(_, Failed(error)) ==> before.phase == Phase::Drain(error)
            && after.phase == Phase::Drain(error),
{
}

/// Consumers are told of what the service says, and then requests are taken if it is ready,
/// failed if it failed, and waited with if it is not ready.
pub proof fn law_readiness_is_told<S, D, Q, E>(
    before: Dispatch<S, D, E>,
    event: Event<D, Q, E>,
    after: Dispatch<S, D, E>,
    work: Work<Q, E>,
)
    requires
        dispatch::answers(event, before.phase),
        exists|d: &mut Dispatch<S, D, E>|
            *d == before && *final(d) == after && #[trigger] call_ensures(
                Dispatch::<S, D, E>::follow::<Q>,
                (d, event),
                work,
            ),
    ensures
        work is Broadcast <==> event is Inner,
        event matches Event::Inner(Ok(polled)) ==> {
            &&& work matches Work::Broadcast(Ok(told))
            &&& told is Ready <==> polled is Ready
            &&& after.phase matches Phase::Broadcast(Ok(kept))
            &&& kept is Ready <==> polled is Ready
        },
        event matches Event::Inner(Err(error)) ==> {
            &&& work matches Work::Broadcast(Err(Failed(told)))
            &&& *told == error
            &&& after.phase matches Phase::Broadcast(Err(kept))
            &&& *kept == error
        },
        event == Event::<D, Q, E>::Broadcast(true) ==> match before.phase {
            Phase::Broadcast(Ok(Poll::Ready(_))) => work is PollQueue && after.phase is PollQueue,
            Phase::Broadcast(Err(error)) => work is PollQueue && after.phase == Phase::Drain(error),
            _ => work matches Work::Return(Poll::Pending),
        },
        work is PollQueue ==> event is Broadcast,
{
}

/// When a poll returns, and when the service is asked again or probed. The task is complete
/// exactly if nobody is left to serve.
pub proof fn law_polls_return<S, D, Q, E>(
    before: Dispatch<S, D, E>,
    event: Event<D, Q, E>,
    after: Dispatch<S, D, E>,
    work: Work<Q, E>,
)
    requires
        dispatch::answers(event, before.phase),
        exists|d: &mut Dispatch<S, D, E>|
            *d == before && *final(d) == after && #[trigger] call_ensures(
                Dispatch::<S, D, E>::follow::<Q>,
                (d, event),
                work,
            ),
    ensures
        work matches Work::Return(Poll::Ready(_)) <==> (event == Event::<D, Q, E>::Closed(true)
            || event == Event::<D, Q, E>::Broadcast(false) || (before.phase is PollQueue && (event
            matches Event::Queue(Poll::Ready(None))))),
        work matches Work::Return(Poll::Pending) <==> ((event == Event::<D, Q, E>::Closed(false)
            && before.inner is None) || (event == Event::<D, Q, E>::Broadcast(true) && (
        before.phase matches Phase::Broadcast(Ok(Poll::Pending)))) || (before.phase is Drain && !(
        event matches Event::Queue(Poll::Ready(Some(_))))) || (event
            matches Event::Probe(_, elapsed) && !elapsed)),
        work is PollInner <==> ((event == Event::<D, Q, E>::Closed(false) && before.inner is Some)
            || (event matches Event::Probe(_, elapsed) && elapsed)),
        work is StartProbe <==> before.phase is PollQueue && (event
            matches Event::Queue(Poll::Pending)),
        work matches Work::StartProbe(timeout) ==> timeout == before.probe_timeout,
        work !is CheckClosed,
        after.phase is Idle <==> work is Return,
        after.phase is PollInner <==> work is PollInner || work is Call,
        after.phase is StartProbe <==> work is StartProbe,
{
}

/// The service is dropped exactly once its failure has reached all queued requests, a timer is
/// kept until it elapses, and nothing else changes.
pub proof fn law_steps_keep<S, D, Q, E>(
    before: Dispatch<S, D, E>,
    event: Event<D, Q, E>,
    after: Dispatch<S, D, E>,
    work: Work<Q, E>,
)
    requires
        dispatch::answers(event, before.phase),
        exists|d: &mut Dispatch<S, D, E>|
            *d == before && *final(d) == after && #[trigger] call_ensures(
                Dispatch::<S, D, E>::follow::<Q>,
                (d, event),
                work,
            ),
    ensures
        after.probe_timeout == before.probe_timeout,
        before.phase is Drain && !(event matches Event::Queue(Poll::Ready(Some(_))))
            ==> after.inner is None,
        !(before.phase is Drain && !(event matches Event::Queue(Poll::Ready(Some(_)))))
            ==> after.inner == before.inner,
        after.probe == match event {
            Event::Probe(timer, false) => Some(timer),
            _ => before.probe,
        },
{
}

/// A poll starts by looking for consumers, and drops the timer. A new dispatch holds its
/// service and polls it within the timeout. So does that of a layer, behind a queue with the
/// layer's capacity.
pub proof fn law_polls_start<S, D, Q, E, Req>(
    inner: S,
    timeout: Duration,
    made: Dispatch<S, D, E>,
    before: Dispatch<S, D, E>,
    after: Dispatch<S, D, E>,
    work: Work<Q, E>,
    capacity: usize,
    layer: SpawnProbeBufferLayer<Req>,
    layered: (usize, Dispatch<S, D, E>),
)
    requires
        call_ensures(Dispatch::<S, D, E>::new, (inner, timeout), made),
        exists|d: &mut Dispatch<S, D, E>|
            *d == before && *final(d) == after && #[trigger] call_ensures(
                Dispatch::<S, D, E>::poll::<Q>,
                (d,),
                work,
            ),
        call_ensures(SpawnProbeBufferLayer::<Req>::new, (capacity, timeout), layer),
        call_ensures(SpawnProbeBufferLayer::<Req>::layer::<S, D, E>, (&layer, inner), layered),
    ensures
        made.inner == Some(inner),
        made.probe_timeout == timeout,
        made.probe is None,
        made.phase is Idle,
        work is CheckClosed,
        after.phase is CheckClosed,
        after.probe is None,
        after.inner == before.inner,
        after.probe_timeout == before.probe_timeout,
        layered.0 == capacity,
        layered.1 == made,
{
}

/// The buffer is ready when its queue is, and closed if the queue fails.
pub proof fn law_buffer_is_ready_with_its_queue<T, X>(
    polled: Poll<Result<(), X>>,
    ready: Poll<Result<(), Closed>>,
)
    requires
        call_ensures(ProbeBuffer::<T>::poll_ready::<X>, (polled,), ready),
    ensures
        ready is Pending <==> polled is Pending,
        ready matches Poll::Ready(Ok(_)) <==> polled matches Poll::Ready(Ok(_)),
{
}

/// A response is the one that was received. An error is that of the service, or that the
/// request was dropped.
pub proof fn law_responses_are_received<R, Rsp, E, X>(
    polled: Poll<Result<Result<Rsp, E>, X>>,
    response: Poll<Result<Rsp, ResponseError<E>>>,
)
    requires
        call_ensures(ResponseFuture::<R>::poll::<Rsp, E, X>, (polled,), response),
    ensures
        response is Pending <==> polled is Pending,
        response matches Poll::Ready(Ok(received)) ==> polled == Poll::Ready(
            Ok::<Result<Rsp, E>, X>(Ok(received)),
        ),
        response matches Poll::Ready(Err(ResponseError::Service(error))) ==> polled == Poll::Ready(
            Ok::<Result<Rsp, E>, X>(Err(error)),
        ),
        response matches Poll::Ready(Err(ResponseError::Closed(_))) <==> polled matches Poll::Ready(
            Err(_),
        ),
{
}

/// Each outcome of the work that a dispatch asks for is accepted.
pub proof fn law_outcomes_are_accepted<S, D, Q, E>(
    before: Dispatch<S, D, E>,
    event: Event<D, Q, E>,
)
    requires
        match event {
            Event::Closed(_) => before.phase is CheckClosed,
            Event::Inner(_) => before.phase is PollInner,
            Event::Broadcast(_) => before.phase is Broadcast,
            Event::Queue(_) => before.phase is PollQueue || before.phase is Drain,
            Event::Probe(..) => before.phase is StartProbe,
        },
    ensures
        forall|d: &mut Dispatch<S, D, E>|
            *d == before ==> #[trigger] call_requires(
                Dispatch::<S, D, E>::follow::<Q>,
                (d, event),
            ),
{
}

/// A clone of a buffer sends to the same queue, and a clone of a layer has the same settings.
pub proof fn law_clones_are_the_same<T: Clone, Req>(
    tx: T,
    buffer: ProbeBuffer<T>,
    copy: ProbeBuffer<T>,
    layer: SpawnProbeBufferLayer<Req>,
    other: SpawnProbeBufferLayer<Req>,
    closed: Closed,
    message: String,
)
    requires
        call_ensures(ProbeBuffer::<T>::new, (tx,), buffer),
        call_ensures(ProbeBuffer::<T>::clone, (&buffer,), copy),
        call_ensures(SpawnProbeBufferLayer::<Req>::clone, (&layer,), other),
        call_ensures(Closed::message, (&closed,), message),
    ensures
        buffer.tx == tx,
        cloned(tx, copy.tx),
        other.capacity == layer.capacity,
        other.probe_timeout == layer.probe_timeout,
        message@ == "Closed"@,
{
}

} // verus!
