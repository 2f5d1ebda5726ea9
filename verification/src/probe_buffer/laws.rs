//! What holds of a dispatch whatever happens around it.

use super::dispatch::{self, Dispatch, Event, Phase, Work};
use super::error::Failed;
use crate::poll::Poll;
use std::sync::Arc;
use vstd::prelude::*;

verus! {

/// What every step keeps: while the service is polled or called it is there, and there is a
/// probe only between polls.
pub open spec fn wf<S, D, E>(dispatch: Dispatch<S, D, E>) -> bool {
    &&& dispatch.phase !is Idle ==> dispatch.probe is None
    &&& dispatch.phase !is Idle && dispatch.phase !is CheckClosed ==> dispatch.inner is Some
}

/// A step keeps what holds of a dispatch. A probe is left only where the poll returns.
pub proof fn law_steps_keep_wf<S, D, Q, E>(
    dispatch: Dispatch<S, D, E>,
    event: Event<D, Q, E>,
)
    requires
        wf(dispatch),
        dispatch::answers(event, dispatch.phase),
    ensures
        wf(dispatch::followed(dispatch, event).0),
        dispatch::followed(dispatch, event).0.phase is Idle <==> dispatch::followed(
            dispatch,
            event,
        ).1 is Return,
        dispatch::followed(dispatch, event).0.probe is Some ==> dispatch::followed(
            dispatch,
            event,
        ).1 == Work::<Q, E>::Return(Poll::Pending),
{
}

/// The task completes only when nobody is left to serve.
pub proof fn law_completes_when_unused<S, D, Q, E>(
    dispatch: Dispatch<S, D, E>,
    event: Event<D, Q, E>,
)
    requires
        dispatch::answers(event, dispatch.phase),
    ensures
        dispatch::followed(dispatch, event).1 == Work::<Q, E>::Return(Poll::Ready(())) <==> (event
            == Event::<D, Q, E>::Closed(true) || event == Event::<D, Q, E>::Broadcast(false) || (
        dispatch.phase is PollQueue && event == Event::<D, Q, E>::Queue(Poll::Ready(None)))),
{
}

/// Whether consumers are to be told that the service is ready.
pub open spec fn told_ready<E>(phase: Phase<E>) -> bool {
    phase matches Phase::Broadcast(Ok(Poll::Ready(_)))
}

/// The service is called only after it said that it is ready, and is asked again before the
/// next call.
pub proof fn law_calls_only_when_ready<S, D, Q, E>(
    dispatch: Dispatch<S, D, E>,
    event: Event<D, Q, E>,
)
    requires
        dispatch::answers(event, dispatch.phase),
    ensures
        ({
            let (next, work) = dispatch::followed(dispatch, event);
            &&& work is Call ==> dispatch.phase is PollQueue && next.phase is PollInner
            &&& next.phase is PollQueue ==> told_ready(dispatch.phase)
            &&& told_ready(next.phase) ==> (event matches Event::Inner(Ok(Poll::Ready(_))))
        }),
{
}

/// Once the service failed and consumers were told, every request that is queued is answered
/// with the error, and then the service is dropped.
pub proof fn law_failure_reaches_queued_requests<S, D, Q, E>(
    dispatch: Dispatch<S, D, E>,
    error: Arc<E>,
    polled: Poll<Option<Q>>,
)
    requires
        dispatch.phase == Phase::<E>::Drain(error),
    ensures
        match polled {
            Poll::Ready(Some(request)) => dispatch::followed(
                dispatch,
                Event::<D, Q, E>::Queue(polled),
            ) == (dispatch, Work::<Q, E>::Fail(request, Failed(error))),
            _ => {
                let (next, work) = dispatch::followed(dispatch, Event::<D, Q, E>::Queue(polled));
                &&& next.inner is None
                &&& work == Work::<Q, E>::Return(Poll::Pending)
            },
        },
{
}

/// Once the service is dropped, the task does nothing but wait until all consumers are gone.
pub proof fn law_failed_task_waits<S, D, Q, E>(dispatch: Dispatch<S, D, E>, closed: bool)
    requires
        dispatch.inner is None,
        dispatch.phase is CheckClosed,
    ensures
        dispatch::followed(dispatch, Event::<D, Q, E>::Closed(closed)) == (
            Dispatch { phase: Phase::<E>::Idle, ..dispatch },
            Work::<Q, E>::Return(
                if closed {
                    Poll::Ready(())
                } else {
                    Poll::Pending
                },
            ),
        ),
{
}

/// While there are no requests a ready service is polled again after the probe timeout, at
/// once if that has elapsed already.
pub proof fn law_idle_service_is_probed<S, D, Q, E>(
    dispatch: Dispatch<S, D, E>,
    delay: D,
    elapsed: bool,
)
    requires
        dispatch.phase is PollQueue,
    ensures
        ({
            let (next, work) = dispatch::followed(
                dispatch,
                Event::<D, Q, E>::Queue(Poll::Pending),
            );
            let (last, after) = dispatch::followed(
                next,
                Event::<D, Q, E>::Probe(delay, elapsed),
            );
            &&& work == Work::<Q, E>::StartProbe(dispatch.probe_timeout)
            &&& elapsed ==> after == Work::<Q, E>::PollInner
            &&& !elapsed ==> after == Work::<Q, E>::Return(Poll::Pending) && last.probe == Some(
                delay,
            )
        }),
{
}

} // verus!
