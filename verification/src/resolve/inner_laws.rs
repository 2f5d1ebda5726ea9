//! What holds of a connection as it is driven forward.

use crate::poll::Poll;
use crate::resolve::inner::{self, Connected, Event, Inner, Outcome, State, Work};
use vstd::prelude::*;

verus! {

/// The backoff that a connection holds.
pub open spec fn backoff_of<F, R, B, X>(state: State<F, R, B, X>) -> Option<B> {
    match state {
        State::Disconnected { backoff } => backoff,
        State::Connecting { backoff, .. } => backoff,
        State::Connected { inner: Connected::Pending { backoff }, .. } => backoff,
        State::Connected { inner: Connected::Connected { .. }, .. } => None,
        State::Recover { backoff, .. } => backoff,
        State::Backoff(backoff) => backoff,
    }
}

/// Whether `event` brings the first update of a resolution.
pub open spec fn brings_update<F, R, B, X>(event: Event<F, R, B, X>) -> bool {
    event matches Event::FirstUpdate(Poll::Ready(Ok(_)))
}

/// Whether `event` says that a backoff has ended for good.
pub open spec fn exhausts_backoff<F, R, B, X>(event: Event<F, R, B, X>) -> bool {
    event matches Event::BackedOff(Poll::Ready(None))
}

/// The error that `event` ends a connection with.
pub open spec fn fatal<F, R, B, X>(event: Event<F, R, B, X>) -> Option<X> {
    match event {
        Event::Requested(Poll::Ready(Err(error))) => Some(error),
        Event::Recovery(Err(error)) => Some(error),
        Event::BackedOff(Poll::Ready(Some(Err(error)))) => Some(error),
        _ => None,
    }
}

/// A backoff that is under way is kept over repeated failures, until the first update shows
/// that the resolution works or the backoff is exhausted.
pub proof fn law_backoff_is_kept<F, R, B, X>(state: State<F, R, B, X>, event: Event<F, R, B, X>)
    requires
        inner::answers(event, inner::work_of(state)),
        !brings_update(event),
        !exhausts_backoff(event),
    ensures
        backoff_of(state) is Some ==> backoff_of(inner::followed(state, event).0) == backoff_of(
            state,
        ),
        backoff_of(state) is None && !(event matches Event::Recovery(Ok(_))) ==> backoff_of(
            inner::followed(state, event).0,
        ) is None,
{
}

/// A connection is established only by the first update of its resolution, which it then
/// holds. Its backoff is given up.
pub proof fn law_connected_by_first_update<F, R, B, X>(
    state: State<F, R, B, X>,
    event: Event<F, R, B, X>,
)
    requires
        inner::answers(event, inner::work_of(state)),
    ensures
        inner::work_of(inner::followed(state, event).0) is Done <==> brings_update(event),
        event matches Event::FirstUpdate(Poll::Ready(Ok(update))) ==> {
            let next = inner::followed(state, event).0;
            &&& next matches State::Connected { resolution, inner: Connected::Connected { initial } }
            &&& initial == Some(update)
            &&& backoff_of(next) is None
        },
{
}

/// An error is returned only if the resolver is not usable, if the policy does not recover
/// from a failure, or if a backoff fails.
pub proof fn law_errors_returned<F, R, B, X>(state: State<F, R, B, X>, event: Event<F, R, B, X>)
    requires
        inner::answers(event, inner::work_of(state)),
    ensures
        match fatal(event) {
            Some(error) => inner::followed(state, event).1 == Some(
                Poll::<Result<(), X>>::Ready(Err(error)),
            ),
            None => !(inner::followed(state, event).1 matches Some(Poll::Ready(_))),
        },
{
}

/// A failure of the request, or of the resolution before its first update, is handed to the
/// recovery policy.
pub proof fn law_failures_are_recovered<F, R, B, X>(
    state: State<F, R, B, X>,
    event: Event<F, R, B, X>,
    failure: X,
)
    requires
        inner::answers(event, inner::work_of(state)),
        event == Event::<F, R, B, X>::Resolved(Poll::Ready(Err(failure))) || event == Event::<
            F,
            R,
            B,
            X,
        >::FirstUpdate(Poll::Ready(Err(failure))),
    ensures
        inner::followed(state, event) == (
            State::<F, R, B, X>::Recover { error: Some(failure), backoff: backoff_of(state) },
            None::<Poll<Result<(), X>>>,
        ),
{
}

/// While the outside work is not done, nothing changes.
pub proof fn law_pending_changes_nothing<F, R, B, X>(
    state: State<F, R, B, X>,
    event: Event<F, R, B, X>,
)
    requires
        inner::answers(event, inner::work_of(state)),
        inner::followed(state, event).1 == Some(Poll::<Result<(), X>>::Pending),
    ensures
        inner::followed(state, event).0 == state,
{
}

/// Whether `event` says that the outside work is not done yet.
pub open spec fn not_done<F, R, B, X>(event: Event<F, R, B, X>) -> bool {
    match event {
        Event::Requested(polled) => polled is Pending,
        Event::Resolved(polled) => polled is Pending,
        Event::FirstUpdate(polled) => polled is Pending,
        Event::Recovery(_) => false,
        Event::BackedOff(polled) => polled is Pending,
    }
}

/// While what is waited for is not there, a connection keeps its request or resolution and all
/// else, and waits. It waits in no other case.
pub proof fn law_waits_for_what_is_not_done<F, R, B, X>(
    state: State<F, R, B, X>,
    event: Event<F, R, B, X>,
    next: (State<F, R, B, X>, Outcome<X>),
)
    requires
        inner::answers(event, inner::work_of(state)),
        call_ensures(State::<F, R, B, X>::follow, (state, event), next),
    ensures
        not_done(event) ==> next.0 == state,
        not_done(event) <==> next.1 == Some(Poll::<Result<(), X>>::Pending),
{
}

/// What a connection is after a step tells how it got there: a request is only polled after it
/// was made, a resolution only after its request gave it, the policy is only asked about a
/// failure, and a resolution is only requested anew after a backoff.
pub proof fn law_connection_comes_from<F, R, B, X>(
    state: State<F, R, B, X>,
    event: Event<F, R, B, X>,
    next: (State<F, R, B, X>, Outcome<X>),
)
    requires
        inner::answers(event, inner::work_of(state)),
        call_ensures(State::<F, R, B, X>::follow, (state, event), next),
        next.0 != state,
    ensures
        match next.0 {
            State::Disconnected { .. } => state is Backoff && (event == Event::<
                F,
                R,
                B,
                X,
            >::BackedOff(Poll::Ready(None)) || event matches Event::BackedOff(
                Poll::Ready(Some(Ok(_))),
            )),
            State::Connecting { future, .. } => state is Disconnected && event == Event::<
                F,
                R,
                B,
                X,
            >::Requested(Poll::Ready(Ok(future))),
            State::Connected { resolution, inner: Connected::Pending { .. } } => state is Connecting
                && event == Event::<F, R, B, X>::Resolved(Poll::Ready(Ok(resolution))),
            State::Connected { resolution, inner: Connected::Connected { initial } } => {
                &&& state matches State::Connected { resolution: before, inner: Connected::Pending { .. } }
                &&& before == resolution
                &&& initial matches Some(update)
                &&& event == Event::<F, R, B, X>::FirstUpdate(Poll::Ready(Ok(update)))
            },
            State::Recover { error: Some(error), .. } => (state is Connecting && event == Event::<
                F,
                R,
                B,
                X,
            >::Resolved(Poll::Ready(Err(error)))) || (state is Connected && event == Event::<
                F,
                R,
                B,
                X,
            >::FirstUpdate(Poll::Ready(Err(error)))),
            State::Recover { error: None, .. } => state is Recover && event matches Event::Recovery(
                Err(_),
            ),
            State::Backoff(kept) => state is Recover && kept is Some && event
                matches Event::Recovery(Ok(_)),
        },
{
}

/// What is done when outside work is done: a request that was made is polled, the resolution
/// that it gave is polled for its first update, a recovery is backed off, and after the backoff
/// a resolution is requested. The connection is driven on until then.
pub proof fn law_connection_goes_on<F, R, B, X>(
    state: State<F, R, B, X>,
    event: Event<F, R, B, X>,
    next: (State<F, R, B, X>, Outcome<X>),
)
    requires
        inner::answers(event, inner::work_of(state)),
        call_ensures(State::<F, R, B, X>::follow, (state, event), next),
    ensures
        event matches Event::Requested(Poll::Ready(Ok(made))) ==> next.1 is None && (next.0
            matches State::Connecting { future, .. } && future == made),
        event matches Event::Resolved(Poll::Ready(Ok(given))) ==> next.1 is None && (next.0
            matches State::Connected { resolution, inner: Connected::Pending { .. } } && resolution
            == given),
        event matches Event::FirstUpdate(Poll::Ready(Ok(update))) ==> next.1 is None && (next.0
            matches State::Connected { inner: Connected::Connected { initial }, .. } && initial
            == Some(update)),
        event matches Event::Resolved(Poll::Ready(Err(failure))) ==> next.1 is None && (next.0
            matches State::Recover { error, .. } && error == Some(failure)),
        event matches Event::FirstUpdate(Poll::Ready(Err(failure))) ==> next.1 is None && (next.0
            matches State::Recover { error, .. } && error == Some(failure)),
        event matches Event::Recovery(Ok(_)) ==> next.1 is None && (next.0 matches State::Backoff(
            kept,
        ) && kept is Some),
        event matches Event::BackedOff(Poll::Ready(Some(Ok(_)))) ==> next.1 is None && next.0
            is Disconnected,
        event == Event::<F, R, B, X>::BackedOff(Poll::Ready(None)) ==> next.1 is None && next.0
            is Disconnected,
{
}

/// An error that a connection cannot go on after is returned, with the connection as it was but
/// for the failure that the policy was asked about. No other error is returned, and a
/// connection never says by itself that it is connected.
pub proof fn law_fatal_errors_are_returned<F, R, B, X>(
    state: State<F, R, B, X>,
    event: Event<F, R, B, X>,
    next: (State<F, R, B, X>, Outcome<X>),
    error: X,
)
    requires
        inner::answers(event, inner::work_of(state)),
        call_ensures(State::<F, R, B, X>::follow, (state, event), next),
    ensures
        next.1 == Some(Poll::<Result<(), X>>::Ready(Err(error))) <==> (event == Event::<
            F,
            R,
            B,
            X,
        >::Requested(Poll::Ready(Err(error))) || event == Event::<F, R, B, X>::Recovery(Err(error))
            || event == Event::<F, R, B, X>::BackedOff(Poll::Ready(Some(Err(error))))),
        !(next.1 matches Some(Poll::Ready(Ok(_)))),
        next.1 is Some && state !is Recover ==> next.0 == state,
        event matches Event::Recovery(Err(_)) ==> next.0 == (State::<F, R, B, X>::Recover {
            error: None,
            backoff: backoff_of(state),
        }),
{
}

/// From the first failure to the first update, and until it is exhausted, one backoff is used:
/// the one that the policy gave first.
pub proof fn law_one_backoff_is_used<F, R, B, X>(
    state: State<F, R, B, X>,
    event: Event<F, R, B, X>,
    next: (State<F, R, B, X>, Outcome<X>),
)
    requires
        inner::answers(event, inner::work_of(state)),
        call_ensures(State::<F, R, B, X>::follow, (state, event), next),
    ensures
        brings_update(event) || exhausts_backoff(event) ==> backoff_of(next.0) is None,
        !brings_update(event) && !exhausts_backoff(event) ==> match backoff_of(state) {
            Some(backoff) => backoff_of(next.0) == Some(backoff),
            None => match event {
                Event::Recovery(Ok(backoff)) => backoff_of(next.0) == Some(backoff),
                _ => backoff_of(next.0) is None,
            },
        },
{
}

/// The work that a connection asks for is that which its state waits for, and an established
/// connection asks for none.
pub proof fn law_work_fits_the_state<F, R, B, X>(state: State<F, R, B, X>, work: Work)
    requires
        call_ensures(State::<F, R, B, X>::work, (&state,), work),
    ensures
        work is RequestResolution <==> state is Disconnected,
        work is PollRequest <==> state is Connecting,
        work is PollFirstUpdate <==> (state matches State::Connected {
            inner: Connected::Pending { .. },
            ..
        }),
        work is Done <==> (state matches State::Connected {
            inner: Connected::Connected { .. },
            ..
        }),
        work is AskRecovery <==> state is Recover,
        work is PollBackoff <==> state is Backoff,
        forall|event: Event<F, R, B, X>| #[trigger]
            inner::answers(event, work) <==> match event {
                Event::Requested(_) => state is Disconnected,
                Event::Resolved(_) => state is Connecting,
                Event::FirstUpdate(_) => state matches State::Connected {
                    inner: Connected::Pending { .. },
                    ..
                },
                Event::Recovery(_) => state is Recover,
                Event::BackedOff(_) => state is Backoff,
            },
{
}

/// Driving a connection takes the step of its state, and says that it is connected exactly if
/// nothing is left to do. The target, the resolver and the policy stay.
pub proof fn law_driving_takes_the_step<T, V, E, F, R, B, X>(
    before: Inner<T, V, E, F, R, B, X>,
    event: Option<Event<F, R, B, X>>,
    after: Inner<T, V, E, F, R, B, X>,
    outcome: Outcome<X>,
)
    requires
        match event {
            Some(event) => inner::answers(event, inner::work_of(before.state)),
            None => inner::work_of(before.state) is Done,
        },
        exists|inner: &mut Inner<T, V, E, F, R, B, X>|
            *inner == before && *final(inner) == after && #[trigger] call_ensures(
                Inner::<T, V, E, F, R, B, X>::poll_connected,
                (inner, event),
                outcome,
            ),
    ensures
        after.target == before.target,
        after.resolve == before.resolve,
        after.recover == before.recover,
        outcome matches Some(Poll::Ready(Ok(_))) <==> event is None,
        event is None ==> after.state == before.state,
        event matches Some(event) ==> (not_done(event) ==> after.state == before.state && outcome
            == Some(Poll::<Result<(), X>>::Pending)),
        event matches Some(event) ==> (outcome == Some(Poll::<Result<(), X>>::Pending)
            ==> not_done(event)),
        // It is connected after the first update, and only then.
        event matches Some(event) ==> (inner::work_of(after.state) is Done <==> brings_update(
            event,
        )),
        after.state is Disconnected ==> before.state is Disconnected || before.state is Backoff,
{
}

/// The error that the policy is asked about is the one that a connection failed with. It is
/// taken out once.
pub proof fn law_failure_is_taken_once<T, V, E, F, R, B, X>(
    before: Inner<T, V, E, F, R, B, X>,
    after: Inner<T, V, E, F, R, B, X>,
    failure: X,
    error: X,
)
    requires
        before.state matches State::Recover { error, .. } && error == Some(failure),
        exists|inner: &mut Inner<T, V, E, F, R, B, X>|
            *inner == before && *final(inner) == after && #[trigger] call_ensures(
                Inner::<T, V, E, F, R, B, X>::take_error,
                (inner,),
                error,
            ),
    ensures
        error == failure,
        after.state matches State::Recover { error, .. } && error is None,
        backoff_of(after.state) == backoff_of(before.state),
        after.target == before.target,
        after.resolve == before.resolve,
        after.recover == before.recover,
{
}

/// Whether a connection in `state` is in `next` after `event`, and `outcome` is returned: done
/// work leads to the work that comes next with the backoff that there is, a failure to the
/// policy, and what is not done leaves all as it is.
pub open spec fn is_step<F, R, B, X>(
    state: State<F, R, B, X>,
    event: Event<F, R, B, X>,
    next: State<F, R, B, X>,
    outcome: Outcome<X>,
) -> bool {
    match event {
        Event::Requested(Poll::Ready(Ok(made))) => {
            &&& outcome is None
            &&& next matches State::Connecting { future, backoff }
            &&& future == made
            &&& backoff == backoff_of(state)
        },
        Event::Resolved(Poll::Ready(Ok(given))) => {
            &&& outcome is None
            &&& next matches State::Connected { resolution, inner: Connected::Pending { backoff } }
            &&& resolution == given
            &&& backoff == backoff_of(state)
        },
        Event::FirstUpdate(Poll::Ready(Ok(update))) => {
            &&& outcome is None
            &&& state matches State::Connected { resolution: before, .. }
            &&& next matches State::Connected {
                resolution,
                inner: Connected::Connected { initial },
            }
            &&& resolution == before
            &&& initial == Some(update)
        },
        Event::Resolved(Poll::Ready(Err(failure)))
        | Event::FirstUpdate(Poll::Ready(Err(failure))) => {
            &&& outcome is None
            &&& next matches State::Recover { error, backoff }
            &&& error == Some(failure)
            &&& backoff == backoff_of(state)
        },
        Event::Recovery(Ok(fresh)) => {
            &&& outcome is None
            &&& next matches State::Backoff(kept)
            &&& kept == if backoff_of(state) is Some {
                backoff_of(state)
            } else {
                Some(fresh)
            }
        },
        Event::BackedOff(Poll::Ready(Some(Ok(_)))) => {
            &&& outcome is None
            &&& next matches State::Disconnected { backoff }
            &&& backoff == backoff_of(state)
        },
        Event::BackedOff(Poll::Ready(None)) => {
            &&& outcome is None
            &&& next matches State::Disconnected { backoff }
            &&& backoff is None
        },
        Event::Recovery(Err(failure)) => {
            &&& outcome matches Some(Poll::Ready(Err(error)))
            &&& error == failure
            &&& next matches State::Recover { error: left, backoff }
            &&& left is None
            &&& backoff == backoff_of(state)
        },
        Event::Requested(Poll::Ready(Err(failure)))
        | Event::BackedOff(Poll::Ready(Some(Err(failure)))) => {
            &&& outcome matches Some(Poll::Ready(Err(error)))
            &&& error == failure
            &&& next == state
        },
        _ => (outcome matches Some(Poll::Pending)) && next == state,
    }
}

/// Driving a connection takes it from each piece of work to the one that comes next.
pub proof fn law_driving_goes_on<T, V, E, F, R, B, X>(
    before: Inner<T, V, E, F, R, B, X>,
    event: Event<F, R, B, X>,
    after: Inner<T, V, E, F, R, B, X>,
    outcome: Outcome<X>,
)
    requires
        inner::answers(event, inner::work_of(before.state)),
        exists|inner: &mut Inner<T, V, E, F, R, B, X>|
            *inner == before && *final(inner) == after && #[trigger] call_ensures(
                Inner::<T, V, E, F, R, B, X>::poll_connected,
                (inner, Some(event)),
                outcome,
            ),
    ensures
        is_step(before.state, event, after.state, outcome),
{
}

/// Each outcome of the work that a connection asks for is accepted.
pub proof fn law_outcomes_are_accepted<T, V, E, F, R, B, X>(
    before: Inner<T, V, E, F, R, B, X>,
    event: Event<F, R, B, X>,
)
    requires
        match event {
            Event::Requested(_) => before.state is Disconnected,
            Event::Resolved(_) => before.state is Connecting,
            Event::FirstUpdate(_) => before.state matches State::Connected {
                inner: Connected::Pending { .. },
                ..
            },
            Event::Recovery(_) => before.state is Recover,
            Event::BackedOff(_) => before.state is Backoff,
        },
    ensures
        call_requires(State::<F, R, B, X>::follow, (before.state, event)),
        forall|inner: &mut Inner<T, V, E, F, R, B, X>|
            *inner == before ==> #[trigger] call_requires(
                Inner::<T, V, E, F, R, B, X>::poll_connected,
                (inner, Some(event)),
            ),
{
}

} // verus!
