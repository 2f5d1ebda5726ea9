//! The stream of profiles of a service, over failures of the control plane.
//!
//! The control plane and the backoff are driven from outside.

use vstd::prelude::*;

verus! {

/// How far a stream of profiles is. `B` is a backoff and `T` a stream of updates.
pub enum Phase<T> {
    /// The backoff is to be waited for.
    Backoff,
    /// The profile is to be requested.
    Request,
    /// The recovery policy is to be asked about the failure of a request.
    Recover,
    /// The next update is to be waited for.
    Updates(T),
    /// The stream has ended with an error.
    Failed,
}

/// A stream of profiles.
pub struct Profiles<B, T> {
    pub backoff: Option<B>,
    pub phase: Phase<T>,
}

/// The outcome of outside work.
pub enum Event<B, T, U, X> {
    /// The backoff has passed.
    BackedOff,
    /// The reply to the request.
    Replied(Result<T, X>),
    /// A new backoff, or the error if the failure cannot be recovered from.
    Recovery(Result<B, X>),
    /// The next update, if there is one.
    Update(Option<Result<U, X>>),
}

/// What comes of an event.
pub enum Item<U, X> {
    /// Nothing, and the stream goes on.
    Nothing,
    /// The request failed, and the recovery policy is to be asked about this error.
    Ask(X),
    /// The stream yields an update.
    Yield(U),
    /// The stream ends with an error.
    Fail(X),
}

/// Whether `event` is an outcome of the work that `phase` asks for.
pub open spec fn answers<B, T, U, X>(event: Event<B, T, U, X>, phase: Phase<T>) -> bool {
    match event {
        Event::BackedOff => phase is Backoff,
        Event::Replied(_) => phase is Request,
        Event::Recovery(_) => phase is Recover,
        Event::Update(_) => phase is Updates,
    }
}

/// The phase that a request starts with: a backoff that exists is waited for first.
pub open spec fn restarted<B, T>(backoff: Option<B>) -> Phase<T> {
    if backoff is Some {
        Phase::Backoff
    } else {
        Phase::Request
    }
}

/// The stream after `event`, and what comes of it.
pub open spec fn followed<B, T, U, X>(
    profiles: Profiles<B, T>,
    event: Event<B, T, U, X>,
) -> (Profiles<B, T>, Item<U, X>)
    recommends
        answers(event, profiles.phase),
{
    let backoff = profiles.backoff;
    match event {
        Event::BackedOff => (Profiles { phase: Phase::Request, ..profiles }, Item::Nothing),
        Event::Replied(Ok(updates)) => (
            Profiles { phase: Phase::Updates(updates), ..profiles },
            Item::Nothing,
        ),
        Event::Replied(Err(error)) => (
            Profiles { phase: Phase::Recover, ..profiles },
            Item::Ask(error),
        ),
        Event::Recovery(Ok(new_backoff)) => {
            // A backoff that exists is reused.
            let kept = match backoff {
                Some(backoff) => backoff,
                None => new_backoff,
            };
            (Profiles { backoff: Some(kept), phase: Phase::Backoff }, Item::Nothing)
        },
        Event::Recovery(Err(error)) => (
            Profiles { phase: Phase::Failed, ..profiles },
            Item::Fail(error),
        ),
        Event::Update(Some(Ok(update))) => (profiles, Item::Yield(update)),
        Event::Update(Some(Err(error))) => (
            Profiles { phase: Phase::Failed, ..profiles },
            Item::Fail(error),
        ),
        Event::Update(None) => (
            Profiles { phase: restarted(backoff), ..profiles },
            Item::Nothing,
        ),
    }
}

impl<B, T> Profiles<B, T> {
    /// A stream that starts with a request.
    pub fn new() -> (profiles: Self)
        ensures
            profiles == (Profiles::<B, T> { backoff: None, phase: Phase::Request }),
    {
        Profiles { backoff: None, phase: Phase::Request }
    }

    /// Goes on with the outcome of outside work.
    pub fn follow<U, X>(&mut self, event: Event<B, T, U, X>) -> (item: Item<U, X>)
        requires
            answers(event, old(self).phase),
        ensures
            (*final(self), item) == followed(*old(self), event),
    {
        match event {
            Event::BackedOff => {
                self.phase = Phase::Request;
                Item::Nothing
            },
            Event::Replied(Ok(updates)) => {
                self.phase = Phase::Updates(updates);
                Item::Nothing
            },
            Event::Replied(Err(error)) => {
                self.phase = Phase::Recover;
                Item::Ask(error)
            },
            Event::Recovery(Ok(new_backoff)) => {
                if self.backoff.is_none() {
                    self.backoff = Some(new_backoff);
                }
                self.phase = Phase::Backoff;
                Item::Nothing
            },
            Event::Recovery(Err(error)) => {
                self.phase = Phase::Failed;
                Item::Fail(error)
            },
            Event::Update(Some(Ok(update))) => Item::Yield(update),
            Event::Update(Some(Err(error))) => {
                self.phase = Phase::Failed;
                Item::Fail(error)
            },
            Event::Update(None) => {
                self.phase = if self.backoff.is_some() {
                    Phase::Backoff
                } else {
                    Phase::Request
                };
                Item::Nothing
            },
        }
    }
}

/// A backoff is never given up for another one, and once there is one the stream waits for it
/// before each request.
pub proof fn law_backoff_is_reused<B, T, U, X>(
    profiles: Profiles<B, T>,
    event: Event<B, T, U, X>,
)
    requires
        answers(event, profiles.phase),
    ensures
        ({
            let (next, item) = followed(profiles, event);
            &&& profiles.backoff is Some ==> next.backoff == profiles.backoff
            &&& profiles.backoff is Some && next.phase is Request ==> event is BackedOff
        }),
{
}

/// The stream ends only with an error: of an update, or one that the policy does not recover
/// from.
pub proof fn law_ends_with_error<B, T, U, X>(
    profiles: Profiles<B, T>,
    event: Event<B, T, U, X>,
)
    requires
        answers(event, profiles.phase),
    ensures
        ({
            let (next, item) = followed(profiles, event);
            &&& next.phase is Failed <==> item is Fail
            &&& item is Fail <==> (event matches Event::Recovery(Err(_)) || event
                matches Event::Update(Some(Err(_))))
        }),
{
}

} // verus!
