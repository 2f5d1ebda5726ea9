//! Falling back to another service when one fails.
//!
//! Both services are driven from outside.

use crate::poll::Poll;
use vstd::prelude::*;

verus! {

/// One of two things.
#[derive(Debug)]
pub enum Either<A, B> {
    A(A),
    B(B),
}

/// When it is fallen back.
#[derive(Debug)]
pub enum Predicate<P> {
    /// On every error.
    Always,
    /// On errors that the predicate holds of.
    When(P),
    /// On errors of a certain type, or whose source is.
    OnError,
}

/// How an error relates to the type of errors that it is fallen back on.
#[derive(Clone, Copy, Debug, PartialEq, Eq, Structural)]
pub struct ErrorKind {
    /// Whether the error is of that type.
    pub is: bool,
    /// Whether its source is of that type, if it has one.
    pub source_is: Option<bool>,
}

/// Composes two service builders: if what the primary builder makes fails with an error that
/// the predicate holds of, the fallback is used.
#[derive(Debug)]
pub struct FallbackLayer<F, P> {
    pub fallback: F,
    pub predicate: Predicate<P>,
}

/// Uses `fallback` when `inner` fails.
#[derive(Debug)]
pub struct Fallback<I, F, P> {
    pub inner: I,
    pub fallback: F,
    pub predicate: Predicate<P>,
}

/// Waits for one service, then for the other.
#[derive(Debug)]
pub enum MakeFuture<A, B, P> {
    A {
        a: A,
        b: Option<B>,
        predicate: Predicate<P>,
    },
    B(B),
}

/// The outcome of polling a service.
#[derive(Debug)]
pub enum Event<X, Y, E> {
    A(Poll<Result<X, (E, ErrorKind)>>),
    B(Poll<Result<Y, E>>),
}

/// What comes next.
#[derive(Debug)]
pub enum Step<A, B, P, X, Y, E> {
    /// Go on with this state.
    Next(MakeFuture<A, B, P>),
    /// Wait, then go on with this state.
    Pending(MakeFuture<A, B, P>),
    /// The outcome.
    Done(Result<Either<X, Y>, E>),
}

/// Whether an error is of the type that it is fallen back on, or its source is.
pub open spec fn concerns(kind: ErrorKind) -> bool {
    kind.is || kind.source_is == Some(true)
}

/// Whether `predicate` may say `falls` of `error`.
pub open spec fn says<E, P: Fn(&E) -> bool>(
    predicate: Predicate<P>,
    error: E,
    kind: ErrorKind,
    falls: bool,
) -> bool {
    match predicate {
        Predicate::Always => falls,
        Predicate::OnError => falls == concerns(kind),
        Predicate::When(predicate) => call_ensures(predicate, (&error,), falls),
    }
}

/// Whether `predicate` can be asked about any error.
pub open spec fn total<E, P: Fn(&E) -> bool>(predicate: Predicate<P>) -> bool {
    predicate matches Predicate::When(predicate) ==> forall|error: E| #[trigger]
        call_requires(predicate, (&error,))
}

impl<P> Predicate<P> {
    /// Whether it is fallen back on `error`.
    pub fn falls_back<E>(&self, error: &E, kind: ErrorKind) -> (falls: bool) where
        P: Fn(&E) -> bool,

        requires
            total::<E, P>(*self),
        ensures
            says(*self, *error, kind, falls),
    {
        match self {
            Predicate::Always => true,
            Predicate::OnError => kind.is || match kind.source_is {
                Some(is) => is,
                None => false,
            },
            Predicate::When(predicate) => {
                assert(call_requires(*predicate, (error,)));
                predicate(error)
            },
        }
    }
}

impl<F, P> FallbackLayer<F, P> {
    /// Falls back on every error.
    pub fn new(fallback: F) -> (layer: Self)
        ensures
            layer == (FallbackLayer::<F, P> { fallback, predicate: Predicate::Always }),
    {
        FallbackLayer { fallback, predicate: Predicate::Always }
    }

    /// Falls back on errors that `predicate` holds of.
    pub fn with_predicate<Q>(self, predicate: Q) -> (layer: FallbackLayer<F, Q>)
        ensures
            layer == (FallbackLayer {
                fallback: self.fallback,
                predicate: Predicate::When(predicate),
            }),
    {
        FallbackLayer { fallback: self.fallback, predicate: Predicate::When(predicate) }
    }

    /// Falls back on errors of a certain type, or whose source is.
    pub fn on_error(self) -> (layer: Self)
        ensures
            layer == (FallbackLayer::<F, P> {
                fallback: self.fallback,
                predicate: Predicate::OnError,
            }),
    {
        FallbackLayer { fallback: self.fallback, predicate: Predicate::OnError }
    }
}

/// Whether `b` is a clone of `a`.
pub open spec fn cloned_predicate<P: Clone>(a: Predicate<P>, b: Predicate<P>) -> bool {
    match (a, b) {
        (Predicate::Always, Predicate::Always) => true,
        (Predicate::OnError, Predicate::OnError) => true,
        (Predicate::When(a), Predicate::When(b)) => cloned(a, b),
        _ => false,
    }
}

impl<P: Clone> Clone for Predicate<P> {
    fn clone(&self) -> (copy: Self)
        ensures
            cloned_predicate(*self, copy),
    {
        match self {
            Predicate::Always => Predicate::Always,
            Predicate::OnError => Predicate::OnError,
            Predicate::When(predicate) => Predicate::When(predicate.clone()),
        }
    }
}

impl<F: Clone, P: Clone> FallbackLayer<F, P> {
    /// Uses the fallback when `inner` fails.
    pub fn layer<I>(&self, inner: I) -> (made: Fallback<I, F, P>)
        ensures
            made.inner == inner,
            cloned(self.fallback, made.fallback),
            cloned_predicate(self.predicate, made.predicate),
    {
        Fallback {
            inner,
            fallback: self.fallback.clone(),
            predicate: self.predicate.clone(),
        }
    }
}

impl<I, F, P: Clone> Fallback<I, F, P> {
    /// Waits for `a`, and if it fails for `b`.
    pub fn call<A, B>(&self, a: A, b: B) -> (made: MakeFuture<A, B, P>)
        ensures
            made matches MakeFuture::A { a: first, b: second, predicate } && first == a && second
                == Some(b) && cloned_predicate(self.predicate, predicate),
    {
        MakeFuture::A { a, b: Some(b), predicate: self.predicate.clone() }
    }
}

/// Whether `event` is an outcome of what `future` waits for.
pub open spec fn answers<A, B, X, Y, E, P: Fn(&E) -> bool>(
    event: Event<X, Y, E>,
    future: MakeFuture<A, B, P>,
) -> bool {
    match event {
        Event::A(_) => future matches MakeFuture::A { a, b, predicate } && b is Some && total::<
            E,
            P,
        >(predicate),
        Event::B(_) => future is B,
    }
}

/// Whether `step` is what comes next after `event`, if the predicate says `falls` of the error.
pub open spec fn follows<A, B, X, Y, E, P>(
    future: MakeFuture<A, B, P>,
    event: Event<X, Y, E>,
    falls: bool,
    step: Step<A, B, P, X, Y, E>,
) -> bool {
    match (future, event) {
        (MakeFuture::A { b, .. }, Event::A(Poll::Ready(Ok(response)))) => step == Step::<
            A,
            B,
            P,
            X,
            Y,
            E,
        >::Done(Ok(Either::A(response))),
        (MakeFuture::A { b, .. }, Event::A(Poll::Ready(Err((error, _))))) => if falls {
            step == Step::<A, B, P, X, Y, E>::Next(MakeFuture::B(b.unwrap()))
        } else {
            step == Step::<A, B, P, X, Y, E>::Done(Err(error))
        },
        (MakeFuture::B(_), Event::B(Poll::Ready(Ok(response)))) => step == Step::<
            A,
            B,
            P,
            X,
            Y,
            E,
        >::Done(Ok(Either::B(response))),
        (MakeFuture::B(_), Event::B(Poll::Ready(Err(error)))) => step == Step::<
            A,
            B,
            P,
            X,
            Y,
            E,
        >::Done(Err(error)),
        _ => step == Step::<A, B, P, X, Y, E>::Pending(future),
    }
}

impl<A, B, P> MakeFuture<A, B, P> {
    /// Goes on with the outcome of polling a service.
    pub fn poll<X, Y, E>(self, event: Event<X, Y, E>) -> (step: Step<A, B, P, X, Y, E>) where
        P: Fn(&E) -> bool,

        requires
            answers(event, self),
        ensures
            match (self, event) {
                (
                    MakeFuture::A { predicate, .. },
                    Event::A(Poll::Ready(Err((error, kind)))),
                ) => exists|falls: bool|
                    says(predicate, error, kind, falls) && follows(self, event, falls, step),
                _ => follows(self, event, false, step),
            },
    {
        match event {
            Event::A(polled) => match self {
                MakeFuture::A { a, b, predicate } => match polled {
                    Poll::Ready(Ok(response)) => Step::Done(Ok(Either::A(response))),
                    Poll::Ready(Err((error, kind))) => {
                        let falls = predicate.falls_back(&error, kind);
                        assert(says(predicate, error, kind, falls));
                        if falls {
                            Step::Next(MakeFuture::B(b.unwrap()))
                        } else {
                            Step::Done(Err(error))
                        }
                    },
                    Poll::Pending => Step::Pending(MakeFuture::A { a, b, predicate }),
                },
                future => Step::Pending(future),
            },
            Event::B(polled) => match self {
                MakeFuture::B(b) => match polled {
                    Poll::Ready(Ok(response)) => Step::Done(Ok(Either::B(response))),
                    Poll::Ready(Err(error)) => Step::Done(Err(error)),
                    Poll::Pending => Step::Pending(MakeFuture::B(b)),
                },
                future => Step::Pending(future),
            },
        }
    }
}

/// With a layer that falls back on every error, an error of the first service is never the
/// outcome.
pub proof fn law_always_falls_back<A, B, X, Y, E, P: Fn(&E) -> bool>(
    a: A,
    b: B,
    error: E,
    kind: ErrorKind,
    falls: bool,
    step: Step<A, B, P, X, Y, E>,
)
    requires
        says::<E, P>(Predicate::Always, error, kind, falls),
        follows(
            MakeFuture::A { a, b: Some(b), predicate: Predicate::Always },
            Event::<X, Y, E>::A(Poll::Ready(Err((error, kind)))),
            falls,
            step,
        ),
    ensures
        step == Step::<A, B, P, X, Y, E>::Next(MakeFuture::B(b)),
{
}

/// The outcome of the first service is the outcome, and the second is not asked, unless the
/// first fails with an error that it is fallen back on.
pub proof fn law_falls_back_only_on_errors<A, B, X, Y, E, P>(
    future: MakeFuture<A, B, P>,
    event: Event<X, Y, E>,
    falls: bool,
    step: Step<A, B, P, X, Y, E>,
)
    requires
        follows(future, event, falls, step),
        step is Next,
    ensures
        falls,
        event matches Event::A(Poll::Ready(Err(_))),
{
}

/// While a service is not done it is waited for, with all that there is. In no other case is
/// anything waited for.
pub proof fn law_waits_for_what_is_not_done<A, B, X, Y, E, P: Fn(&E) -> bool>(
    future: MakeFuture<A, B, P>,
    event: Event<X, Y, E>,
    step: Step<A, B, P, X, Y, E>,
)
    requires
        answers(event, future),
        call_ensures(MakeFuture::<A, B, P>::poll::<X, Y, E>, (future, event), step),
    ensures
        step is Pending <==> (event matches Event::A(Poll::Pending)) || (event matches Event::B(
            Poll::Pending,
        )),
        step matches Step::Pending(same) ==> same == future,
{
}

/// The second service is turned to exactly if the first one fails with an error that the
/// predicate names: any error, one of the type or with a source of it, or one that the given
/// predicate holds of. An error that it does not name is the outcome.
pub proof fn law_turns_to_the_fallback<A, B, X, Y, E, P: Fn(&E) -> bool>(
    future: MakeFuture<A, B, P>,
    event: Event<X, Y, E>,
    step: Step<A, B, P, X, Y, E>,
)
    requires
        answers(event, future),
        call_ensures(MakeFuture::<A, B, P>::poll::<X, Y, E>, (future, event), step),
    ensures
        step matches Step::Next(next) ==> {
            &&& event matches Event::A(Poll::Ready(Err((error, kind))))
            &&& future matches MakeFuture::A { a, b, predicate }
            &&& next matches MakeFuture::B(second)
            &&& b == Some(second)
            &&& match predicate {
                Predicate::Always => true,
                Predicate::OnError => kind.is || (kind.source_is matches Some(is) && is),
                Predicate::When(holds) => call_ensures(holds, (&error,), true),
            }
        },
        event matches Event::A(Poll::Ready(Err((error, kind)))) ==> (step !is Next ==> {
            &&& step == Step::<A, B, P, X, Y, E>::Done(Err(error))
            &&& future matches MakeFuture::A { a, b, predicate }
            &&& match predicate {
                Predicate::Always => false,
                Predicate::OnError => !kind.is && !(kind.source_is matches Some(is) && is),
                Predicate::When(holds) => call_ensures(holds, (&error,), false),
            }
        }),
{
}

/// A response is that of the service that gave it, and an error of the second service is the
/// outcome.
pub proof fn law_responses_are_the_outcome<A, B, X, Y, E, P: Fn(&E) -> bool>(
    future: MakeFuture<A, B, P>,
    event: Event<X, Y, E>,
    step: Step<A, B, P, X, Y, E>,
)
    requires
        answers(event, future),
        call_ensures(MakeFuture::<A, B, P>::poll::<X, Y, E>, (future, event), step),
    ensures
        event matches Event::A(Poll::Ready(Ok(response))) ==> step == Step::<
            A,
            B,
            P,
            X,
            Y,
            E,
        >::Done(Ok(Either::A(response))),
        event matches Event::B(Poll::Ready(Ok(response))) ==> step == Step::<
            A,
            B,
            P,
            X,
            Y,
            E,
        >::Done(Ok(Either::B(response))),
        event matches Event::B(Poll::Ready(Err(error))) ==> step == Step::<
            A,
            B,
            P,
            X,
            Y,
            E,
        >::Done(Err(error)),
{
}

/// A predicate names every error, those of the type or with a source of it, or those that the
/// given predicate holds of.
pub proof fn law_predicates_name_errors<E, P: Fn(&E) -> bool>(
    predicate: Predicate<P>,
    error: E,
    kind: ErrorKind,
    falls: bool,
)
    requires
        call_ensures(Predicate::<P>::falls_back::<E>, (&predicate, &error, kind), falls),
    ensures
        predicate is Always ==> falls,
        predicate is OnError ==> (falls <==> kind.is || (kind.source_is matches Some(is) && is)),
        predicate matches Predicate::When(holds) ==> call_ensures(holds, (&error,), falls),
{
}

/// A layer falls back on every error until it is told on which, and keeps its fallback. What
/// it makes waits for the first service, with the second one at hand.
pub proof fn law_layers_fall_back<F: Clone, P: Clone, I, A, B>(
    fallback: F,
    layer: FallbackLayer<F, P>,
    predicate: P,
    on_some: FallbackLayer<F, P>,
    on_error: FallbackLayer<F, P>,
    inner: I,
    made: Fallback<I, F, P>,
    a: A,
    b: B,
    future: MakeFuture<A, B, P>,
)
    requires
        call_ensures(FallbackLayer::<F, P>::new, (fallback,), layer),
        call_ensures(FallbackLayer::<F, P>::with_predicate::<P>, (layer, predicate), on_some),
        call_ensures(FallbackLayer::<F, P>::on_error, (layer,), on_error),
        call_ensures(FallbackLayer::<F, P>::layer::<I>, (&on_error, inner), made),
        call_ensures(Fallback::<I, F, P>::call::<A, B>, (&made, a, b), future),
    ensures
        layer.fallback == fallback,
        layer.predicate is Always,
        on_some.fallback == fallback,
        on_some.predicate matches Predicate::When(given) && given == predicate,
        on_error.fallback == fallback,
        on_error.predicate is OnError,
        made.inner == inner,
        cloned(fallback, made.fallback),
        made.predicate is OnError,
        future matches MakeFuture::A { a: first, b: second, predicate } && first == a && second
            == Some(b) && predicate is OnError,
{
}

/// Each outcome of the service that is waited for is accepted, as long as the second one is at
/// hand and the predicate can be asked.
pub proof fn law_outcomes_are_accepted<A, B, X, Y, E, P: Fn(&E) -> bool>(
    future: MakeFuture<A, B, P>,
    event: Event<X, Y, E>,
)
    requires
        match event {
            Event::A(_) => {
                &&& future matches MakeFuture::A { a, b, predicate }
                &&& b is Some
                &&& predicate matches Predicate::When(holds) ==> forall|error: E| #[trigger]
                    call_requires(holds, (&error,))
            },
            Event::B(_) => future is B,
        },
    ensures
        call_requires(MakeFuture::<A, B, P>::poll::<X, Y, E>, (future, event)),
{
}

/// A clone of a predicate names the same errors.
pub proof fn law_clones_name_the_same<P: Clone>(predicate: Predicate<P>, copy: Predicate<P>)
    requires
        call_ensures(Predicate::<P>::clone, (&predicate,), copy),
    ensures
        copy is Always <==> predicate is Always,
        copy is OnError <==> predicate is OnError,
        predicate matches Predicate::When(holds) ==> (copy matches Predicate::When(same) && cloned(
            holds,
            same,
        )),
{
}

} // verus!
