//! Connections that are traced.

use vstd::prelude::*;

verus! {

/// A span of the `tracing` crate.
#[verifier::external_type_specification]
#[verifier::external_body]
pub struct ExSpan(tracing::Span);

/// A connection `T` whose operations are traced in a span.
#[derive(Debug)]
pub struct Instrumented<T> {
    pub io: T,
    pub span: tracing::Span,
}

impl<T> Instrumented<T> {
    pub fn new(io: T, span: tracing::Span) -> (instrumented: Self)
        ensures
            instrumented.io == io,
            instrumented.span == span,
    {
        Instrumented { io, span }
    }

    /// Polls the connection: `poll` is handed the connection, and its outcome is returned.
    pub fn poll<R, F: FnOnce(&mut T) -> R>(&mut self, poll: F) -> (polled: R)
        requires
            forall|io: &mut T| *io == old(self).io ==> call_requires(poll, (io,)),
        ensures
            exists|io: &mut T|
                *io == old(self).io && *final(io) == final(self).io && call_ensures(
                    poll,
                    (io,),
                    polled,
                ),
            final(self).span == old(self).span,
    {
        poll(&mut self.io)
    }
}

/// A poll of a traced connection gives what the same poll of the connection gives, and leaves
/// the connection as that does. The span stays.
///
/// `result` is what the poll gives for `io`, and `left` what it leaves of it.
pub proof fn law_polls_are_forwarded<T, R, F: FnOnce(&mut T) -> R>(
    io: T,
    span: tracing::Span,
    poll: F,
    result: R,
    left: T,
    before: Instrumented<T>,
    polled: R,
    after: Instrumented<T>,
)
    requires
        before.io == io,
        before.span == span,
        forall|r: &mut T, given: R|
            *r == io && #[trigger] call_ensures(poll, (r,), given) ==> given == result && *final(r)
                == left,
        exists|r: &mut T|
            *r == before.io && *final(r) == after.io && #[trigger] call_ensures(
                poll,
                (r,),
                polled,
            ),
        after.span == before.span,
    ensures
        polled == result,
        after.io == left,
        after.span == span,
{
}

/// Polling a traced connection gives what polling the connection gives and leaves it as that
/// does, in the same span.
pub proof fn law_traced_polls_are_polls<T, R, F: FnOnce(&mut T) -> R>(
    before: Instrumented<T>,
    poll: F,
    polled: R,
    after: Instrumented<T>,
    result: R,
    left: T,
)
    requires
        forall|r: &mut T, given: R|
            *r == before.io && #[trigger] call_ensures(poll, (r,), given) ==> given == result
                && *final(r) == left,
        exists|i: &mut Instrumented<T>|
            *i == before && *final(i) == after && #[trigger] call_ensures(
                Instrumented::<T>::poll::<R, F>,
                (i, poll),
                polled,
            ),
    ensures
        polled == result,
        after.io == left,
        after.span == before.span,
{
}

} // verus!
