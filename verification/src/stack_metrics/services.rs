//! Services that are counted.
//!
//! The services are driven from outside.

use super::counters::{self, Counted, Registry};
use super::report::Report;
use crate::index_map::entries;
use crate::poll::Poll;
use vstd::prelude::*;

verus! {

/// Counts the services of a stack.
#[derive(Clone, Copy, Debug)]
pub struct Layer {
    pub slot: usize,
}

/// Makes services that are counted.
#[derive(Debug)]
pub struct Make<S> {
    pub inner: S,
    pub slot: usize,
}

/// A service that is counted, or a future of one.
#[derive(Debug)]
pub struct Service<S> {
    pub inner: S,
    pub slot: usize,
    /// Whether this is a service that was made, and not a future of one.
    pub made: bool,
}

/// Makes layers that count in a registry.
pub struct NewLayer {
    pub registry: Registry,
}

impl NewLayer {
    pub fn new() -> (made: Self)
        ensures
            made.registry.wf(),
            made.registry@ == Seq::<(u64, counters::Metrics)>::empty(),
    {
        NewLayer { registry: Registry::new() }
    }

    /// Counts the services of the stack with the label `label`.
    pub fn new_layer(&mut self, label: u64) -> (layer: Layer)
        requires
            old(self).registry.wf(),
        ensures
            final(self).registry.wf(),
            layer.slot < final(self).registry@.len(),
            final(self).registry@[layer.slot as int].0 == label,
            final(self).registry@ == if entries::has_key(old(self).registry@, label) {
                old(self).registry@
            } else {
                old(self).registry@.push((label, counters::zero()))
            },
    {
        Layer { slot: self.registry.new_layer(label) }
    }

    /// What is reported of the stacks.
    pub fn report(&self) -> (report: Report<'_>)
        ensures
            report.registry == self.registry,
    {
        Report { registry: &self.registry }
    }
}

impl Layer {
    /// Counts the services that `inner` makes.
    pub fn layer<S>(&self, inner: S) -> (make: Make<S>)
        ensures
            make == (Make { inner, slot: self.slot }),
    {
        Make { inner, slot: self.slot }
    }
}

impl<S> Make<S> {
    /// Counts the service that was made.
    pub fn new_service<T>(&self, registry: &mut Registry, service: T) -> (made: Service<T>)
        requires
            old(registry).wf(),
            self.slot < old(registry)@.len(),
        ensures
            made == (Service { inner: service, slot: self.slot, made: true }),
            final(registry).wf(),
            final(registry)@ == counters::counted_at(
                old(registry)@,
                self.slot,
                Counted::MakeSuccess,
            ),
    {
        registry.incr(self.slot, Counted::MakeSuccess);
        Service { inner: service, slot: self.slot, made: true }
    }

    /// Counts a failure of what makes services.
    pub fn poll_ready<X>(&self, registry: &mut Registry, polled: Poll<Result<(), X>>) -> (ready:
        Poll<Result<(), X>>)
        requires
            old(registry).wf(),
            self.slot < old(registry)@.len(),
        ensures
            ready == polled,
            final(registry).wf(),
            final(registry)@ == if polled matches Poll::Ready(Err(_)) {
                counters::counted_at(old(registry)@, self.slot, Counted::Failure)
            } else {
                old(registry)@
            },
    {
        if let Poll::Ready(Err(_)) = &polled {
            registry.incr(self.slot, Counted::Failure);
        }
        polled
    }

    /// Waits for the service that `future` gives.
    pub fn call<F>(&self, future: F) -> (made: Service<F>)
        ensures
            made == called(self.slot, future),
    {
        Service { inner: future, slot: self.slot, made: false }
    }
}

/// The future of a service, of which `inner` is the future that is waited for.
pub open spec fn called<F>(slot: usize, inner: F) -> Service<F> {
    Service { inner, slot, made: false }
}

/// The service that a future gave, and what is counted then.
pub open spec fn made<T, X>(slot: usize, polled: Poll<Result<T, X>>) -> (
    Poll<Result<Service<T>, X>>,
    Option<Counted>,
) {
    match polled {
        Poll::Pending => (Poll::Pending, None),
        Poll::Ready(Ok(inner)) => (
            Poll::Ready(Ok(Service { inner, slot, made: true })),
            Some(Counted::MakeSuccess),
        ),
        Poll::Ready(Err(error)) => (Poll::Ready(Err(error)), Some(Counted::MakeFailure)),
    }
}

/// What is counted when a service, or a future of one, is dropped.
pub open spec fn dropped<S>(service: Service<S>) -> Option<Counted> {
    if service.made {
        Some(Counted::ServiceDrop)
    } else {
        None
    }
}

/// The stacks after `what`, if anything, is counted of the one at `slot`.
pub open spec fn after(
    stacks: Seq<(u64, counters::Metrics)>,
    slot: usize,
    what: Option<Counted>,
) -> Seq<(u64, counters::Metrics)> {
    match what {
        Some(what) => counters::counted_at(stacks, slot, what),
        None => stacks,
    }
}

impl<S> Service<S> {
    /// Counts whether the service was made, of which `polled` is the outcome of polling the
    /// future.
    pub fn poll<T, X>(&self, registry: &mut Registry, polled: Poll<Result<T, X>>) -> (service: Poll<
        Result<Service<T>, X>,
    >)
        requires
            old(registry).wf(),
            self.slot < old(registry)@.len(),
        ensures
            service == made(self.slot, polled).0,
            final(registry).wf(),
            final(registry)@ == after(old(registry)@, self.slot, made(self.slot, polled).1),
    {
        match polled {
            Poll::Pending => Poll::Pending,
            Poll::Ready(Ok(inner)) => {
                registry.incr(self.slot, Counted::MakeSuccess);
                Poll::Ready(Ok(Service { inner, slot: self.slot, made: true }))
            },
            Poll::Ready(Err(error)) => {
                registry.incr(self.slot, Counted::MakeFailure);
                Poll::Ready(Err(error))
            },
        }
    }

    /// Counts a failure of the service.
    pub fn poll_ready<X>(&self, registry: &mut Registry, polled: Poll<Result<(), X>>) -> (ready:
        Poll<Result<(), X>>)
        requires
            old(registry).wf(),
            self.slot < old(registry)@.len(),
        ensures
            ready == polled,
            final(registry).wf(),
            final(registry)@ == if polled matches Poll::Ready(Err(_)) {
                counters::counted_at(old(registry)@, self.slot, Counted::ServiceFailure)
            } else {
                old(registry)@
            },
    {
        if let Poll::Ready(Err(_)) = &polled {
            registry.incr(self.slot, Counted::ServiceFailure);
        }
        polled
    }

    /// Counts a request, that is called or proxied.
    pub fn call(&self, registry: &mut Registry)
        requires
            old(registry).wf(),
            self.slot < old(registry)@.len(),
        ensures
            final(registry).wf(),
            final(registry)@ == counters::counted_at(
                old(registry)@,
                self.slot,
                Counted::ServiceRequest,
            ),
    {
        registry.incr(self.slot, Counted::ServiceRequest);
    }

    /// Counts that the service is dropped. A future that is dropped is not counted.
    pub fn drop(self, registry: &mut Registry)
        requires
            old(registry).wf(),
            self.slot < old(registry)@.len(),
        ensures
            final(registry).wf(),
            final(registry)@ == after(old(registry)@, self.slot, dropped(self)),
    {
        if self.made {
            registry.incr(self.slot, Counted::ServiceDrop);
        }
    }
}

/// Counting changes one counter of one stack. All other counters, and the labels, are as they
/// were.
pub proof fn law_counts_one_thing(
    stacks: Seq<(u64, counters::Metrics)>,
    slot: usize,
    what: Counted,
    other: int,
)
    requires
        slot < stacks.len(),
        0 <= other < stacks.len(),
    ensures
        counters::counted_at(stacks, slot, what).len() == stacks.len(),
        counters::counted_at(stacks, slot, what)[other].0 == stacks[other].0,
        other != slot ==> counters::counted_at(stacks, slot, what)[other] == stacks[other],
{
}

/// One drop is counted for each service that is made: that of the service, and not that of the
/// future that gave it. The drops change nothing else.
pub proof fn law_one_drop_per_service<F, T, X>(
    stacks: Seq<(u64, counters::Metrics)>,
    slot: usize,
    future: F,
    inner: T,
)
    requires
        slot < stacks.len(),
    ensures
        ({
            let waiting = called(slot, future);
            let polled = Poll::<Result<T, X>>::Ready(Ok(inner));
            let (service, counted) = made(waiting.slot, polled);
            let before = after(stacks, slot, counted);
            &&& service matches Poll::Ready(Ok(service))
            &&& service.inner == inner
            &&& service.slot == slot
            &&& after(before, slot, dropped(waiting)) == before
            &&& after(before, slot, dropped(service)) == before.update(
                slot as int,
                (
                    before[slot as int].0,
                    counters::Metrics {
                        service_drop_total: counters::next(
                            stacks[slot as int].1.service_drop_total,
                        ),
                        ..before[slot as int].1
                    },
                ),
            )
            &&& before[slot as int].1.service_drop_total
                == stacks[slot as int].1.service_drop_total
        }),
        stacks[slot as int].1.service_drop_total < u64::MAX ==> counters::next(
            stacks[slot as int].1.service_drop_total,
        ) == stacks[slot as int].1.service_drop_total + 1,
{
}

} // verus!
