//! What is counted of a stack, and what is reported.

use super::counters::{Counted, Metrics, Registry};
use super::report::{Failure, Line, Metric, Report};
use super::services::{Layer, Make, NewLayer, Service};
use crate::index_map::entries;
use crate::poll::Poll;
use vstd::prelude::*;

verus! {

/// The counter of `what`.
pub open spec fn count(metrics: Metrics, what: Counted) -> u64 {
    match what {
        Counted::Failure => metrics.failure_total,
        Counted::MakeSuccess => metrics.make_success_total,
        Counted::MakeFailure => metrics.make_failure_total,
        Counted::ServiceFailure => metrics.service_failure_total,
        Counted::ServiceRequest => metrics.service_request_total,
        Counted::ServiceDrop => metrics.service_drop_total,
    }
}

/// Whether `after` is `before` with one more of `what` counted of the stack at `slot`: its
/// counter goes up by one and starts over after the largest number, and nothing else changes.
pub open spec fn one_more(
    before: Seq<(u64, Metrics)>,
    slot: usize,
    what: Counted,
    after: Seq<(u64, Metrics)>,
) -> bool {
    &&& after.len() == before.len()
    &&& forall|i: int| 0 <= i < before.len() && i != slot ==> #[trigger] after[i] == before[i]
    &&& after[slot as int].0 == before[slot as int].0
    &&& forall|other: Counted|
        other != what ==> #[trigger] count(after[slot as int].1, other) == count(
            before[slot as int].1,
            other,
        )
    &&& count(after[slot as int].1, what) as int == (count(before[slot as int].1, what) + 1)
        % 0x1_0000_0000_0000_0000
}

/// Counting something counts one more of it, and nothing else.
pub proof fn law_counts_go_up_by_one(
    before: Seq<(u64, Metrics)>,
    slot: usize,
    what: Counted,
    after: Seq<(u64, Metrics)>,
)
    requires
        slot < before.len(),
        exists|r: &mut Registry|
            (*r)@ == before && (*final(r))@ == after && #[trigger] call_ensures(
                Registry::incr,
                (r, slot, what),
                (),
            ),
    ensures
        one_more(before, slot, what, after),
{
}

/// A label that is known keeps its counters. One that is not gets counters of its own, of which
/// nothing was counted, and comes last.
pub proof fn law_labels_have_counters(
    before: Seq<(u64, Metrics)>,
    label: u64,
    slot: usize,
    after: Seq<(u64, Metrics)>,
    what: Counted,
)
    requires
        exists|r: &mut Registry|
            (*r)@ == before && (*final(r))@ == after && #[trigger] call_ensures(
                Registry::new_layer,
                (r, label),
                slot,
            ),
    ensures
        slot < after.len(),
        after[slot as int].0 == label,
        entries::has_key(before, label) ==> after == before,
        !entries::has_key(before, label) ==> {
            &&& after.len() == before.len() + 1
            &&& after.take(before.len() as int) == before
            &&& slot == before.len()
            &&& count(after[slot as int].1, what) == 0
        },
{
    if !entries::has_key(before, label) {
        assert(after.take(before.len() as int) =~= before);
        if slot < before.len() {
            assert(before[slot as int].0 == label);
        }
    }
}

/// The same of what makes layers.
pub proof fn law_layers_have_counters(
    before: NewLayer,
    label: u64,
    layer: Layer,
    after: NewLayer,
    fresh: NewLayer,
    what: Counted,
)
    requires
        exists|n: &mut NewLayer|
            *n == before && *final(n) == after && #[trigger] call_ensures(
                NewLayer::new_layer,
                (n, label),
                layer,
            ),
        call_ensures(NewLayer::new, (), fresh),
    ensures
        fresh.registry@.len() == 0,
        layer.slot < after.registry@.len(),
        after.registry@[layer.slot as int].0 == label,
        entries::has_key(before.registry@, label) ==> after.registry@ == before.registry@,
        !entries::has_key(before.registry@, label) ==> {
            &&& after.registry@.len() == before.registry@.len() + 1
            &&& after.registry@.take(before.registry@.len() as int) == before.registry@
            &&& count(after.registry@.last().1, what) == 0
        },
{
    let old_stacks = before.registry@;
    if !entries::has_key(old_stacks, label) {
        assert(after.registry@.take(old_stacks.len() as int) =~= old_stacks);
    }
}

/// A service that is made is counted as made, whether at once or by a future, and is the one
/// that was made.
pub proof fn law_services_are_counted_when_made<S, T>(
    make: Make<S>,
    before: Seq<(u64, Metrics)>,
    service: T,
    made: Service<T>,
    after: Seq<(u64, Metrics)>,
)
    requires
        make.slot < before.len(),
        exists|r: &mut Registry|
            (*r)@ == before && (*final(r))@ == after && #[trigger] call_ensures(
                Make::<S>::new_service::<T>,
                (&make, r, service),
                made,
            ),
    ensures
        made.inner == service,
        made.slot == make.slot,
        made.made,
        one_more(before, make.slot, Counted::MakeSuccess, after),
{
}

/// A future of a service counts nothing until it is done. Then it counts whether the service
/// was made, and gives the service or the error.
pub proof fn law_futures_count_what_they_give<S, F, T, X>(
    make: Make<S>,
    future: F,
    waiting: Service<F>,
    before: Seq<(u64, Metrics)>,
    polled: Poll<Result<T, X>>,
    given: Poll<Result<Service<T>, X>>,
    after: Seq<(u64, Metrics)>,
)
    requires
        make.slot < before.len(),
        call_ensures(Make::<S>::call::<F>, (&make, future), waiting),
        exists|r: &mut Registry|
            (*r)@ == before && (*final(r))@ == after && #[trigger] call_ensures(
                Service::<F>::poll::<T, X>,
                (&waiting, r, polled),
                given,
            ),
    ensures
        waiting.inner == future,
        waiting.slot == make.slot,
        !waiting.made,
        given is Pending <==> polled is Pending,
        given is Pending ==> after == before,
        given matches Poll::Ready(Ok(service)) ==> {
            &&& polled == Poll::Ready(Ok::<T, X>(service.inner))
            &&& service.slot == make.slot
            &&& service.made
            &&& one_more(before, make.slot, Counted::MakeSuccess, after)
        },
        given matches Poll::Ready(Err(error)) ==> {
            &&& polled == Poll::Ready(Err::<T, X>(error))
            &&& one_more(before, make.slot, Counted::MakeFailure, after)
        },
{
}

/// A failure is counted, of what makes services or of a service, and nothing is counted of
/// anything else. What was polled is returned.
pub proof fn law_failures_are_counted<S, X>(
    make: Make<S>,
    service: Service<S>,
    before: Seq<(u64, Metrics)>,
    polled: Poll<Result<(), X>>,
    of_make: (Poll<Result<(), X>>, Seq<(u64, Metrics)>),
    of_service: (Poll<Result<(), X>>, Seq<(u64, Metrics)>),
)
    requires
        make.slot < before.len(),
        service.slot < before.len(),
        exists|r: &mut Registry|
            (*r)@ == before && (*final(r))@ == of_make.1 && #[trigger] call_ensures(
                Make::<S>::poll_ready::<X>,
                (&make, r, polled),
                of_make.0,
            ),
        exists|r: &mut Registry|
            (*r)@ == before && (*final(r))@ == of_service.1 && #[trigger] call_ensures(
                Service::<S>::poll_ready::<X>,
                (&service, r, polled),
                of_service.0,
            ),
    ensures
        of_make.0 == polled,
        of_service.0 == polled,
        if polled matches Poll::Ready(Err(_)) {
            &&& one_more(before, make.slot, Counted::Failure, of_make.1)
            &&& one_more(before, service.slot, Counted::ServiceFailure, of_service.1)
        } else {
            &&& of_make.1 == before
            &&& of_service.1 == before
        },
{
}

/// Each request is counted, and each drop of a service, but not that of a future.
pub proof fn law_requests_and_drops_are_counted<S>(
    service: Service<S>,
    before: Seq<(u64, Metrics)>,
    requested: Seq<(u64, Metrics)>,
    dropped: Seq<(u64, Metrics)>,
)
    requires
        service.slot < before.len(),
        exists|r: &mut Registry|
            (*r)@ == before && (*final(r))@ == requested && #[trigger] call_ensures(
                Service::<S>::call,
                (&service, r),
                (),
            ),
        exists|r: &mut Registry|
            (*r)@ == before && (*final(r))@ == dropped && #[trigger] call_ensures(
                Service::<S>::drop,
                (service, r),
                (),
            ),
    ensures
        one_more(before, service.slot, Counted::ServiceRequest, requested),
        service.made ==> one_more(before, service.slot, Counted::ServiceDrop, dropped),
        !service.made ==> dropped == before,
{
}

/// A layer counts what it makes at its own place.
pub proof fn law_layers_keep_their_place<S>(layer: Layer, inner: S, make: Make<S>)
    requires
        call_ensures(Layer::layer::<S>, (&layer, inner), make),
    ensures
        make.inner == inner,
        make.slot == layer.slot,
{
}

/// Whether the lines from `start` on are those of the counters of `what`, one for each stack.
pub open spec fn counts_from(
    lines: Seq<Line>,
    start: int,
    stacks: Seq<(u64, Metrics)>,
    metric: Metric,
    failure: bool,
    what: Counted,
) -> bool {
    forall|i: int|
        0 <= i < stacks.len() ==> lines[start + i] == (Line::Value {
            metric,
            label: (#[trigger] stacks[i]).0,
            failure,
            value: count(stacks[i].1, what),
        })
}

/// A report has all counters of all stacks: for each metric what it means, and then its value
/// for each stack. Services that were made and those that were not are told apart. Without
/// stacks nothing is reported.
pub proof fn law_all_counters_are_reported(report: Report<'_>, lines: Vec<Line>)
    requires
        report.registry.wf(),
        call_ensures(Report::<'_>::fmt_metrics, (&report,), lines),
    ensures
        ({
            let stacks = report.registry@;
            let n = stacks.len() as int;
            if n == 0 {
                lines@.len() == 0
            } else {
                &&& lines@.len() == 5 + 6 * n
                &&& lines@[0] == Line::Help(Metric::FailureTotal)
                &&& counts_from(
                    lines@,
                    1,
                    stacks,
                    Metric::FailureTotal,
                    false,
                    Counted::Failure,
                )
                &&& lines@[n + 1] == Line::Help(Metric::MakeServiceTotal)
                &&& counts_from(
                    lines@,
                    n + 2,
                    stacks,
                    Metric::MakeServiceTotal,
                    false,
                    Counted::MakeSuccess,
                )
                &&& counts_from(
                    lines@,
                    2 * n + 2,
                    stacks,
                    Metric::MakeServiceTotal,
                    true,
                    Counted::MakeFailure,
                )
                &&& lines@[3 * n + 2] == Line::Help(Metric::ServiceFailureTotal)
                &&& counts_from(
                    lines@,
                    3 * n + 3,
                    stacks,
                    Metric::ServiceFailureTotal,
                    false,
                    Counted::ServiceFailure,
                )
                &&& lines@[4 * n + 3] == Line::Help(Metric::ServiceRequestTotal)
                &&& counts_from(
                    lines@,
                    4 * n + 4,
                    stacks,
                    Metric::ServiceRequestTotal,
                    false,
                    Counted::ServiceRequest,
                )
                &&& lines@[5 * n + 4] == Line::Help(Metric::ServiceDropTotal)
                &&& counts_from(
                    lines@,
                    5 * n + 5,
                    stacks,
                    Metric::ServiceDropTotal,
                    false,
                    Counted::ServiceDrop,
                )
            }
        }),
{
}

/// All labels and their counters are listed. A registry starts without any.
pub proof fn law_counters_are_listed(
    fresh: Registry,
    registry: Registry,
    stacks: Vec<(u64, Metrics)>,
    made: NewLayer,
    report: Report<'_>,
)
    requires
        call_ensures(Registry::new, (), fresh),
        call_ensures(Registry::list, (&registry,), stacks),
        call_ensures(NewLayer::report, (&made,), report),
    ensures
        fresh@.len() == 0,
        stacks@ == registry@,
        report.registry == made.registry,
{
}

/// The names that metrics are reported under, which begin with `stack_`, and the label of
/// failures.
pub proof fn law_metrics_have_names(
    metric: Metric,
    name: String,
    help: String,
    failure: Failure,
    label: String,
)
    requires
        call_ensures(Metric::name, (&metric,), name),
        call_ensures(Metric::help, (&metric,), help),
        call_ensures(Failure::fmt_labels, (&failure,), label),
    ensures
        metric is FailureTotal ==> name@ == "stack_failure_total"@ && help@
            == "Total number stacks failures"@,
        metric is MakeServiceTotal ==> name@ == "stack_make_service_total"@ && help@
            == "Total number of services made"@,
        metric is ServiceFailureTotal ==> name@ == "stack_service_failure_total"@ && help@
            == "Total number of service failures"@,
        metric is ServiceRequestTotal ==> name@ == "stack_service_request_total"@ && help@
            == "Total number of requests processed by services"@,
        metric is ServiceDropTotal ==> name@ == "stack_service_drop_total"@ && help@
            == "Total number of services dropped"@,
        label@ == "failure=\"true\""@,
{
}

} // verus!
