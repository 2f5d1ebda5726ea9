//! What is reported of the stacks.

use super::counters::{self, Metrics, Registry};
use vstd::prelude::*;

verus! {

/// A metric that is reported.
#[derive(Clone, Copy, Debug, PartialEq, Eq, Structural)]
pub enum Metric {
    FailureTotal,
    MakeServiceTotal,
    ServiceFailureTotal,
    ServiceRequestTotal,
    ServiceDropTotal,
}

/// A line of a report.
#[derive(Clone, Copy, Debug, PartialEq, Eq, Structural)]
pub enum Line {
    /// What a metric means.
    Help(Metric),
    /// The value of a metric for the stack with a label, and whether it counts failures.
    Value {
        metric: Metric,
        label: u64,
        failure: bool,
        value: u64,
    },
}

/// The label of values that count failures.
#[derive(Clone, Copy, Debug, PartialEq, Eq, Structural)]
pub struct Failure;

impl Failure {
    /// The text of the label.
    pub fn fmt_labels(&self) -> (label: String)
        ensures
            label@ == "failure=\"true\""@,
    {
        "failure=\"true\"".to_owned()
    }
}

impl Metric {
    /// The name that the metric is reported under.
    pub fn name(&self) -> (name: String)
        ensures
            name@ == match *self {
                Metric::FailureTotal => "stack_failure_total"@,
                Metric::MakeServiceTotal => "stack_make_service_total"@,
                Metric::ServiceFailureTotal => "stack_service_failure_total"@,
                Metric::ServiceRequestTotal => "stack_service_request_total"@,
                Metric::ServiceDropTotal => "stack_service_drop_total"@,
            },
    {
        match self {
            Metric::FailureTotal => "stack_failure_total".to_owned(),
            Metric::MakeServiceTotal => "stack_make_service_total".to_owned(),
            Metric::ServiceFailureTotal => "stack_service_failure_total".to_owned(),
            Metric::ServiceRequestTotal => "stack_service_request_total".to_owned(),
            Metric::ServiceDropTotal => "stack_service_drop_total".to_owned(),
        }
    }

    /// What the metric means.
    pub fn help(&self) -> (help: String)
        ensures
            help@ == match *self {
                Metric::FailureTotal => "Total number stacks failures"@,
                Metric::MakeServiceTotal => "Total number of services made"@,
                Metric::ServiceFailureTotal => "Total number of service failures"@,
                Metric::ServiceRequestTotal => "Total number of requests processed by services"@,
                Metric::ServiceDropTotal => "Total number of services dropped"@,
            },
    {
        match self {
            Metric::FailureTotal => "Total number stacks failures".to_owned(),
            Metric::MakeServiceTotal => "Total number of services made".to_owned(),
            Metric::ServiceFailureTotal => "Total number of service failures".to_owned(),
            Metric::ServiceRequestTotal => {
                "Total number of requests processed by services".to_owned()
            },
            Metric::ServiceDropTotal => "Total number of services dropped".to_owned(),
        }
    }
}

/// The value of a metric, of the failures that it counts or of the rest.
pub open spec fn value_of(metrics: Metrics, metric: Metric, failure: bool) -> u64 {
    match metric {
        Metric::FailureTotal => metrics.failure_total,
        Metric::MakeServiceTotal => if failure {
            metrics.make_failure_total
        } else {
            metrics.make_success_total
        },
        Metric::ServiceFailureTotal => metrics.service_failure_total,
        Metric::ServiceRequestTotal => metrics.service_request_total,
        Metric::ServiceDropTotal => metrics.service_drop_total,
    }
}

/// The lines with the values of a metric.
pub open spec fn values(stacks: Seq<(u64, Metrics)>, metric: Metric, failure: bool) -> Seq<Line> {
    stacks.map_values(
        |stack: (u64, Metrics)| Line::Value {
            metric,
            label: stack.0,
            failure,
            value: value_of(stack.1, metric, failure),
        },
    )
}

/// The lines of a metric that is not split by failures.
pub open spec fn section(stacks: Seq<(u64, Metrics)>, metric: Metric) -> Seq<Line> {
    seq![Line::Help(metric)] + values(stacks, metric, false)
}

/// The lines that are reported of `stacks`, none if there are no stacks.
pub open spec fn reported(stacks: Seq<(u64, Metrics)>) -> Seq<Line> {
    if stacks.len() == 0 {
        Seq::empty()
    } else {
        section(stacks, Metric::FailureTotal) + section(stacks, Metric::MakeServiceTotal) + values(
            stacks,
            Metric::MakeServiceTotal,
            true,
        ) + section(stacks, Metric::ServiceFailureTotal) + section(
            stacks,
            Metric::ServiceRequestTotal,
        ) + section(stacks, Metric::ServiceDropTotal)
    }
}

fn value(metrics: &Metrics, metric: Metric, failure: bool) -> (value: u64)
    ensures
        value == value_of(*metrics, metric, failure),
{
    match metric {
        Metric::FailureTotal => metrics.failure_total,
        Metric::MakeServiceTotal => {
            if failure {
                metrics.make_failure_total
            } else {
                metrics.make_success_total
            }
        },
        Metric::ServiceFailureTotal => metrics.service_failure_total,
        Metric::ServiceRequestTotal => metrics.service_request_total,
        Metric::ServiceDropTotal => metrics.service_drop_total,
    }
}

fn push_values(
    lines: &mut Vec<Line>,
    stacks: &Vec<(u64, Metrics)>,
    metric: Metric,
    failure: bool,
)
    ensures
        final(lines)@ == old(lines)@ + values(stacks@, metric, failure),
{
    let ghost all = values(stacks@, metric, failure);
    let mut i: usize = 0;
    assert(lines@ + all.take(0) =~= lines@);
    while i < stacks.len()
        invariant
            i <= stacks@.len(),
            all == values(stacks@, metric, failure),
            lines@ == old(lines)@ + all.take(i as int),
        decreases stacks@.len() - i,
    {
        let (label, metrics) = stacks[i];
        let line = Line::Value { metric, label, failure, value: value(&metrics, metric, failure) };
        lines.push(line);
        assert(all[i as int] == line);
        assert(lines@ =~= old(lines)@ + all.take(i + 1));
        i += 1;
    }
    assert(all.take(i as int) =~= all);
}

fn push_section(lines: &mut Vec<Line>, stacks: &Vec<(u64, Metrics)>, metric: Metric)
    ensures
        final(lines)@ == old(lines)@ + section(stacks@, metric),
{
    lines.push(Line::Help(metric));
    push_values(lines, stacks, metric, false);
    assert(lines@ =~= old(lines)@ + section(stacks@, metric));
}

/// Reports the counters in a registry.
pub struct Report<'a> {
    pub registry: &'a Registry,
}

impl<'a> Report<'a> {
    /// The lines of the report.
    pub fn fmt_metrics(&self) -> (lines: Vec<Line>)
        requires
            self.registry.wf(),
        ensures
            lines@ == reported(self.registry@),
    {
        let stacks = self.registry.list();
        let mut lines: Vec<Line> = Vec::new();
        if stacks.len() == 0 {
            return lines;
        }
        push_section(&mut lines, &stacks, Metric::FailureTotal);
        push_section(&mut lines, &stacks, Metric::MakeServiceTotal);
        push_values(&mut lines, &stacks, Metric::MakeServiceTotal, true);
        push_section(&mut lines, &stacks, Metric::ServiceFailureTotal);
        push_section(&mut lines, &stacks, Metric::ServiceRequestTotal);
        push_section(&mut lines, &stacks, Metric::ServiceDropTotal);
        assert(lines@ =~= reported(self.registry@));
        lines
    }
}

} // verus!
