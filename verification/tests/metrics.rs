use linkerd_middleware::http_metrics::last_update::LastUpdateTime;
use linkerd_middleware::http_metrics::registry::{retains, Activity, Registry};
use linkerd_middleware::http_metrics::report::Report;
use linkerd_middleware::opencensus::{Event, Exporter, Step, MAX_BATCH_SIZE};
use linkerd_middleware::poll::Poll;
use linkerd_middleware::stack_metrics::counters::Counted;
use linkerd_middleware::stack_metrics::report::{Failure, Line, Metric};
use linkerd_middleware::stack_metrics::services::NewLayer;
use linkerd_middleware::time::Duration;

#[test]
fn stacks_are_counted_by_label() {
    let mut layers = NewLayer::new();
    assert!(layers.report().fmt_metrics().is_empty());
    let seven = layers.new_layer(7);
    let three = layers.new_layer(3);
    assert_eq!(layers.new_layer(7).slot, seven.slot);
    let make = seven.layer("inner");
    let registry = &mut layers.registry;
    make.poll_ready::<u8>(registry, Poll::Ready(Err(1)));
    make.poll_ready::<u8>(registry, Poll::Ready(Ok(())));
    make.poll_ready::<u8>(registry, Poll::Pending);
    let service = make.new_service(registry, "service");
    assert_eq!(service.inner, "service");
    let future = make.call("future");
    assert!(matches!(
        future.poll::<u8, u8>(registry, Poll::Pending),
        Poll::Pending
    ));
    assert!(matches!(
        future.poll::<u8, u8>(registry, Poll::Ready(Ok(1))),
        Poll::Ready(Ok(made)) if made.inner == 1
    ));
    assert!(matches!(
        future.poll::<u8, u8>(registry, Poll::Ready(Err(2))),
        Poll::Ready(Err(2))
    ));
    service.poll_ready::<u8>(registry, Poll::Ready(Err(1)));
    service.poll_ready::<u8>(registry, Poll::Ready(Ok(())));
    service.call(registry);
    service.call(registry);
    service.call(registry);
    service.drop(registry);
    registry.incr(three.slot, Counted::ServiceRequest);
    let stacks = registry.list();
    assert_eq!(stacks.len(), 2);
    assert_eq!(stacks[0].0, 7);
    assert_eq!(stacks[0].1.failure_total, 1);
    assert_eq!(stacks[0].1.make_success_total, 2);
    assert_eq!(stacks[0].1.make_failure_total, 1);
    assert_eq!(stacks[0].1.service_failure_total, 1);
    assert_eq!(stacks[0].1.service_request_total, 3);
    assert_eq!(stacks[0].1.service_drop_total, 1);
    assert_eq!(stacks[1].1.service_request_total, 1);

    let lines = layers.report().fmt_metrics();
    assert_eq!(lines.len(), 5 + 6 * 2);
    assert_eq!(lines[0], Line::Help(Metric::FailureTotal));
    assert_eq!(lines[3], Line::Help(Metric::MakeServiceTotal));
    assert_eq!(
        lines[4],
        Line::Value {
            metric: Metric::MakeServiceTotal,
            label: 7,
            failure: false,
            value: 2
        }
    );
    assert_eq!(
        lines[6],
        Line::Value {
            metric: Metric::MakeServiceTotal,
            label: 7,
            failure: true,
            value: 1
        }
    );
    assert_eq!(lines[8], Line::Help(Metric::ServiceFailureTotal));
    assert_eq!(
        lines[16],
        Line::Value {
            metric: Metric::ServiceDropTotal,
            label: 3,
            failure: false,
            value: 0
        }
    );
}

#[test]
fn one_drop_is_counted_for_each_service() {
    let mut layers = NewLayer::new();
    let make = layers.new_layer(7).layer("inner");
    let registry = &mut layers.registry;
    let future = make.call("future");
    let service = match future.poll::<u8, u8>(registry, Poll::Ready(Ok(1))) {
        Poll::Ready(Ok(service)) => service,
        _ => panic!("must be made"),
    };
    future.drop(registry);
    assert_eq!(registry.list()[0].1.service_drop_total, 0);
    service.drop(registry);
    make.new_service(registry, "service").drop(registry);
    make.call("failed").drop(registry);
    let metrics = registry.list()[0].1;
    assert_eq!(metrics.service_drop_total, 2);
    assert_eq!(metrics.make_success_total, 2);
    assert_eq!(metrics.make_failure_total, 0);
    assert_eq!(metrics.service_request_total, 0);
}

#[test]
fn stack_metrics_have_names() {
    assert_eq!(Metric::FailureTotal.name(), "stack_failure_total");
    assert_eq!(Metric::MakeServiceTotal.name(), "stack_make_service_total");
    assert_eq!(
        Metric::ServiceFailureTotal.name(),
        "stack_service_failure_total"
    );
    assert_eq!(
        Metric::ServiceRequestTotal.name(),
        "stack_service_request_total"
    );
    assert_eq!(Metric::ServiceDropTotal.name(), "stack_service_drop_total");
    assert_eq!(
        Metric::ServiceDropTotal.help(),
        "Total number of services dropped"
    );
    assert_eq!(Failure.fmt_labels(), "failure=\"true\"");
}

#[test]
fn unused_metrics_are_dropped() {
    let mut registry = Registry::new();
    assert_eq!(registry.get_or_insert_target(40), 0);
    assert_eq!(registry.get_or_insert_target(41), 1);
    assert_eq!(registry.get_or_insert_target(42), 2);
    assert_eq!(registry.get_or_insert_target(43), 3);
    assert_eq!(registry.get_or_insert_target(41), 1);
    let activity = |referenced: bool, last_update: Option<u64>| Activity {
        referenced,
        last_update,
    };
    registry.retain_since(
        100,
        &vec![
            activity(false, Some(99)),
            activity(true, Some(1)),
            activity(false, Some(100)),
            activity(false, None),
        ],
    );
    let targets: Vec<(u64, u64)> = registry.by_target.iter().map(|(k, v)| (*k, *v)).collect();
    assert_eq!(targets, vec![(41, 1), (42, 2)]);
    // A target that was dropped gets new metrics.
    assert_eq!(registry.get_or_insert_target(40), 4);
    assert!(retains(&activity(true, None), 5));
    assert!(!retains(&activity(false, Some(4)), 5));
}

#[test]
fn report_names_are_prefixed() {
    let report = Report::new(Duration::from_secs(60), "registry");
    assert!(report.include_latencies);
    assert_eq!(report.prefix_key("total"), "total");
    let report = report.with_prefix("").with_prefix("http").with_prefix("");
    assert_eq!(report.prefix_key("total"), "http_total");
    let report = report.without_latencies();
    assert!(!report.include_latencies);
    assert_eq!(report.retain_idle, Duration::from_secs(60));
    assert_eq!(report.registry, "registry");
}

#[test]
fn last_update_is_the_latest() {
    let mut time = LastUpdateTime::new(3);
    assert_eq!(time.last_update(), 3);
    time.update(9);
    assert_eq!(time.last_update(), 9);
}

fn spans(exporter: &mut Exporter<&'static str, u32>, from: u32, to: u32) {
    for span in from..to {
        assert!(matches!(
            exporter.follow(Event::Span(Some(span))),
            Step::Wait
        ));
    }
}

#[test]
fn spans_are_sent_in_full_batches() {
    let mut exporter = Exporter::new("node");
    spans(&mut exporter, 0, 99);
    match exporter.follow(Event::Span(Some(99))) {
        Step::Send(request) => {
            assert_eq!(request.spans, (0..100).collect::<Vec<u32>>());
            assert_eq!(request.spans.len(), MAX_BATCH_SIZE);
            assert_eq!(request.node, Some("node"));
            assert!(request.resource.is_none());
        }
        _ => panic!("must send"),
    }
    assert!(matches!(exporter.follow(Event::Sent(true)), Step::Wait));
    spans(&mut exporter, 100, 103);
    match exporter.follow(Event::Span(None)) {
        Step::Flush(request) => {
            assert_eq!(request.spans, vec![100, 101, 102]);
            assert_eq!(request.node, None);
        }
        _ => panic!("must flush"),
    }
}

#[test]
fn unsent_spans_are_lost_with_the_stream() {
    let mut exporter = Exporter::new("node");
    spans(&mut exporter, 0, 5);
    assert!(matches!(
        exporter.follow(Event::ResponseDone),
        Step::Restart
    ));
    assert!(exporter.batch.is_empty());
    spans(&mut exporter, 5, 8);
    assert!(matches!(
        exporter.follow(Event::Sent(false)),
        Step::Restart
    ));
    assert!(matches!(exporter.follow(Event::Span(None)), Step::Stop));
    assert_eq!(exporter.node, Some("node"));
    assert!(exporter.send_spans().is_none());
}
