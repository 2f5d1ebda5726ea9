//! Exporting spans in batches.
//!
//! The spans, the stream of requests and its response are driven from outside.

use vstd::prelude::*;

verus! {

/// How many spans are sent at once at most.
pub const MAX_BATCH_SIZE: usize = 100;

/// A resource that spans are from.
#[derive(Debug)]
pub struct Resource {
    pub kind: String,
    pub labels: Vec<(String, String)>,
}

/// A request that carries spans `S`. The first one carries the node `N` that they are from. No
/// request names a resource.
#[derive(Debug)]
pub struct ExportRequest<N, S> {
    pub spans: Vec<S>,
    pub node: Option<N>,
    pub resource: Option<Resource>,
}

/// Exports spans.
#[derive(Debug)]
pub struct Exporter<N, S> {
    pub node: Option<N>,
    pub batch: Vec<S>,
}

/// What happens while a stream of requests is open.
#[derive(Debug)]
pub enum Event<S> {
    /// The stream was answered, or failed.
    ResponseDone,
    /// The next span, nothing if there will be no other.
    Span(Option<S>),
    /// Whether the last request could be sent.
    Sent(bool),
}

/// What comes next.
#[derive(Debug)]
pub enum Step<N, S> {
    /// Wait for the next span or for the response.
    Wait,
    /// Send the request, whose spans are counted, then go on.
    Send(ExportRequest<N, S>),
    /// Send the request, whose spans are counted, then stop.
    Flush(ExportRequest<N, S>),
    /// Open a new stream.
    Restart,
    /// Stop.
    Stop,
}

/// What holds between two events: there is room for a span.
pub open spec fn wf<N, S>(exporter: Exporter<N, S>) -> bool {
    exporter.batch@.len() < MAX_BATCH_SIZE
}

/// Whether `request` carries `spans`, and the node that has not been sent yet.
pub open spec fn carries<N, S>(
    request: ExportRequest<N, S>,
    spans: Seq<S>,
    node: Option<N>,
) -> bool {
    request.spans@ == spans && request.node == node && request.resource is None
}

/// Whether `step` is what comes next after `event`, and the exporter is `after` then.
pub open spec fn follows<N, S>(
    before: Exporter<N, S>,
    event: Event<S>,
    step: Step<N, S>,
    after: Exporter<N, S>,
) -> bool {
    match event {
        // What was not sent is lost with the stream.
        Event::ResponseDone => {
            &&& step is Restart
            &&& after.batch@ == Seq::<S>::empty()
            &&& after.node == before.node
        },
        Event::Sent(false) => {
            &&& step is Restart
            &&& after.batch@ == Seq::<S>::empty()
            &&& after.node == before.node
        },
        Event::Sent(true) => {
            &&& step is Wait
            &&& after.batch@ == before.batch@
            &&& after.node == before.node
        },
        Event::Span(Some(span)) => {
            let batch = before.batch@.push(span);
            if batch.len() == MAX_BATCH_SIZE {
                &&& step matches Step::Send(request)
                &&& carries(request, batch, before.node)
                &&& after.batch@ == Seq::<S>::empty()
                &&& after.node is None
            } else {
                &&& step is Wait
                &&& after.batch@ == batch
                &&& after.node == before.node
            }
        },
        Event::Span(None) => {
            &&& after.batch@ == Seq::<S>::empty()
            &&& if before.batch@.len() == 0 {
                step is Stop && after.node == before.node
            } else {
                &&& step matches Step::Flush(request)
                &&& carries(request, before.batch@, before.node)
                &&& after.node is None
            }
        },
    }
}

impl<N, S> Exporter<N, S> {
    /// Exports spans from `node`.
    pub fn new(node: N) -> (exporter: Self)
        ensures
            exporter.node == Some(node),
            exporter.batch@ == Seq::<S>::empty(),
            wf(exporter),
    {
        Exporter { node: Some(node), batch: Vec::new() }
    }

    /// The request for the spans in the batch, if there are any. It takes the node with it.
    pub fn send_spans(&mut self) -> (request: Option<ExportRequest<N, S>>)
        ensures
            final(self).batch@ == Seq::<S>::empty(),
            match request {
                Some(request) => {
                    &&& old(self).batch@.len() > 0
                    &&& carries(request, old(self).batch@, old(self).node)
                    &&& final(self).node is None
                },
                None => old(self).batch@.len() == 0 && final(self).node == old(self).node,
            },
    {
        if self.batch.len() == 0 {
            return None;
        }
        let mut spans: Vec<S> = Vec::new();
        core::mem::swap(&mut self.batch, &mut spans);
        Some(ExportRequest { spans, node: self.node.take(), resource: None })
    }

    /// Goes on after `event`.
    pub fn follow(&mut self, event: Event<S>) -> (step: Step<N, S>)
        requires
            wf(*old(self)),
        ensures
            follows(*old(self), event, step, *final(self)),
            wf(*final(self)),
    {
        match event {
            Event::ResponseDone => {
                self.batch = Vec::new();
                Step::Restart
            },
            Event::Sent(sent) => {
                if sent {
                    Step::Wait
                } else {
                    // The stream went away unexpectedly.
                    self.batch = Vec::new();
                    Step::Restart
                }
            },
            Event::Span(Some(span)) => {
                self.batch.push(span);
                if self.batch.len() == MAX_BATCH_SIZE {
                    match self.send_spans() {
                        Some(request) => Step::Send(request),
                        None => Step::Wait,
                    }
                } else {
                    Step::Wait
                }
            },
            Event::Span(None) => match self.send_spans() {
                Some(request) => Step::Flush(request),
                None => Step::Stop,
            },
        }
    }
}

/// The batches that are sent and the batch that is left after `spans` came, one after the
/// other.
pub open spec fn batched<S>(batch: Seq<S>, spans: Seq<S>) -> (Seq<Seq<S>>, Seq<S>)
    decreases spans.len(),
{
    if spans.len() == 0 {
        (Seq::empty(), batch)
    } else {
        let (sent, left) = batched(batch, spans.drop_last());
        let next = left.push(spans.last());
        if next.len() == MAX_BATCH_SIZE {
            (sent.push(next), Seq::empty())
        } else {
            (sent, next)
        }
    }
}

/// A span that comes after others is handled as `batched` says.
pub proof fn law_spans_are_batched<N, S>(
    batch: Seq<S>,
    spans: Seq<S>,
    span: S,
    before: Exporter<N, S>,
    step: Step<N, S>,
    after: Exporter<N, S>,
)
    requires
        before.batch@ == batched(batch, spans).1,
        follows(before, Event::Span(Some(span)), step, after),
    ensures
        after.batch@ == batched(batch, spans.push(span)).1,
        batched(batch, spans.push(span)).0 == match step {
            Step::Send(request) => batched(batch, spans).0.push(request.spans@),
            _ => batched(batch, spans).0,
        },
{
    assert(spans.push(span).drop_last() =~= spans);
}

/// While a stream is open no span is lost or sent twice, and their order is kept. All batches
/// but the last are full.
pub proof fn law_no_span_is_lost<S>(batch: Seq<S>, spans: Seq<S>)
    requires
        batch.len() < MAX_BATCH_SIZE,
    ensures
        batched(batch, spans).0.flatten() + batched(batch, spans).1 == batch + spans,
        batched(batch, spans).1.len() < MAX_BATCH_SIZE,
        forall|i: int|
            0 <= i < batched(batch, spans).0.len() ==> (#[trigger] batched(batch, spans).0[i]).len()
                == MAX_BATCH_SIZE,
    decreases spans.len(),
{
    let (all, rest) = batched(batch, spans);
    if spans.len() == 0 {
        assert(all.flatten() =~= Seq::<S>::empty());
        assert(all.flatten() + rest =~= batch + spans);
    } else {
        let before = spans.drop_last();
        law_no_span_is_lost(batch, before);
        let (sent, left) = batched(batch, before);
        let next = left.push(spans.last());
        assert(batch + spans =~= (batch + before).push(spans.last()));
        assert(sent.flatten() + next =~= (sent.flatten() + left).push(spans.last()));
        if next.len() == MAX_BATCH_SIZE {
            sent.lemma_flatten_push(next);
            assert(all.flatten() + rest =~= sent.flatten() + next);
        }
    }
}

/// The node goes with one request only, the first.
pub proof fn law_node_is_sent_once<N, S>(
    before: Exporter<N, S>,
    event: Event<S>,
    step: Step<N, S>,
    after: Exporter<N, S>,
)
    requires
        wf(before),
        follows(before, event, step, after),
    ensures
        match step {
            Step::Send(request) => request.node == before.node && after.node is None,
            Step::Flush(request) => request.node == before.node && after.node is None,
            _ => after.node == before.node,
        },
{
}

/// The spans that `step` sends.
pub open spec fn spans_in<N, S>(step: Step<N, S>) -> Seq<S> {
    match step {
        Step::Send(request) => request.spans@,
        Step::Flush(request) => request.spans@,
        _ => Seq::empty(),
    }
}

/// A span is sent with those before it, or kept with them, in order. They are sent exactly when
/// they are a hundred.
pub proof fn law_spans_are_sent_or_kept<N, S>(
    before: Exporter<N, S>,
    span: S,
    step: Step<N, S>,
    after: Exporter<N, S>,
)
    requires
        wf(before),
        exists|e: &mut Exporter<N, S>|
            *e == before && *final(e) == after && #[trigger] call_ensures(
                Exporter::<N, S>::follow,
                (e, Event::Span(Some(span))),
                step,
            ),
    ensures
        spans_in(step) + after.batch@ == before.batch@.push(span),
        step is Send <==> before.batch@.len() + 1 == 100,
        step is Send ==> after.batch@.len() == 0,
        step !is Send ==> step is Wait,
        after.batch@.len() < 100,
{
    assert(spans_in(step) + after.batch@ =~= before.batch@.push(span));
}

/// When no span will come all that are kept are sent, if there are any, and it is over.
pub proof fn law_last_spans_are_flushed<N, S>(
    before: Exporter<N, S>,
    step: Step<N, S>,
    after: Exporter<N, S>,
)
    requires
        wf(before),
        exists|e: &mut Exporter<N, S>|
            *e == before && *final(e) == after && #[trigger] call_ensures(
                Exporter::<N, S>::follow,
                (e, Event::Span(None)),
                step,
            ),
    ensures
        step is Stop || step is Flush,
        step is Stop <==> before.batch@.len() == 0,
        spans_in(step) == before.batch@,
        after.batch@.len() == 0,
{
}

/// A new stream is opened exactly if the old one was answered or a request could not be sent.
/// A request that was sent changes nothing.
pub proof fn law_streams_are_restarted<N, S>(
    before: Exporter<N, S>,
    event: Event<S>,
    step: Step<N, S>,
    after: Exporter<N, S>,
)
    requires
        wf(before),
        exists|e: &mut Exporter<N, S>|
            *e == before && *final(e) == after && #[trigger] call_ensures(
                Exporter::<N, S>::follow,
                (e, event),
                step,
            ),
    ensures
        step is Restart <==> event is ResponseDone || event == Event::<S>::Sent(false),
        step is Restart ==> after.batch@.len() == 0,
        event == Event::<S>::Sent(true) ==> step is Wait && after.batch@ == before.batch@,
{
}

/// The node goes with the first request that is sent, and is kept until then. No request names
/// a resource.
pub proof fn law_requests_carry_the_node<N, S>(
    before: Exporter<N, S>,
    event: Event<S>,
    step: Step<N, S>,
    after: Exporter<N, S>,
)
    requires
        wf(before),
        exists|e: &mut Exporter<N, S>|
            *e == before && *final(e) == after && #[trigger] call_ensures(
                Exporter::<N, S>::follow,
                (e, event),
                step,
            ),
    ensures
        step matches Step::Send(request) ==> request.node == before.node && request.resource is None
            && after.node is None,
        step matches Step::Flush(request) ==> request.node == before.node && request.resource
            is None && after.node is None,
        step !is Send && step !is Flush ==> after.node == before.node,
{
}

/// An exporter starts with its node and without spans. A request takes all spans and the node,
/// and is made exactly if there are spans.
pub proof fn law_requests_take_all_spans<N, S>(
    node: N,
    fresh: Exporter<N, S>,
    before: Exporter<N, S>,
    request: Option<ExportRequest<N, S>>,
    after: Exporter<N, S>,
)
    requires
        call_ensures(Exporter::<N, S>::new, (node,), fresh),
        exists|e: &mut Exporter<N, S>|
            *e == before && *final(e) == after && #[trigger] call_ensures(
                Exporter::<N, S>::send_spans,
                (e,),
                request,
            ),
    ensures
        fresh.node == Some(node),
        fresh.batch@.len() == 0,
        request is Some <==> before.batch@.len() > 0,
        request matches Some(request) ==> {
            &&& request.spans@ == before.batch@
            &&& request.node == before.node
            &&& request.resource is None
            &&& after.node is None
        },
        request is None ==> after.node == before.node,
        after.batch@.len() == 0,
{
}

/// Every event is accepted while there is room for a span.
pub proof fn law_events_are_accepted<N, S>(before: Exporter<N, S>, event: Event<S>)
    requires
        before.batch@.len() < 100,
    ensures
        forall|e: &mut Exporter<N, S>|
            *e == before ==> #[trigger] call_requires(Exporter::<N, S>::follow, (e, event)),
{
}

} // verus!
