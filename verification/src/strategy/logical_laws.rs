//! What is kept of the strategies that the control plane sends.

use super::api;
use super::logical::{self, WeightOverflow};
use super::client::{self, Event, Item, Watch};
use super::discover::{self, Discover};
use super::types::{self, Concrete, Detect, Endpoint, Logical, LogicalView, Split, Strategy};
use super::weights;
use crate::destination::api::{Ip, WeightedAddr};
use crate::destination::authority;
use crate::destination::labels;
use crate::destination::laws as destination;
use crate::index_map::entries;
use crate::net::SocketAddr;
use crate::profiles::route::Routes;
use crate::text;
use crate::time;
use vstd::prelude::*;

verus! {

/// Whether `kept` are the labels of `list`: each name once with its last value, and in their
/// order if no name occurs twice.
pub open spec fn are_labels(
    kept: Seq<(Seq<char>, Seq<char>)>,
    list: Seq<(String, String)>,
) -> bool {
    &&& entries::distinct(kept)
    &&& forall|i: int| 0 <= i < kept.len() ==> destination::counts(list, #[trigger] kept[i])
    &&& forall|j: int|
        0 <= j < list.len() ==> entries::has_key(kept, (#[trigger] list[j]).0@)
    &&& entries::distinct(text::pair_views(list)) ==> kept == text::pair_views(list)
}

proof fn lemma_collected(list: Seq<(String, String)>)
    ensures
        are_labels(logical::collected(text::pair_views(list)), list),
    decreases list.len(),
{
    let pairs = text::pair_views(list);
    let kept = logical::collected(pairs);
    if list.len() == 0 {
        assert(kept =~= pairs);
    } else {
        let rest = list.drop_last();
        let fewer = pairs.drop_last();
        assert(text::pair_views(rest) =~= fewer);
        lemma_collected(rest);
        let before = logical::collected(fewer);
        let last = list.len() - 1;
        let (name, value) = (list[last].0@, list[last].1@);
        assert(pairs.last() == (name, value));
        entries::lemma_inserted(before, name, value);
        assert forall|i: int| 0 <= i < kept.len() implies destination::counts(
            list,
            #[trigger] kept[i],
        ) by {
            if kept[i] == (name, value) {
                assert(list[last].0@ == kept[i].0);
            } else {
                assert(i < before.len() && kept[i] == before[i]);
                if kept[i].0 == name {
                    entries::lemma_position(before, i);
                }
                assert(destination::counts(rest, before[i]));
                let j = choose|j: int|
                    0 <= j < rest.len() && (#[trigger] rest[j]).0@ == before[i].0 && rest[j].1@
                        == before[i].1 && forall|k: int|
                        j < k < rest.len() ==> (#[trigger] rest[k]).0@ != before[i].0;
                assert(list[j] == rest[j]);
                assert forall|k: int| j < k < list.len() implies (#[trigger] list[k]).0@
                    != kept[i].0 by {
                    if k < last {
                        assert(rest[k] == list[k]);
                    }
                }
            }
        }
        assert forall|j: int| 0 <= j < list.len() implies entries::has_key(
            kept,
            (#[trigger] list[j]).0@,
        ) by {
            assert(entries::as_map(kept).dom() == entries::as_map(before).insert(
                name,
                value,
            ).dom());
            if j < last {
                assert(rest[j] == list[j]);
                assert(entries::as_map(before).dom().contains(list[j].0@));
            }
            assert(entries::as_map(kept).dom().contains(list[j].0@));
        }
        if entries::distinct(pairs) {
            assert(entries::distinct(fewer)) by {
                assert forall|i: int, j: int| 0 <= i < j < fewer.len() implies #[trigger] fewer[i].0
                    != #[trigger] fewer[j].0 by {
                    assert(pairs[i] == fewer[i]);
                    assert(pairs[j] == fewer[j]);
                }
            }
            if entries::has_key(before, name) {
                let p = entries::position(before, name);
                assert(pairs[p] == fewer[p]);
                assert(pairs[p].0 != pairs[last].0);
            }
            assert(kept =~= pairs);
        }
    }
}

/// Whether `endpoint` is spoken to as a message says, of which `parsed` is the name that its
/// host name was parsed as.
pub open spec fn is_endpoint(
    endpoint: Endpoint,
    pb: WeightedAddr,
    parsed: Option<String>,
) -> bool {
    &&& endpoint.identity is Some <==> parsed is Some && (pb.tls_identity matches Some(tls)
        && tls.dns_like_identity is Some)
    &&& endpoint.identity matches Some(name) ==> name@ == parsed->0@
    &&& endpoint.proxy_http_transport is Some <==> (pb.protocol_hint matches Some(hint) && hint.h2)
    &&& endpoint.authority_override is Some <==> (pb.authority_override matches Some(text)
        && authority::is_authority(text@))
    &&& endpoint.authority_override matches Some(text) ==> text@ == pb.authority_override->0@
    &&& are_labels(labels::label_entries(endpoint.metric_labels), pb.metric_labels@)
    &&& time::is_given(endpoint.connect_timeout, pb.connect_timeout)
}

/// Whether nothing is known of `endpoint`.
pub open spec fn is_unknown(endpoint: Endpoint) -> bool {
    &&& endpoint.identity is None
    &&& endpoint.proxy_http_transport is None
    &&& endpoint.authority_override is None
    &&& labels::label_entries(endpoint.metric_labels).len() == 0
    &&& endpoint.connect_timeout.secs == 0
    &&& endpoint.connect_timeout.nanos == 0
}

/// Whether a message means no place: it has no kind, an endpoint has no address, a service no
/// authority, or a split no place with a weight.
pub open spec fn is_nowhere(orig: api::Logical) -> bool
    decreases orig,
{
    match orig.kind {
        None => true,
        Some(api::LogicalKind::Concrete(concrete)) => match concrete.kind {
            None => true,
            Some(api::ConcreteKind::Forward { addr, .. }) => !(addr matches Some(addr) && (
            addr.addr matches Some(tcp) && tcp.ip is Some)),
            Some(api::ConcreteKind::Balance { authority, .. }) => !authority::is_authority(
                authority@,
            ),
        },
        Some(api::LogicalKind::Split(targets)) => all_left_out(targets@),
    }
}

/// Whether a split leaves a target out: it has no weight or means no place.
pub open spec fn is_left_out(orig: api::Weighted) -> bool
    decreases orig,
{
    match orig.target {
        Some(target) => orig.weight == 0 || is_nowhere(target),
        None => true,
    }
}

/// Whether a split leaves all of `origs` out.
pub open spec fn all_left_out(origs: Seq<api::Weighted>) -> bool
    decreases origs,
{
    origs.len() == 0 || (is_left_out(origs.last()) && all_left_out(origs.drop_last()))
}

/// Whether `made` is the place that a message means.
pub open spec fn is_place(made: Logical, orig: api::Logical) -> bool
    decreases orig,
{
    match orig.kind {
        None => false,
        Some(api::LogicalKind::Concrete(concrete)) => match concrete.kind {
            None => false,
            Some(api::ConcreteKind::Forward { addr, identity }) => {
                &&& made matches Logical::Concrete(Concrete::Forward(sock, endpoint))
                &&& addr matches Some(addr)
                &&& addr.addr matches Some(tcp)
                &&& destination::is_at(sock, tcp)
                &&& is_endpoint(endpoint, addr, identity)
            },
            Some(
                api::ConcreteKind::Balance { authority, peak_ewma_decay, peak_ewma_default_rtt },
            ) => {
                &&& made matches Logical::Concrete(Concrete::Balance(name, balancer))
                &&& name@ == authority@
                &&& authority::is_authority(authority@)
                &&& time::is_given(balancer.peak_ewma_decay, peak_ewma_decay)
                &&& time::is_given(balancer.peak_ewma_default_rtt, peak_ewma_default_rtt)
            },
        },
        Some(api::LogicalKind::Split(targets)) => {
            &&& made matches Logical::Split(split)
            &&& split.targets@.len() > 0
            &&& are_places(split.targets@, split.weights@, targets@)
        },
    }
}

/// Whether `places` with `weights` are, one by one, what a split does not leave out of `origs`.
pub open spec fn are_places(
    places: Seq<Logical>,
    weights: Seq<u32>,
    origs: Seq<api::Weighted>,
) -> bool
    decreases origs,
{
    if origs.len() == 0 {
        places.len() == 0 && weights.len() == 0
    } else if is_left_out(origs.last()) {
        are_places(places, weights, origs.drop_last())
    } else {
        &&& places.len() > 0
        &&& weights.len() > 0
        &&& weights.last() == origs.last().weight
        &&& origs.last().target matches Some(target)
        &&& is_place(places.last(), target)
        &&& are_places(places.drop_last(), weights.drop_last(), origs.drop_last())
    }
}

/// The sum of the weights of what a split does not leave out.
pub open spec fn kept_weight(origs: Seq<api::Weighted>) -> nat
    decreases origs.len(),
{
    if origs.len() == 0 {
        0
    } else if is_left_out(origs.last()) {
        kept_weight(origs.drop_last())
    } else {
        kept_weight(origs.drop_last()) + origs.last().weight as nat
    }
}

/// Whether the weights of a split in a message are too large to be summed up. Targets without a
/// weight do not count.
pub open spec fn is_too_heavy(orig: api::Logical) -> bool
    decreases orig,
{
    match orig.kind {
        Some(api::LogicalKind::Split(targets)) => kept_weight(targets@) > 0xffff_ffff
            || any_too_heavy(targets@),
        _ => false,
    }
}

/// Whether a target with a weight is too heavy.
pub open spec fn any_too_heavy(origs: Seq<api::Weighted>) -> bool
    decreases origs,
{
    origs.len() > 0 && (any_too_heavy(origs.drop_last()) || (match origs.last().target {
        Some(target) => origs.last().weight > 0 && is_too_heavy(target),
        None => false,
    }))
}

proof fn lemma_given(span: Option<time::ProtoDuration>)
    ensures
        time::is_given(logical::time_or_none(span), span),
{
    if let Some(span) = span {
        time::lemma_converted(span);
    }
}

proof fn lemma_nowhere(orig: api::Logical)
    ensures
        is_nowhere(orig) <==> logical::meaning(orig) is None,
    decreases orig,
{
    if let Some(api::LogicalKind::Split(targets)) = orig.kind {
        lemma_all_left_out(targets@);
    }
}

proof fn lemma_all_left_out(origs: Seq<api::Weighted>)
    ensures
        all_left_out(origs) <==> logical::split_meaning(origs).0.len() == 0,
        kept_weight(origs) == weights::total(logical::split_meaning(origs).1),
        all_left_out(origs) <==> kept_weight(origs) == 0,
    decreases origs,
{
    if origs.len() > 0 {
        let last = origs.last();
        let rest = origs.drop_last();
        lemma_all_left_out(rest);
        if let Some(target) = last.target {
            lemma_nowhere(target);
        }
        if !is_left_out(last) {
            let all = logical::split_meaning(origs).1;
            assert(all.drop_last() =~= logical::split_meaning(rest).1);
        }
    }
}

proof fn lemma_too_heavy(orig: api::Logical)
    ensures
        is_too_heavy(orig) <==> !logical::fits(orig),
    decreases orig,
{
    if let Some(api::LogicalKind::Split(targets)) = orig.kind {
        lemma_all_left_out(targets@);
        lemma_any_too_heavy(targets@);
    }
}

proof fn lemma_any_too_heavy(origs: Seq<api::Weighted>)
    ensures
        any_too_heavy(origs) <==> !logical::all_fit(origs),
    decreases origs,
{
    if origs.len() > 0 {
        lemma_any_too_heavy(origs.drop_last());
        if let Some(target) = origs.last().target {
            lemma_too_heavy(target);
        }
    }
}

proof fn lemma_views_len(logicals: Seq<Logical>)
    ensures
        types::logical_views(logicals).len() == logicals.len(),
    decreases logicals.len(),
{
    if logicals.len() > 0 {
        lemma_views_len(logicals.drop_last());
    }
}

proof fn lemma_place(made: Logical, orig: api::Logical)
    requires
        logical::meaning(orig) == Some(types::logical_view(made)),
    ensures
        is_place(made, orig),
    decreases orig,
{
    match orig.kind {
        None => {},
        Some(api::LogicalKind::Concrete(concrete)) => match concrete.kind {
            None => {},
            Some(api::ConcreteKind::Forward { addr, identity }) => {
                let pb = addr->0;
                assert(made matches Logical::Concrete(Concrete::Forward(_, _)));
                let endpoint = made->Concrete_0->Forward_1;
                assert(endpoint.content() == logical::endpoint_view(pb, identity));
                lemma_collected(pb.metric_labels@);
                lemma_given(pb.connect_timeout);
                if let Some(Ip::Ipv6 { first, last }) = pb.addr->0.ip {
                    assert(0 <= first * 0x1_0000_0000_0000_0000 + last
                        <= 0xffff_ffff_ffff_ffff_ffff_ffff_ffff_ffff);
                }
                assert(text::text_view(endpoint.identity) == endpoint.content().identity);
                assert(text::text_view(endpoint.authority_override)
                    == endpoint.content().authority_override);
                assert(endpoint.content().connect_timeout == endpoint.connect_timeout);
                assert(endpoint.content().proxy_http_transport == endpoint.proxy_http_transport);
            },
            Some(api::ConcreteKind::Balance { peak_ewma_decay, peak_ewma_default_rtt, .. }) => {
                lemma_given(peak_ewma_decay);
                lemma_given(peak_ewma_default_rtt);
            },
        },
        Some(api::LogicalKind::Split(targets)) => {
            assert(made is Split);
            let split = made->Split_0;
            lemma_all_left_out(targets@);
            lemma_views_len(split.targets@);
            lemma_places(split.targets@, split.weights@, targets@);
        },
    }
}

proof fn lemma_places(places: Seq<Logical>, weights: Seq<u32>, origs: Seq<api::Weighted>)
    requires
        logical::split_meaning(origs) == (types::logical_views(places), weights),
    ensures
        are_places(places, weights, origs),
    decreases origs,
{
    lemma_views_len(places);
    if origs.len() > 0 {
        let last = origs.last();
        let rest = origs.drop_last();
        if let Some(target) = last.target {
            lemma_nowhere(target);
        }
        if is_left_out(last) {
            lemma_places(places, weights, rest);
        } else {
            let target = last.target->0;
            let (views, all) = logical::split_meaning(origs);
            let (fewer, less) = logical::split_meaning(rest);
            assert(views.drop_last() =~= fewer);
            assert(all.drop_last() =~= less);
            assert(views.last() == logical::meaning(target)->0);
            assert(places.len() > 0);
            assert(types::logical_views(places).drop_last() =~= types::logical_views(
                places.drop_last(),
            ));
            assert(types::logical_views(places).last() == types::logical_view(places.last()));
            lemma_place(places.last(), target);
            lemma_places(places.drop_last(), weights.drop_last(), rest);
        }
    }
}

/// A message becomes the place that it means, with all that it says of it. A split keeps its
/// targets in their order, each with its weight, and leaves out those that have none or mean no
/// place. Only weights that are too large to be summed up are refused.
pub proof fn law_places_are_kept(
    orig: api::Logical,
    made: Result<Option<Logical>, WeightOverflow>,
)
    requires
        call_ensures(Logical::checked_from_api, (&orig,), made),
    ensures
        made is Err <==> is_too_heavy(orig),
        made matches Ok(made) ==> {
            &&& made is None <==> is_nowhere(orig)
            &&& made matches Some(made) ==> is_place(made, orig)
        },
{
    lemma_too_heavy(orig);
    lemma_nowhere(orig);
    if let Ok(Some(made)) = made {
        lemma_place(made, orig);
    }
}

/// The same holds where the weights are known to fit.
pub proof fn law_fitting_places_are_kept(orig: api::Logical, made: Option<Logical>)
    requires
        !is_too_heavy(orig),
        call_ensures(Logical::from_api, (&orig,), made),
    ensures
        made is None <==> is_nowhere(orig),
        made matches Some(made) ==> is_place(made, orig),
{
    lemma_nowhere(orig);
    if let Some(made) = made {
        lemma_place(made, orig);
    }
}

/// Whether `detect` is how a message says that protocols are detected: by what clients send if
/// it says so, and not at all otherwise.
pub open spec fn is_detection(detect: Detect, said: Option<api::ProtocolDetection>) -> bool {
    match said {
        Some(
            api::ProtocolDetection {
                strategy: Some(api::DetectStrategy::Client { buffer_capacity, timeout }),
            },
        ) => {
            &&& detect matches Detect::Client { buffer_capacity: capacity, timeout: within }
            &&& capacity == buffer_capacity
            &&& time::is_given(within, timeout)
        },
        _ => detect is Opaque,
    }
}

/// Whether `logical` is `addr` itself, of which nothing is known.
pub open spec fn is_itself(logical: Logical, addr: SocketAddr) -> bool {
    &&& logical matches Logical::Concrete(Concrete::Forward(to, endpoint))
    &&& to == addr
    &&& is_unknown(endpoint)
}

/// Whether `strategy` is what `response` says of connections to `addr`: they go to the place in
/// it, and to `addr` itself if it means none.
pub open spec fn is_strategy(
    strategy: Strategy,
    addr: SocketAddr,
    response: api::StrategyResponse,
) -> bool {
    &&& strategy.addr == addr
    &&& is_detection(strategy.detect, response.detect)
    &&& match response.logical {
        Some(logical) => if is_nowhere(logical) {
            is_itself(strategy.logical, addr)
        } else {
            is_place(strategy.logical, logical)
        },
        None => is_itself(strategy.logical, addr),
    }
}

/// Whether the weights in `response` are too large.
pub open spec fn response_too_heavy(response: api::StrategyResponse) -> bool {
    response.logical matches Some(logical) && is_too_heavy(logical)
}

/// What goes to `addr` as it is, of which nothing is known, is `addr` itself.
pub proof fn lemma_itself(logical: Logical, addr: SocketAddr)
    requires
        types::logical_view(logical) == LogicalView::Forward(addr, types::unknown_endpoint()),
    ensures
        is_itself(logical, addr),
{
    assert(logical matches Logical::Concrete(Concrete::Forward(_, _)));
    let endpoint = logical->Concrete_0->Forward_1;
    let content = endpoint.content();
    assert(content == types::unknown_endpoint());
    assert(text::text_view(endpoint.identity) == content.identity);
    assert(text::text_view(endpoint.authority_override) == content.authority_override);
    assert(endpoint.proxy_http_transport == content.proxy_http_transport);
    assert(endpoint.connect_timeout == content.connect_timeout);
    assert(labels::label_entries(endpoint.metric_labels) == content.metric_labels);
}

proof fn lemma_strategy(strategy: Strategy, addr: SocketAddr, response: api::StrategyResponse)
    requires
        client::says(response, addr, strategy),
    ensures
        is_strategy(strategy, addr, response),
{
    match response.detect {
        Some(
            api::ProtocolDetection { strategy: Some(api::DetectStrategy::Client { timeout, .. }) },
        ) => {
            lemma_given(timeout);
        },
        _ => {},
    }
    match response.logical {
        Some(logical) => {
            lemma_nowhere(logical);
            if is_nowhere(logical) {
                lemma_itself(strategy.logical, addr);
            } else {
                lemma_place(strategy.logical, logical);
            }
        },
        None => {
            lemma_itself(strategy.logical, addr);
        },
    }
}

/// Connections are treated as the response says. Only weights that are too large to be summed
/// up are refused.
pub proof fn law_responses_are_followed(
    addr: SocketAddr,
    response: api::StrategyResponse,
    made: Result<Strategy, WeightOverflow>,
)
    requires
        call_ensures(Strategy::checked_new, (addr, &response), made),
    ensures
        made is Err <==> response_too_heavy(response),
        made matches Ok(strategy) ==> is_strategy(strategy, addr, response),
{
    if let Some(logical) = response.logical {
        lemma_too_heavy(logical);
    }
    if let Ok(strategy) = made {
        lemma_strategy(strategy, addr, response);
    }
}

/// The same holds where the weights are known to fit.
pub proof fn law_fitting_responses_are_followed(
    addr: SocketAddr,
    response: api::StrategyResponse,
    strategy: Strategy,
)
    requires
        !response_too_heavy(response),
        call_ensures(Strategy::new, (addr, &response), strategy),
    ensures
        is_strategy(strategy, addr, response),
{
    lemma_strategy(strategy, addr, response);
}

/// A watch publishes what each response says, and refuses only those whose weights are too
/// large.
pub proof fn law_watch_publishes_what_is_said<B, T, X>(
    before: Watch<B, T>,
    addr: SocketAddr,
    event: Event<B, T, api::StrategyResponse, X>,
    after: Watch<B, T>,
    item: Result<Item<Strategy, X>, WeightOverflow>,
)
    requires
        client::answers(event, before),
        exists|w: &mut Watch<B, T>|
            *w == before && *final(w) == after && #[trigger] call_ensures(
                Watch::<B, T>::respond::<X>,
                (w, addr, event),
                item,
            ),
    ensures
        ({
            let response = match event {
                Event::Init(Ok((response, _))) => response,
                Event::Response(Ok(response)) => response,
                _ => None,
            };
            &&& item is Err <==> (response matches Some(response) && response_too_heavy(response))
            &&& item matches Ok(Item::Publish(strategy)) ==> (response matches Some(response)
                && is_strategy(strategy, addr, response))
        }),
{
    if let Some(response) = client::response_in(event) {
        if let Some(logical) = response.logical {
            lemma_too_heavy(logical);
        }
        if let Ok(Item::Publish(strategy)) = item {
            lemma_strategy(strategy, addr, response);
        }
    }
}

/// An opaque strategy forwards connections as they are. By its profile a service gets its own
/// connections unless the profile overrides that, and protocols are detected at once.
pub proof fn law_plain_strategies<B>(
    addr: SocketAddr,
    opaque: Strategy,
    routes: Routes<B>,
    split: Split,
    by_profile: Strategy,
)
    requires
        call_ensures(Strategy::opaque, (addr,), opaque),
        call_ensures(Strategy::from_profile::<B>, (addr, &routes, split), by_profile),
    ensures
        opaque.addr == addr,
        opaque.detect is Opaque,
        is_itself(opaque.logical, addr),
        by_profile.addr == addr,
        by_profile.detect matches Detect::Client { buffer_capacity, timeout } && buffer_capacity
            == 0 && timeout.secs == 0 && timeout.nanos == 0,
        routes.dst_overrides@.len() == 0 ==> is_itself(by_profile.logical, addr),
        routes.dst_overrides@.len() > 0 ==> {
            &&& by_profile.logical matches Logical::Split(made)
            &&& made.weights@ == split.weights@
            &&& types::logical_views(made.targets@) == types::logical_views(split.targets@)
        },
{
    lemma_itself(opaque.logical, addr);
    if routes.dst_overrides@.len() == 0 {
        lemma_itself(by_profile.logical, addr);
    }
}

/// An endpoint of which nothing is known has nothing.
pub proof fn law_unknown_endpoints_have_nothing(endpoint: Endpoint)
    requires
        call_ensures(Endpoint::unknown, (), endpoint),
    ensures
        is_unknown(endpoint),
{
    let content = endpoint.content();
    assert(text::text_view(endpoint.identity) == content.identity);
    assert(text::text_view(endpoint.authority_override) == content.authority_override);
    assert(labels::label_entries(endpoint.metric_labels) == content.metric_labels);
}

/// A strategy is discovered unless the profile cannot be had.
pub proof fn law_strategies_are_discovered<P, E, B, X>(
    received: Result<Option<Routes<B>>, X>,
    found: Result<discover::Strategy, X>,
)
    requires
        received matches Ok(Some(routes)) ==> routes.dst_overrides@.len() == 0,
        call_ensures(Discover::<P, E>::call::<B, X>, (received,), found),
    ensures
        found is Ok <==> received is Ok,
        found matches Err(error) ==> received == Err::<Option<Routes<B>>, X>(error),
{
}

} // verus!
