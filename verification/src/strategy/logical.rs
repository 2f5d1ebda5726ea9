//! What strategies that the control plane sends mean.

use super::api;
use super::types::{
    self, Balancer, Concrete, Detect, Endpoint, EndpointView, Logical, LogicalView,
    ProxyHttpTransport, Split, Strategy,
};
use super::weights::{self, weighs};
use crate::destination::api::{ProtocolHint, TlsIdentity, WeightedAddr};
use crate::destination::labels::{self, insert_label, new_labels, Labels};
use crate::destination::pb::{self, to_authority, to_id, to_sock_addr};
use crate::destination::authority;
use crate::index_map::entries;
use crate::net::SocketAddr;
use crate::profiles::route::Routes;
use crate::text;
use crate::time::{self, Duration, ProtoDuration};
use std::sync::Arc;
use vstd::prelude::*;

verus! {

/// The span of time that a message means, and none at all if it means none.
pub open spec fn time_or_none(timeout: Option<ProtoDuration>) -> Duration {
    match timeout {
        Some(timeout) => match time::converted(timeout) {
            Some(timeout) => timeout,
            None => types::no_time(),
        },
        None => types::no_time(),
    }
}

/// The labels that are collected from `list` in turn.
pub open spec fn collected(list: Seq<(Seq<char>, Seq<char>)>) -> Seq<(Seq<char>, Seq<char>)>
    decreases list.len(),
{
    if list.len() == 0 {
        Seq::empty()
    } else {
        entries::inserted(collected(list.drop_last()), list.last().0, list.last().1)
    }
}

/// How the endpoint in a message is spoken to.
pub open spec fn endpoint_view(addr: WeightedAddr, identity: Option<String>) -> EndpointView {
    EndpointView {
        identity: match addr.tls_identity {
            Some(TlsIdentity { dns_like_identity: Some(_) }) => text::text_view(identity),
            _ => None,
        },
        proxy_http_transport: match addr.protocol_hint {
            Some(ProtocolHint { h2: true }) => Some(ProxyHttpTransport::H2),
            _ => None,
        },
        authority_override: pb::overriding(text::text_view(addr.authority_override)),
        metric_labels: collected(text::pair_views(addr.metric_labels@)),
        connect_timeout: time_or_none(addr.connect_timeout),
    }
}

/// The single place that a message means, if it means one.
pub open spec fn concrete_meaning(concrete: api::Concrete) -> Option<LogicalView> {
    match concrete.kind {
        Some(api::ConcreteKind::Forward { addr: Some(addr), identity }) => match addr.addr {
            Some(tcp) => match pb::sock_addr(tcp) {
                Some(sock) => Some(LogicalView::Forward(sock, endpoint_view(addr, identity))),
                None => None,
            },
            None => None,
        },
        Some(
            api::ConcreteKind::Balance { authority, peak_ewma_decay, peak_ewma_default_rtt },
        ) => match authority::authority(authority@) {
            Some(authority) => Some(
                LogicalView::Balance(
                    authority,
                    Balancer {
                        peak_ewma_decay: time_or_none(peak_ewma_decay),
                        peak_ewma_default_rtt: time_or_none(peak_ewma_default_rtt),
                    },
                ),
            ),
            None => None,
        },
        _ => None,
    }
}

/// The place that a message means, if it means one.
pub open spec fn meaning(logical: api::Logical) -> Option<LogicalView>
    decreases logical,
{
    match logical.kind {
        None => None,
        Some(api::LogicalKind::Concrete(concrete)) => concrete_meaning(concrete),
        Some(api::LogicalKind::Split(targets)) => {
            let (targets, weights) = split_meaning(targets@);
            if weights::total(weights) > 0 {
                Some(LogicalView::Split(targets, weights))
            } else {
                None
            }
        },
    }
}

/// The places with a weight that mean something, and their weights.
pub open spec fn split_meaning(targets: Seq<api::Weighted>) -> (Seq<LogicalView>, Seq<u32>)
    decreases targets,
{
    if targets.len() == 0 {
        (Seq::empty(), Seq::empty())
    } else {
        let (logicals, weights) = split_meaning(targets.drop_last());
        let last = targets.last();
        match last.target {
            Some(target) if last.weight > 0 => match meaning(target) {
                Some(logical) => (logicals.push(logical), weights.push(last.weight)),
                None => (logicals, weights),
            },
            _ => (logicals, weights),
        }
    }
}

/// Whether the weights of each split that is made fit together.
pub open spec fn fits(logical: api::Logical) -> bool
    decreases logical,
{
    match logical.kind {
        Some(api::LogicalKind::Split(targets)) => all_fit(targets@) && weights::total(
            split_meaning(targets@).1,
        ) <= u32::MAX,
        _ => true,
    }
}

/// Whether the weights of each split in a place with a weight fit together.
pub open spec fn all_fit(targets: Seq<api::Weighted>) -> bool
    decreases targets,
{
    if targets.len() == 0 {
        true
    } else {
        let last = targets.last();
        all_fit(targets.drop_last()) && match last.target {
            Some(target) if last.weight > 0 => fits(target),
            _ => true,
        }
    }
}

/// The content of an optional place.
pub open spec fn optional_view(logical: Option<Logical>) -> Option<LogicalView> {
    match logical {
        Some(logical) => Some(types::logical_view(logical)),
        None => None,
    }
}

fn duration_or_none(timeout: Option<ProtoDuration>) -> (duration: Duration)
    ensures
        duration == time_or_none(timeout),
{
    match timeout {
        Some(timeout) => match timeout.to_duration() {
            Some(timeout) => timeout,
            None => Duration { secs: 0, nanos: 0 },
        },
        None => Duration { secs: 0, nanos: 0 },
    }
}

fn collect_labels(list: &Vec<(String, String)>) -> (collection: Labels)
    ensures
        labels::label_entries(collection) == collected(text::pair_views(list@)),
{
    let mut collection = new_labels();
    let ghost all = text::pair_views(list@);
    let mut i: usize = 0;
    while i < list.len()
        invariant
            i <= list@.len(),
            all == text::pair_views(list@),
            labels::label_entries(collection) == collected(all.take(i as int)),
        decreases list@.len() - i,
    {
        assert(all.take(i + 1).drop_last() =~= all.take(i as int));
        insert_label(&mut collection, list[i].0.clone(), list[i].1.clone());
        i += 1;
    }
    assert(all.take(i as int) =~= all);
    collection
}

fn convert_concrete(concrete: &api::Concrete) -> (logical: Option<Logical>)
    ensures
        optional_view(logical) == concrete_meaning(*concrete),
{
    match &concrete.kind {
        None => None,
        Some(api::ConcreteKind::Forward { addr, identity }) => {
            let addr = match addr {
                Some(addr) => addr,
                None => {
                    return None;
                },
            };
            let sock = match &addr.addr {
                Some(tcp) => match to_sock_addr(tcp) {
                    Some(sock) => sock,
                    None => {
                        return None;
                    },
                },
                None => {
                    return None;
                },
            };
            let endpoint = Endpoint {
                identity: match &addr.tls_identity {
                    Some(tls_identity) => match identity {
                        Some(name) => to_id(tls_identity, Some(name.clone())),
                        None => None,
                    },
                    None => None,
                },
                proxy_http_transport: match addr.protocol_hint {
                    Some(hint) => if hint.h2 {
                        Some(ProxyHttpTransport::H2)
                    } else {
                        None
                    },
                    None => None,
                },
                authority_override: match &addr.authority_override {
                    Some(text) => to_authority(text),
                    None => None,
                },
                metric_labels: collect_labels(&addr.metric_labels),
                connect_timeout: duration_or_none(addr.connect_timeout),
            };
            assert(endpoint.content() =~= endpoint_view(*addr, *identity));
            Some(Logical::Concrete(Concrete::Forward(sock, endpoint)))
        },
        Some(
            api::ConcreteKind::Balance { authority, peak_ewma_decay, peak_ewma_default_rtt },
        ) => match to_authority(authority) {
            Some(authority) => {
                let balancer = Balancer {
                    peak_ewma_decay: duration_or_none(*peak_ewma_decay),
                    peak_ewma_default_rtt: duration_or_none(*peak_ewma_default_rtt),
                };
                Some(Logical::Concrete(Concrete::Balance(authority, balancer)))
            },
            None => None,
        },
    }
}

/// The weights of a split are too large to be summed up.
#[derive(Clone, Copy, Debug, PartialEq, Eq, Structural)]
pub struct WeightOverflow;

/// More places do not have less weight.
proof fn lemma_total_grows(targets: Seq<api::Weighted>, i: int)
    requires
        0 <= i <= targets.len(),
    ensures
        weights::total(split_meaning(targets.take(i)).1) <= weights::total(
            split_meaning(targets).1,
        ),
        all_fit(targets) ==> all_fit(targets.take(i)),
    decreases targets.len(),
{
    if i == targets.len() {
        assert(targets.take(i) =~= targets);
    } else {
        let rest = targets.drop_last();
        lemma_total_grows(rest, i);
        assert(rest.take(i) =~= targets.take(i));
        let before = split_meaning(rest).1;
        let after = split_meaning(targets).1;
        if after != before {
            assert(after.drop_last() =~= before);
        }
    }
}

impl Logical {
    /// The place that a message means, if it means one.
    pub fn from_api(logical: &api::Logical) -> (made: Option<Self>)
        requires
            fits(*logical),
        ensures
            optional_view(made) == meaning(*logical),
    {
        match Self::checked_from_api(logical) {
            Ok(made) => made,
            Err(_) => None,
        }
    }

    /// The place that a message means, if it means one, unless the weights of a split are too
    /// large.
    pub fn checked_from_api(logical: &api::Logical) -> (made: Result<Option<Self>, WeightOverflow>)
        ensures
            made is Ok <==> fits(*logical),
            made matches Ok(made) ==> optional_view(made) == meaning(*logical),
        decreases *logical,
    {
        match &logical.kind {
            None => Ok(None),
            Some(api::LogicalKind::Concrete(concrete)) => Ok(convert_concrete(concrete)),
            Some(api::LogicalKind::Split(targets)) => match Self::split_from_api(targets) {
                Ok((targets, weights)) => {
                    if weighs(&weights) {
                        Ok(Some(Logical::Split(Arc::new(Split { targets, weights }))))
                    } else {
                        Ok(None)
                    }
                },
                Err(overflow) => Err(overflow),
            },
        }
    }

    fn split_from_api(targets: &Vec<api::Weighted>) -> (made: Result<
        (Vec<Logical>, Vec<u32>),
        WeightOverflow,
    >)
        ensures
            made is Ok <==> all_fit(targets@) && weights::total(split_meaning(targets@).1)
                <= u32::MAX,
            made matches Ok((logicals, weights)) ==> split_meaning(targets@) == (
                types::logical_views(logicals@),
                weights@,
            ),
        decreases *targets,
    {
        let mut logicals: Vec<Logical> = Vec::new();
        let mut weights: Vec<u32> = Vec::new();
        let mut sum: u64 = 0;
        let mut i: usize = 0;
        while i < targets.len()
            invariant
                i <= targets@.len(),
                all_fit(targets@.take(i as int)),
                split_meaning(targets@.take(i as int)) == (
                    types::logical_views(logicals@),
                    weights@,
                ),
                sum == weights::total(weights@),
                sum <= u32::MAX,
            decreases targets@.len() - i,
        {
            assert(decreases_to!(*targets => targets@[i as int]));
            assert(targets@.take(i + 1).drop_last() =~= targets@.take(i as int));
            assert(targets@.take(i + 1).last() == targets@[i as int]);
            let weight: u32 = targets[i].weight;
            if let Some(target) = &targets[i].target {
                if weight > 0 {
                    match Self::checked_from_api(target) {
                        Err(overflow) => {
                            proof {
                                lemma_total_grows(targets@, i + 1);
                            }
                            return Err(overflow);
                        },
                        Ok(None) => {},
                        Ok(Some(logical)) => {
                            let ghost before = logicals@;
                            let ghost light = weights@;
                            sum = sum + weight as u64;
                            logicals.push(logical);
                            weights.push(weight);
                            proof {
                                assert(logicals@.drop_last() =~= before);
                                assert(weights@.drop_last() =~= light);
                            }
                            if sum > u32::MAX as u64 {
                                proof {
                                    lemma_total_grows(targets@, i + 1);
                                }
                                return Err(WeightOverflow);
                            }
                        },
                    }
                }
            }
            i += 1;
        }
        assert(targets@.take(i as int) =~= targets@);
        Ok((logicals, weights))
    }
}

/// How a message says that the protocol of a connection is detected.
pub open spec fn detection(detect: Option<api::ProtocolDetection>) -> Detect {
    match detect {
        Some(
            api::ProtocolDetection {
                strategy: Some(api::DetectStrategy::Client { buffer_capacity, timeout }),
            },
        ) => Detect::Client {
            buffer_capacity: buffer_capacity as usize,
            timeout: time_or_none(timeout),
        },
        _ => Detect::Opaque,
    }
}

/// The place where connections to `addr` go by what a message says: to `addr` itself if it
/// says nothing.
pub open spec fn place(addr: SocketAddr, logical: Option<api::Logical>) -> LogicalView {
    let said = match logical {
        Some(logical) => meaning(logical),
        None => None,
    };
    match said {
        Some(logical) => logical,
        None => LogicalView::Forward(addr, types::unknown_endpoint()),
    }
}

/// Whether the weights in a message fit together.
pub open spec fn response_fits(response: api::StrategyResponse) -> bool {
    match response.logical {
        Some(logical) => fits(logical),
        None => true,
    }
}

impl Strategy {
    /// How connections to `addr` are treated by what a message says.
    pub fn new(addr: SocketAddr, response: &api::StrategyResponse) -> (strategy: Self)
        requires
            response_fits(*response),
        ensures
            strategy.addr == addr,
            strategy.detect == detection(response.detect),
            types::logical_view(strategy.logical) == place(addr, response.logical),
    {
        match Self::checked_new(addr, response) {
            Ok(strategy) => strategy,
            Err(_) => vstd::pervasive::unreached(),
        }
    }

    /// How connections to `addr` are treated by what a message says, unless the weights of a
    /// split are too large.
    pub fn checked_new(addr: SocketAddr, response: &api::StrategyResponse) -> (made: Result<
        Self,
        WeightOverflow,
    >)
        ensures
            made is Ok <==> response_fits(*response),
            made matches Ok(strategy) ==> {
                &&& strategy.addr == addr
                &&& strategy.detect == detection(response.detect)
                &&& types::logical_view(strategy.logical) == place(addr, response.logical)
            },
    {
        let detect = match &response.detect {
            Some(detect) => match &detect.strategy {
                Some(api::DetectStrategy::Client { buffer_capacity, timeout }) => Detect::Client {
                    buffer_capacity: *buffer_capacity as usize,
                    timeout: duration_or_none(*timeout),
                },
                _ => Detect::Opaque,
            },
            None => Detect::Opaque,
        };
        let said = match &response.logical {
            Some(logical) => match Logical::checked_from_api(logical) {
                Ok(logical) => logical,
                Err(overflow) => {
                    return Err(overflow);
                },
            },
            None => None,
        };
        let logical = match said {
            Some(logical) => logical,
            None => Logical::Concrete(Concrete::Forward(addr, Endpoint::unknown())),
        };
        Ok(Strategy { addr, detect, logical })
    }

    /// Connections to `addr` that are forwarded as they are.
    pub fn opaque(addr: SocketAddr) -> (strategy: Self)
        ensures
            strategy.addr == addr,
            strategy.detect == Detect::Opaque,
            types::logical_view(strategy.logical) == LogicalView::Forward(
                addr,
                types::unknown_endpoint(),
            ),
    {
        Strategy {
            addr,
            detect: Detect::Opaque,
            logical: Logical::Concrete(Concrete::Forward(addr, Endpoint::unknown())),
        }
    }

    /// How connections to `addr` are treated by its profile: they go to `addr` itself, or to
    /// `split` if the profile overrides the destination.
    pub fn from_profile<B>(addr: SocketAddr, routes: &Routes<B>, split: Split) -> (strategy: Self)
        ensures
            strategy.addr == addr,
            strategy.detect == (Detect::Client { buffer_capacity: 0, timeout: types::no_time() }),
            types::logical_view(strategy.logical) == if routes.dst_overrides@.len() == 0 {
                LogicalView::Forward(addr, types::unknown_endpoint())
            } else {
                LogicalView::Split(types::logical_views(split.targets@), split.weights@)
            },
    {
        let logical = if routes.dst_overrides.len() == 0 {
            Logical::Concrete(Concrete::Forward(addr, Endpoint::unknown()))
        } else {
            Logical::Split(Arc::new(split))
        };
        let timeout = Duration { secs: 0, nanos: 0 };
        Strategy { addr, detect: Detect::Client { buffer_capacity: 0, timeout }, logical }
    }
}

proof fn lemma_split_weights(targets: Seq<api::Weighted>)
    ensures
        split_meaning(targets).0.len() == split_meaning(targets).1.len(),
        forall|i: int|
            0 <= i < split_meaning(targets).1.len() ==> #[trigger] split_meaning(targets).1[i] > 0,
    decreases targets.len(),
{
    if targets.len() > 0 {
        lemma_split_weights(targets.drop_last());
    }
}

/// A split has a place at least, and each place in it has a weight of its own, which is not
/// zero.
pub proof fn law_splits_are_weighted(logical: api::Logical)
    ensures
        meaning(logical) matches Some(LogicalView::Split(targets, weights)) ==> {
            &&& targets.len() == weights.len()
            &&& targets.len() > 0
            &&& forall|i: int| 0 <= i < weights.len() ==> #[trigger] weights[i] > 0
        },
{
    if let Some(api::LogicalKind::Split(targets)) = logical.kind {
        lemma_split_weights(targets@);
    }
}

} // verus!
