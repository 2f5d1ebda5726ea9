//! Strategies.

use crate::destination::labels::{self, new_labels, Labels};
use crate::net::SocketAddr;
use crate::text;
use crate::time::Duration;
use std::sync::Arc;
use vstd::prelude::*;

verus! {

/// How connections to `addr` are treated.
#[derive(Debug)]
pub struct Strategy {
    pub addr: SocketAddr,
    pub detect: Detect,
    pub logical: Logical,
}

/// How the protocol of a connection is detected.
#[derive(Clone, Copy, Debug, PartialEq, Eq, Structural)]
pub enum Detect {
    Opaque,
    Client {
        buffer_capacity: usize,
        timeout: Duration,
    },
}

/// Where connections go.
#[derive(Debug)]
pub enum Logical {
    Concrete(Concrete),
    Split(Arc<Split>),
}

/// One place where connections go.
#[derive(Debug)]
pub enum Concrete {
    /// An endpoint.
    Forward(SocketAddr, Endpoint),
    /// All endpoints of the service with this authority.
    Balance(String, Balancer),
}

/// How a load balancer weighs endpoints.
#[derive(Clone, Copy, Debug, PartialEq, Eq, Structural)]
pub struct Balancer {
    pub peak_ewma_decay: Duration,
    pub peak_ewma_default_rtt: Duration,
}

/// How an endpoint is spoken to.
#[derive(Debug)]
pub struct Endpoint {
    pub identity: Option<String>,
    /// If set, the endpoint runs a proxy that supports HTTP transport upgrading.
    pub proxy_http_transport: Option<ProxyHttpTransport>,
    pub authority_override: Option<String>,
    pub metric_labels: Labels,
    pub connect_timeout: Duration,
}

/// A protocol that proxies use among themselves.
#[derive(Clone, Copy, Debug, PartialEq, Eq, Structural)]
pub enum ProxyHttpTransport {
    H2,
}

/// Several places, each with its share of the connections.
#[derive(Debug)]
pub struct Split {
    pub targets: Vec<Logical>,
    pub weights: Vec<u32>,
}

/// The content of an endpoint.
#[verifier::ext_equal]
pub struct EndpointView {
    pub identity: Option<Seq<char>>,
    pub proxy_http_transport: Option<ProxyHttpTransport>,
    pub authority_override: Option<Seq<char>>,
    pub metric_labels: Seq<(Seq<char>, Seq<char>)>,
    pub connect_timeout: Duration,
}

/// The content of a `Logical`.
pub enum LogicalView {
    Forward(SocketAddr, EndpointView),
    Balance(Seq<char>, Balancer),
    Split(Seq<LogicalView>, Seq<u32>),
}

/// No time at all.
pub open spec fn no_time() -> Duration {
    Duration { secs: 0, nanos: 0 }
}

/// What is known of an endpoint of which nothing is known.
pub open spec fn unknown_endpoint() -> EndpointView {
    EndpointView {
        identity: None,
        proxy_http_transport: None,
        authority_override: None,
        metric_labels: Seq::empty(),
        connect_timeout: no_time(),
    }
}

impl Endpoint {
    /// The content of this endpoint.
    pub open spec fn content(self) -> EndpointView {
        EndpointView {
            identity: text::text_view(self.identity),
            proxy_http_transport: self.proxy_http_transport,
            authority_override: text::text_view(self.authority_override),
            metric_labels: labels::label_entries(self.metric_labels),
            connect_timeout: self.connect_timeout,
        }
    }

    /// An endpoint of which nothing is known.
    pub fn unknown() -> (endpoint: Self)
        ensures
            endpoint.content() == unknown_endpoint(),
    {
        Endpoint {
            identity: None,
            proxy_http_transport: None,
            authority_override: None,
            metric_labels: new_labels(),
            connect_timeout: Duration { secs: 0, nanos: 0 },
        }
    }
}

/// The content of `logical`.
pub open spec fn logical_view(logical: Logical) -> LogicalView
    decreases logical,
{
    match logical {
        Logical::Concrete(Concrete::Forward(addr, endpoint)) => LogicalView::Forward(
            addr,
            endpoint.content(),
        ),
        Logical::Concrete(Concrete::Balance(authority, balancer)) => LogicalView::Balance(
            authority@,
            balancer,
        ),
        Logical::Split(split) => LogicalView::Split(
            logical_views(split.targets@),
            split.weights@,
        ),
    }
}

/// The content of each of `logicals`.
pub open spec fn logical_views(logicals: Seq<Logical>) -> Seq<LogicalView>
    decreases logicals,
{
    if logicals.len() == 0 {
        Seq::empty()
    } else {
        logical_views(logicals.drop_last()).push(logical_view(logicals.last()))
    }
}

} // verus!
