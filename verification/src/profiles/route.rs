//! How requests that meet a condition are treated.

use super::api;
use super::request::{self, convert_req_match, RequestMatch, RequestMatchView};
use super::response::{self, convert_rsp_classes, ResponseClass, ResponseClassView};
use crate::arc::share;
use crate::text;
use crate::time::{self, Duration};
use std::sync::Arc;
use vstd::prelude::*;

verus! {

/// How requests are treated. `B` is a retry budget.
#[derive(Debug)]
pub struct Route<B> {
    pub labels: Vec<(String, String)>,
    pub response_classes: Vec<ResponseClass>,
    pub retries: Option<Arc<B>>,
    pub timeout: Option<Duration>,
}

/// The content of a route.
#[verifier::ext_equal]
pub struct RouteView<B> {
    pub labels: Seq<(Seq<char>, Seq<char>)>,
    pub response_classes: Seq<ResponseClassView>,
    pub retries: Option<Arc<B>>,
    pub timeout: Option<Duration>,
}

/// The name and port of a service.
#[derive(Clone, Debug)]
pub struct NameAddr {
    pub name: String,
    pub port: u16,
}

/// A service that gets a share of the requests.
#[derive(Clone, Debug)]
pub struct WeightedAddr {
    pub addr: NameAddr,
    pub weight: u32,
}

/// The profile of a service.
#[derive(Debug)]
pub struct Routes<B> {
    pub routes: Vec<(RequestMatch, Route<B>)>,
    pub dst_overrides: Vec<WeightedAddr>,
}

impl<B> Routes<B> {
    /// The profile of a service of which nothing is known.
    pub fn empty() -> (routes: Self)
        ensures
            routes.routes@.len() == 0,
            routes.dst_overrides@.len() == 0,
    {
        Routes { routes: Vec::new(), dst_overrides: Vec::new() }
    }
}

impl<B> Route<B> {
    /// The content of this route.
    pub open spec fn content(self) -> RouteView<B> {
        RouteView {
            labels: text::pair_views(self.labels@),
            response_classes: response::class_views(self.response_classes@),
            retries: self.retries,
            timeout: self.timeout,
        }
    }

    /// A route without retries and without a timeout.
    pub fn new(labels: Vec<(String, String)>, response_classes: Vec<ResponseClass>) -> (route: Self)
        ensures
            route.labels == labels,
            route.response_classes == response_classes,
            route.retries is None,
            route.timeout is None,
    {
        Route { labels, response_classes, retries: None, timeout: None }
    }

    /// Lets requests be retried within `budget`.
    pub fn set_retries(&mut self, budget: Arc<B>)
        ensures
            *final(self) == (Route { retries: Some(budget), ..*old(self) }),
    {
        self.retries = Some(budget);
    }

    /// Fails requests that take longer than `timeout`.
    pub fn set_timeout(&mut self, timeout: Duration)
        ensures
            *final(self) == (Route { timeout: Some(timeout), ..*old(self) }),
    {
        self.timeout = Some(timeout);
    }
}

/// Lets requests be retried within the budget, if there is one.
pub fn set_route_retry<B>(route: &mut Route<B>, retry_budget: Option<&Arc<B>>)
    ensures
        *final(route) == match retry_budget {
            Some(budget) => Route { retries: Some(*budget), ..*old(route) },
            None => *old(route),
        },
{
    match retry_budget {
        Some(budget) => route.set_retries(share(budget)),
        None => {},
    }
}

/// Sets the timeout, if it could be converted.
pub fn set_route_timeout<B>(route: &mut Route<B>, timeout: Option<Duration>)
    ensures
        *final(route) == match timeout {
            Some(timeout) => Route { timeout: Some(timeout), ..*old(route) },
            None => *old(route),
        },
{
    match timeout {
        Some(timeout) => route.set_timeout(timeout),
        None => {},
    }
}

/// What a message says of a route, if its condition means something.
pub open spec fn converted<B>(orig: api::Route, retry_budget: Option<Arc<B>>) -> Option<
    (RequestMatchView, RouteView<B>),
> {
    let condition = match orig.condition {
        Some(condition) => request::converted(condition),
        None => None,
    };
    match condition {
        Some(condition) => Some(
            (
                condition,
                RouteView {
                    labels: text::pair_views(orig.metrics_labels@),
                    response_classes: response::converted_classes(orig.response_classes@),
                    retries: if orig.is_retryable {
                        retry_budget
                    } else {
                        None
                    },
                    timeout: match orig.timeout {
                        Some(timeout) => time::converted(timeout),
                        None => None,
                    },
                },
            ),
        ),
        None => None,
    }
}

/// The content of an optional route.
pub open spec fn optional_view<B>(route: Option<(RequestMatch, Route<B>)>) -> Option<
    (RequestMatchView, RouteView<B>),
> {
    match route {
        Some((condition, route)) => Some((request::request_view(condition), route.content())),
        None => None,
    }
}

/// The content of an optional budget.
pub open spec fn budget_of<B>(retry_budget: Option<&Arc<B>>) -> Option<Arc<B>> {
    match retry_budget {
        Some(budget) => Some(*budget),
        None => None,
    }
}

/// What a message says of a route, if its condition means something.
pub fn convert_route<B>(orig: api::Route, retry_budget: Option<&Arc<B>>) -> (route: Option<
    (RequestMatch, Route<B>),
>)
    ensures
        optional_view(route) == converted(orig, budget_of(retry_budget)),
{
    let condition = match &orig.condition {
        None => {
            return None;
        },
        Some(condition) => match convert_req_match(condition) {
            None => {
                return None;
            },
            Some(condition) => condition,
        },
    };
    let response_classes = convert_rsp_classes(&orig.response_classes);
    let mut route = Route::new(orig.metrics_labels, response_classes);
    if orig.is_retryable {
        set_route_retry(&mut route, retry_budget);
    }
    if let Some(timeout) = orig.timeout {
        set_route_timeout(&mut route, timeout.to_duration());
    }
    Some((condition, route))
}

/// The service that a message gives a share of the requests, which `addr` is the address of,
/// if its authority could be parsed. A service without a weight gets none.
pub fn convert_dst_override(orig: &api::WeightedDst, addr: Option<NameAddr>) -> (dst: Option<
    WeightedAddr,
>)
    ensures
        dst == match addr {
            Some(addr) if orig.weight != 0 => Some(WeightedAddr { addr, weight: orig.weight }),
            _ => None,
        },
{
    if orig.weight == 0 {
        return None;
    }
    match addr {
        Some(addr) => Some(WeightedAddr { addr, weight: orig.weight }),
        None => None,
    }
}

} // verus!
