//! Service profiles as the control plane sends them.

use crate::time::ProtoDuration;
use vstd::prelude::*;

verus! {

/// The kind of an HTTP method.
#[derive(Clone, Debug)]
pub enum MethodType {
    /// One of the methods that have a number.
    Registered(i32),
    /// A method by its name.
    Unregistered(String),
}

/// A condition on requests.
#[derive(Debug)]
pub struct RequestMatch {
    pub kind: Option<RequestMatchKind>,
}

/// The kinds of conditions on requests.
#[derive(Debug)]
pub enum RequestMatchKind {
    All(Vec<RequestMatch>),
    Any(Vec<RequestMatch>),
    Not(Box<RequestMatch>),
    /// The path matches a regular expression.
    Path(String),
    Method(Option<MethodType>),
}

/// A condition on responses.
#[derive(Debug)]
pub struct ResponseMatch {
    pub kind: Option<ResponseMatchKind>,
}

/// The kinds of conditions on responses.
#[derive(Debug)]
pub enum ResponseMatchKind {
    All(Vec<ResponseMatch>),
    Any(Vec<ResponseMatch>),
    Not(Box<ResponseMatch>),
    /// The status is in a range.
    Status {
        min: u32,
        max: u32,
    },
}

/// Which responses are failures, or are none.
#[derive(Debug)]
pub struct ResponseClass {
    pub condition: Option<ResponseMatch>,
    pub is_failure: bool,
}

/// How requests that meet a condition are treated.
#[derive(Debug)]
pub struct Route {
    pub condition: Option<RequestMatch>,
    pub response_classes: Vec<ResponseClass>,
    pub metrics_labels: Vec<(String, String)>,
    pub is_retryable: bool,
    pub timeout: Option<ProtoDuration>,
}

/// How many requests may be retried. The ratio is the bits of a single precision number.
#[derive(Clone, Copy, Debug)]
pub struct RetryBudget {
    pub min_retries_per_second: u32,
    pub retry_ratio: u32,
    pub ttl: Option<ProtoDuration>,
}

/// A destination with a weight.
#[derive(Clone, Debug)]
pub struct WeightedDst {
    pub authority: String,
    pub weight: u32,
}

} // verus!
