//! Strategies as the control plane sends them.

use crate::destination::api::WeightedAddr;
use crate::time::ProtoDuration;
use vstd::prelude::*;

verus! {

/// How the protocol of a connection is detected.
#[derive(Debug)]
pub enum DetectStrategy {
    Opaque,
    Client {
        buffer_capacity: u32,
        timeout: Option<ProtoDuration>,
    },
}

/// How the protocol of a connection is detected, if that is said.
#[derive(Debug)]
pub struct ProtocolDetection {
    pub strategy: Option<DetectStrategy>,
}

/// Where connections go.
#[derive(Debug)]
pub struct Logical {
    pub kind: Option<LogicalKind>,
}

/// The kinds of places where connections go.
#[derive(Debug)]
pub enum LogicalKind {
    Concrete(Concrete),
    Split(Vec<Weighted>),
}

/// A place with a weight.
#[derive(Debug)]
pub struct Weighted {
    pub target: Option<Logical>,
    pub weight: u32,
}

/// One place where connections go.
#[derive(Debug)]
pub struct Concrete {
    pub kind: Option<ConcreteKind>,
}

/// The kinds of single places where connections go.
#[derive(Debug)]
pub enum ConcreteKind {
    /// An endpoint, and the name that its host name was parsed as, if it could be.
    Forward {
        addr: Option<WeightedAddr>,
        identity: Option<String>,
    },
    /// All endpoints of a service.
    Balance {
        authority: String,
        peak_ewma_decay: Option<ProtoDuration>,
        peak_ewma_default_rtt: Option<ProtoDuration>,
    },
}

/// A strategy.
#[derive(Debug)]
pub struct StrategyResponse {
    pub detect: Option<ProtocolDetection>,
    pub logical: Option<Logical>,
}

} // verus!
