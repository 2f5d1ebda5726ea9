//! The messages that describe endpoints.

use crate::time::ProtoDuration;
use vstd::prelude::*;

verus! {

/// An IP address, of which the second kind is given by its upper and its lower half.
#[derive(Clone, Copy, Debug)]
pub enum Ip {
    Ipv4(u32),
    Ipv6 {
        first: u64,
        last: u64,
    },
}

/// The address of an endpoint.
#[derive(Clone, Copy, Debug)]
pub struct TcpAddress {
    pub ip: Option<Ip>,
    pub port: u32,
}

/// How the identity of an endpoint is verified: by a name, if at all.
#[derive(Debug)]
pub struct TlsIdentity {
    pub dns_like_identity: Option<String>,
}

/// Whether an endpoint is known to speak HTTP/2.
#[derive(Clone, Copy, Debug)]
pub struct ProtocolHint {
    pub h2: bool,
}

/// An endpoint. The labels are those of a map: none has the name of another.
#[derive(Debug)]
pub struct WeightedAddr {
    pub addr: Option<TcpAddress>,
    pub weight: u32,
    pub metric_labels: Vec<(String, String)>,
    pub tls_identity: Option<TlsIdentity>,
    pub protocol_hint: Option<ProtocolHint>,
    pub authority_override: Option<String>,
    pub connect_timeout: Option<ProtoDuration>,
}

} // verus!
