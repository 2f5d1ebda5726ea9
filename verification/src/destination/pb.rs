//! What the messages that describe endpoints mean.

use super::api::{Ip, ProtocolHint, TcpAddress, TlsIdentity, WeightedAddr};
use super::authority::{self, parse_authority};
use super::labels::{self, merge_labels, Labels};
use crate::net::{self, SocketAddr};
use crate::text;
use vstd::prelude::*;

verus! {

/// Which protocol an endpoint is known to speak.
#[derive(Clone, Copy, Debug, PartialEq, Eq, Structural)]
pub enum Hint {
    Unknown,
    Http2,
}

/// What is known of an endpoint.
#[derive(Debug)]
pub struct Metadata {
    pub labels: Labels,
    pub protocol_hint: Hint,
    pub identity: Option<String>,
    pub weight: u32,
    pub authority_override: Option<String>,
}

/// The low bits of `port`, which are taken for the port.
pub open spec fn low_port(port: u32) -> u16 {
    (port as int % 0x1_0000) as u16
}

/// The socket address that a message means, if it has an IP address.
pub open spec fn sock_addr(pb: TcpAddress) -> Option<SocketAddr> {
    match pb.ip {
        Some(Ip::Ipv4(ip)) => Some(net::v4_addr(ip, low_port(pb.port))),
        Some(Ip::Ipv6 { first, last }) => Some(
            net::v6_addr((first * 0x1_0000_0000_0000_0000 + last) as u128, low_port(pb.port)),
        ),
        None => None,
    }
}

/// The authority that overrides another, if the message has one that can be parsed.
pub open spec fn overriding(authority_override: Option<Seq<char>>) -> Option<Seq<char>> {
    match authority_override {
        Some(text) => authority::authority(text),
        None => None,
    }
}

/// The socket address that a message means, if it has an IP address. Only the low bits of the
/// port count.
pub fn to_sock_addr(pb: &TcpAddress) -> (addr: Option<SocketAddr>)
    ensures
        addr == sock_addr(*pb),
{
    let number: u32 = pb.port;
    let port: u16 = #[verifier::truncate]
    (number as u16);
    assert(number as u16 == number % 0x1_0000) by (bit_vector);
    match pb.ip {
        Some(Ip::Ipv4(ip)) => Some((false, ip as u128, port, 0, 0)),
        Some(Ip::Ipv6 { first, last }) => {
            let ip: u128 = (first as u128) * 0x1_0000_0000_0000_0000 + last as u128;
            Some((true, ip, port, 0, 0))
        },
        None => None,
    }
}

/// The authority that `text` is, if it is one.
pub fn to_authority(text: &String) -> (parsed: Option<String>)
    ensures
        text::text_view(parsed) == authority::authority(text@),
{
    parse_authority(text)
}

/// The name that an endpoint is identified by, of which `parsed` is the name that its host
/// name was parsed as, if it could be.
pub fn to_id(pb: &TlsIdentity, parsed: Option<String>) -> (identity: Option<String>)
    ensures
        identity == if pb.dns_like_identity is Some {
            parsed
        } else {
            None
        },
{
    match &pb.dns_like_identity {
        Some(_) => parsed,
        None => None,
    }
}

/// The address of an endpoint and what is known of it, if the message has an address.
///
/// `parsed` is the name that the host name in the message was parsed as, if it could be. The
/// labels in `set_labels` are those of all endpoints.
pub fn to_addr_meta(
    pb: WeightedAddr,
    set_labels: &Vec<(String, String)>,
    parsed: Option<String>,
) -> (endpoint: Option<(SocketAddr, Metadata)>)
    ensures
        match endpoint {
            Some((addr, meta)) => {
                &&& pb.addr matches Some(tcp)
                &&& sock_addr(tcp) == Some(addr)
                &&& labels::merged(
                    labels::label_entries(meta.labels),
                    text::pair_views(set_labels@),
                    text::pair_views(pb.metric_labels@),
                )
                &&& meta.protocol_hint == match pb.protocol_hint {
                    Some(ProtocolHint { h2: true }) => Hint::Http2,
                    _ => Hint::Unknown,
                }
                &&& meta.identity == match pb.tls_identity {
                    Some(TlsIdentity { dns_like_identity: Some(_) }) => parsed,
                    _ => None,
                }
                &&& meta.weight == pb.weight
                &&& text::text_view(meta.authority_override) == overriding(
                    text::text_view(pb.authority_override),
                )
            },
            None => match pb.addr {
                Some(tcp) => sock_addr(tcp) is None,
                None => true,
            },
        },
{
    let authority_override = match &pb.authority_override {
        Some(text) => to_authority(text),
        None => None,
    };
    let addr = match &pb.addr {
        Some(tcp) => match to_sock_addr(tcp) {
            Some(addr) => addr,
            None => {
                return None;
            },
        },
        None => {
            return None;
        },
    };
    let protocol_hint = match pb.protocol_hint {
        Some(hint) => if hint.h2 {
            Hint::Http2
        } else {
            Hint::Unknown
        },
        None => Hint::Unknown,
    };
    let identity = match &pb.tls_identity {
        Some(identity) => to_id(identity, parsed),
        None => None,
    };
    let labels = merge_labels(set_labels, &pb.metric_labels);
    Some((addr, Metadata { labels, protocol_hint, identity, weight: pb.weight, authority_override }))
}

} // verus!
