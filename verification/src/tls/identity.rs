//! The identity of a peer.

use crate::text;
use std::convert::TryFrom;
use vstd::prelude::*;

verus! {

/// Why the name of a peer is not known.
#[derive(Clone, Copy, Debug, PartialEq, Eq, Structural)]
pub enum ReasonForNoPeerName {
    /// This process has no identity of its own.
    LocalIdentityDisabled,
    /// TLS is not looked for on the port.
    PortSkipped,
    /// The peer did not start TLS with the local identity.
    NoTlsFromRemote,
    /// The peer did not prove an identity.
    NoPeerIdFromRemote,
    /// The connection does not carry HTTP.
    NotHttp,
}

/// A value, or the reason why there is none.
#[derive(Debug)]
pub enum Conditional<T> {
    Present(T),
    Absent(ReasonForNoPeerName),
}

/// Whether `b` is a clone of `a`.
pub open spec fn cloned_conditional<T: Clone>(a: Conditional<T>, b: Conditional<T>) -> bool {
    match (a, b) {
        (Conditional::Present(a), Conditional::Present(b)) => cloned(a, b),
        (Conditional::Absent(a), Conditional::Absent(b)) => a == b,
        _ => false,
    }
}

impl<T: Clone> Clone for Conditional<T> {
    fn clone(&self) -> (copy: Self)
        ensures
            cloned_conditional(*self, copy),
    {
        match self {
            Conditional::Present(value) => Conditional::Present(value.clone()),
            Conditional::Absent(reason) => Conditional::Absent(*reason),
        }
    }
}

/// The name of a peer.
pub type PeerIdentity = Conditional<String>;

/// The content of a peer's identity.
pub open spec fn peer_view(peer: PeerIdentity) -> Conditional<Seq<char>> {
    match peer {
        Conditional::Present(name) => Conditional::Present(name@),
        Conditional::Absent(reason) => Conditional::Absent(reason),
    }
}

/// A name that a certificate is issued for.
#[derive(Clone, Debug)]
pub enum DnsName {
    Name(String),
    Wildcard(String),
}

/// Whether the bytes are the DER encoding of an end-entity certificate.
pub uninterp spec fn is_end_entity(der: Seq<u8>) -> bool;

/// `webpki::EndEntityCert::try_from` accepts the encodings of end-entity certificates. Which
/// these are is not stated beyond the name.
#[verifier::external_body]
pub(crate) fn end_entity(der: &Vec<u8>) -> (parses: bool)
    ensures
        parses == is_end_entity(der@),
{
    webpki::EndEntityCert::try_from(der.as_slice()).is_ok()
}

/// The name that `names`, those of an end-entity certificate, identify a peer by.
pub open spec fn named(parses: bool, names: Option<Seq<DnsName>>) -> Option<Seq<char>> {
    if !parses {
        None
    } else {
        match names {
            Some(names) if names.len() > 0 => match names[0] {
                DnsName::Name(name) => Some(name@),
                DnsName::Wildcard(_) => None,
            },
            _ => None,
        }
    }
}

/// The content of a list of names.
pub open spec fn names_view(names: Option<Vec<DnsName>>) -> Option<Seq<DnsName>> {
    match names {
        Some(names) => Some(names@),
        None => None,
    }
}

/// The identity of a peer whose certificates are `certs`, the first of which is issued for
/// `names`, if these could be read.
pub fn client_identity(certs: &Option<Vec<Vec<u8>>>, names: &Option<Vec<DnsName>>) -> (identity:
    Option<String>)
    ensures
        text::text_view(identity) == match *certs {
            Some(certs) if certs@.len() > 0 => named(
                is_end_entity(certs@[0]@),
                names_view(*names),
            ),
            _ => None,
        },
{
    match certs {
        None => None,
        Some(certs) => {
            if certs.len() == 0 {
                None
            } else {
                first_name(end_entity(&certs[0]), names)
            }
        },
    }
}

/// The name that the first of `names` gives, if the certificate that they were read from
/// `parses` as an end-entity certificate.
pub fn first_name(parses: bool, names: &Option<Vec<DnsName>>) -> (identity: Option<String>)
    ensures
        text::text_view(identity) == named(parses, names_view(*names)),
{
    if !parses {
        return None;
    }
    match names {
        None => None,
        Some(names) => {
            if names.len() == 0 {
                return None;
            }
            match &names[0] {
                DnsName::Name(name) => Some(name.clone()),
                // Wildcards can perhaps be handled in the future.
                DnsName::Wildcard(_) => None,
            }
        },
    }
}

/// The identity of a peer that TLS was established with.
pub open spec fn tls_peer(identity: Option<Seq<char>>) -> Conditional<Seq<char>> {
    match identity {
        Some(name) => Conditional::Present(name),
        None => Conditional::Absent(ReasonForNoPeerName::NoPeerIdFromRemote),
    }
}

/// The identity of a peer that TLS was established with and that proved `identity`.
pub fn peer_identity(identity: Option<String>) -> (peer: PeerIdentity)
    ensures
        peer_view(peer) == tls_peer(text::text_view(identity)),
{
    match identity {
        Some(name) => Conditional::Present(name),
        None => Conditional::Absent(ReasonForNoPeerName::NoPeerIdFromRemote),
    }
}

} // verus!
