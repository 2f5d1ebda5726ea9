//! Socket addresses as plain values.

use vstd::prelude::*;

verus! {

/// An internet socket address: whether it is an IPv6 address, the IP address as a
/// number, the port, the flow label and the scope.
///
/// An IPv4 address is below `2^32` and has neither a flow label nor a scope.
pub type SocketAddr = (bool, u128, u16, u32, u32);

/// The IPv4 socket address with the address `ip`.
pub open spec fn v4_addr(ip: u32, port: u16) -> SocketAddr {
    (false, ip as u128, port, 0u32, 0u32)
}

/// The IPv6 socket address with the address `ip`.
pub open spec fn v6_addr(ip: u128, port: u16) -> SocketAddr {
    (true, ip, port, 0u32, 0u32)
}

/// The IPv4 socket address `a.b.c.d:port`.
pub fn v4(a: u8, b: u8, c: u8, d: u8, port: u16) -> (addr: SocketAddr)
    ensures
        addr == v4_addr((a * 0x100_0000 + b * 0x1_0000 + c * 0x100 + d) as u32, port),
{
    let ip: u32 = (a as u32) * 0x100_0000 + (b as u32) * 0x1_0000 + (c as u32) * 0x100 + (d as u32);
    (false, ip as u128, port, 0, 0)
}

/// The port of `addr`.
pub fn port(addr: &SocketAddr) -> (port: u16)
    ensures
        port == addr.2,
{
    addr.2
}

/// Whether `a` and `b` are the same address.
pub fn same(a: &SocketAddr, b: &SocketAddr) -> (same: bool)
    ensures
        same == (*a == *b),
{
    a.0 == b.0 && a.1 == b.1 && a.2 == b.2 && a.3 == b.3 && a.4 == b.4
}

/// The addresses of a connection: the one that it is meant for and that of the peer.
#[derive(Clone, Copy, Debug)]
pub struct Addrs {
    pub target: SocketAddr,
    pub peer: SocketAddr,
}

impl Addrs {
    /// The address that the connection is meant for.
    pub fn target_addr(&self) -> (addr: SocketAddr)
        ensures
            addr == self.target,
    {
        self.target
    }
}

} // verus!
