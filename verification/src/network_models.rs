//! Addresses as plain numbers, and the entry that the peer table keeps for
//! one remote address.

use crate::health_check_model::{HealthCheck, HealthChecks};
use vstd::prelude::*;
use vstd::std_specs::cmp::PartialEqSpecImpl;

verus! {

/// An IP address as the number that its bytes spell in network order.
/// A version-4 address is never equal to a version-6 one.
#[derive(Clone, Copy, Debug, Eq, PartialEq, Hash, Structural)]
pub enum IpAddress {
    V4(u32),
    V6(u128),
}

impl IpAddress {
    /// The number that four address bytes spell, first byte highest.
    pub open spec fn v4_bits(a: u8, b: u8, c: u8, d: u8) -> int {
        a * 0x100_0000 + b * 0x1_0000 + c * 0x100 + d
    }

    /// The version-4 address `a.b.c.d`.
    pub fn v4(a: u8, b: u8, c: u8, d: u8) -> (addr: IpAddress)
        ensures
            addr == IpAddress::V4(Self::v4_bits(a, b, c, d) as u32),
            Self::v4_bits(a, b, c, d) <= u32::MAX,
    {
        let high: u32 = a as u32 * 0x100_0000 + b as u32 * 0x1_0000;
        let low: u32 = c as u32 * 0x100 + d as u32;
        IpAddress::V4(high + low)
    }
}

/// Where a datagram came from or goes to: an address and a UDP port, and
/// for version 6 the flow label and scope that travel with them.
#[derive(Clone, Copy, Debug, Eq, PartialEq, Hash, Structural)]
#[allow(inconsistent_fields)]
pub enum SocketAddress {
    V4 { ip: u32, port: u16 },
    V6 { ip: u128, port: u16, flowinfo: u32, scope_id: u32 },
}

impl SocketAddress {
    pub open spec fn spec_ip(&self) -> IpAddress {
        match *self {
            SocketAddress::V4 { ip, .. } => IpAddress::V4(ip),
            SocketAddress::V6 { ip, .. } => IpAddress::V6(ip),
        }
    }

    pub open spec fn spec_port(&self) -> u16 {
        match *self {
            SocketAddress::V4 { port, .. } => port,
            SocketAddress::V6 { port, .. } => port,
        }
    }

    /// The socket address of `ip` and `port`; a version-6 one gets flow
    /// label and scope zero.
    pub fn new(ip: IpAddress, port: u16) -> (addr: SocketAddress)
        ensures
            addr.spec_ip() == ip,
            addr.spec_port() == port,
            addr == match ip {
                IpAddress::V4(bits) => (SocketAddress::V4 { ip: bits, port }),
                IpAddress::V6(bits) => (SocketAddress::V6 {
                    ip: bits,
                    port,
                    flowinfo: 0,
                    scope_id: 0,
                }),
            },
    {
        match ip {
            IpAddress::V4(bits) => SocketAddress::V4 { ip: bits, port },
            IpAddress::V6(bits) => SocketAddress::V6 { ip: bits, port, flowinfo: 0, scope_id: 0 },
        }
    }

    /// The address part.
    #[verifier::when_used_as_spec(spec_ip)]
    pub fn ip(&self) -> (ip: IpAddress)
        ensures
            ip == self.spec_ip(),
    {
        match *self {
            SocketAddress::V4 { ip, .. } => IpAddress::V4(ip),
            SocketAddress::V6 { ip, .. } => IpAddress::V6(ip),
        }
    }

    /// The port part.
    #[verifier::when_used_as_spec(spec_port)]
    pub fn port(&self) -> (port: u16)
        ensures
            port == self.spec_port(),
    {
        match *self {
            SocketAddress::V4 { port, .. } => port,
            SocketAddress::V6 { port, .. } => port,
        }
    }
}

/// What the table knows of one remote address: its records, by port.
#[derive(Debug)]
pub struct NetworkDetails {
    pub addr: IpAddress,
    pub health_checks: HealthChecks,
}

/// A table entry as a plain value.
pub struct NetworkDetailsView {
    pub addr: IpAddress,
    pub health_checks: Map<u16, HealthCheck>,
}

impl View for NetworkDetails {
    type V = NetworkDetailsView;

    open spec fn view(&self) -> NetworkDetailsView {
        NetworkDetailsView { addr: self.addr, health_checks: self.health_checks@ }
    }
}

impl Clone for NetworkDetails {
    /// A copy with the same address and the same records.
    fn clone(&self) -> (copy: Self)
        ensures
            copy@ == self@,
    {
        NetworkDetails { addr: self.addr, health_checks: self.health_checks.clone() }
    }
}

impl PartialEq for NetworkDetails {
    /// Two entries are equal when address and records are.
    fn eq(&self, other: &Self) -> (equal: bool) {
        self.addr == other.addr && self.health_checks == other.health_checks
    }
}

impl Eq for NetworkDetails {

}

impl PartialEqSpecImpl for NetworkDetails {
    open spec fn obeys_eq_spec() -> bool {
        true
    }

    open spec fn eq_spec(&self, other: &Self) -> bool {
        self@ == other@
    }
}

} // verus!
