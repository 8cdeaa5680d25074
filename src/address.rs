use vstd::prelude::*;

use crate::error::IgdError;

verus! {

/// An IPv4 socket address: the address as a 32-bit number, most significant
/// octet first, and a port.
#[derive(Clone, Copy, Debug, PartialEq, Eq, Structural)]
pub struct Ipv4Endpoint {
    pub ip: u32,
    pub port: u16,
}

/// The local socket address that a mapping forwards to.
#[derive(Clone, Copy, Debug, PartialEq, Eq, Structural)]
pub enum InternalAddress {
    V4(Ipv4Endpoint),
    V6 { ip: u128, port: u16 },
}

/// The transport protocol of a mapping. One mapping keeps one protocol for
/// its addition, its renewals and its removal.
#[derive(Clone, Copy, Debug, PartialEq, Eq, Structural)]
pub enum TransportProtocol {
    Tcp,
    Udp,
}

/// The endpoint a mapping may forward to: IPv4 only.
pub open spec fn endpoint_of(addr: InternalAddress) -> Result<Ipv4Endpoint, IgdError> {
    match addr {
        InternalAddress::V4(e) => Ok(e),
        InternalAddress::V6 { .. } => Err(IgdError::AddressFamilyUnsupported),
    }
}

/// Accepts an IPv4 address and refuses an IPv6 one.
pub fn ipv4_endpoint(addr: InternalAddress) -> (r: Result<Ipv4Endpoint, IgdError>)
    ensures
        r == endpoint_of(addr),
{
    match addr {
        InternalAddress::V4(e) => Ok(e),
        InternalAddress::V6 { .. } => Err(IgdError::AddressFamilyUnsupported),
    }
}

} // verus!
