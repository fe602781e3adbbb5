//! Who is calling: the network address that the transport reports.

use vstd::prelude::*;

verus! {

/// An IP address: the four octets of an IPv4 address, or the 128 bits of an
/// IPv6 address.
#[derive(Clone, Copy, Debug, PartialEq, Eq, Structural)]
pub enum IpAddress {
    V4(u8, u8, u8, u8),
    V6(u128),
}

impl IpAddress {
    /// Loopback addresses are `127.0.0.0/8` and `::1`.
    pub open spec fn spec_is_loopback(self) -> bool {
        match self {
            IpAddress::V4(a, _, _, _) => a == 127,
            IpAddress::V6(bits) => bits == 1,
        }
    }

    /// Whether the address is a loopback address.
    #[verifier::when_used_as_spec(spec_is_loopback)]
    pub fn is_loopback(self) -> (r: bool)
        ensures
            r == self.spec_is_loopback(),
    {
        match self {
            IpAddress::V4(a, _, _, _) => a == 127,
            IpAddress::V6(bits) => bits == 1,
        }
    }
}

/// The socket address of a caller.
#[derive(Clone, Copy, Debug, PartialEq, Eq, Structural)]
pub struct ClientIdentity {
    pub ip: IpAddress,
    pub port: u16,
}

impl ClientIdentity {
    /// The IP address of the caller, by which failed attempts are counted
    /// whatever the port.
    pub fn ip(&self) -> (ip: IpAddress)
        ensures
            ip == self.ip,
    {
        self.ip
    }
}

} // verus!
