//! Where a magic packet is sent: IP addresses as plain bytes, and the
//! destination and port that apply when a configuration names none.

use vstd::prelude::*;

verus! {

/// The UDP port a magic packet goes to when the configuration names none.
pub const DEFAULT_WOL_PORT: u16 = 9;

/// The local port that asks the platform for any free port.
pub const EPHEMERAL_PORT: u16 = 0;

/// An IP address, held as its bytes in network order.
#[derive(Clone, Copy, Debug, PartialEq, Eq)]
pub enum IpAddress {
    V4([u8; 4]),
    V6([u8; 16]),
}

impl IpAddress {
    /// The IPv4 limited-broadcast address, 255.255.255.255.
    pub open spec fn spec_limited_broadcast() -> IpAddress {
        IpAddress::V4([255u8, 255u8, 255u8, 255u8])
    }

    /// The address of `self`'s family that stands for every local interface:
    /// 0.0.0.0 for IPv4, `::` for IPv6.
    pub open spec fn spec_wildcard(self) -> IpAddress {
        match self {
            IpAddress::V4(_) => IpAddress::V4([0u8, 0u8, 0u8, 0u8]),
            IpAddress::V6(_) => IpAddress::V6(
                [0u8, 0u8, 0u8, 0u8, 0u8, 0u8, 0u8, 0u8, 0u8, 0u8, 0u8, 0u8, 0u8, 0u8, 0u8, 0u8],
            ),
        }
    }

    /// Whether `self` and `other` belong to the same address family.
    pub open spec fn same_family(self, other: IpAddress) -> bool {
        (self is V4) == (other is V4)
    }

    /// The IPv4 limited-broadcast address, 255.255.255.255.
    #[verifier::when_used_as_spec(spec_limited_broadcast)]
    pub fn limited_broadcast() -> (address: IpAddress)
        ensures
            address == Self::spec_limited_broadcast(),
    {
        IpAddress::V4([255u8, 255u8, 255u8, 255u8])
    }

    /// The wildcard address of `self`'s family.
    #[verifier::when_used_as_spec(spec_wildcard)]
    pub fn wildcard(self) -> (address: IpAddress)
        ensures
            address == self.spec_wildcard(),
            address.same_family(self),
    {
        match self {
            IpAddress::V4(_) => IpAddress::V4([0u8, 0u8, 0u8, 0u8]),
            IpAddress::V6(_) => IpAddress::V6(
                [0u8, 0u8, 0u8, 0u8, 0u8, 0u8, 0u8, 0u8, 0u8, 0u8, 0u8, 0u8, 0u8, 0u8, 0u8, 0u8],
            ),
        }
    }
}

/// The destination of a magic packet: an IP address and a UDP port.
#[derive(Clone, Copy, Debug, PartialEq, Eq)]
pub struct BroadcastTarget {
    pub destination: IpAddress,
    pub port: u16,
}

impl BroadcastTarget {
    /// The target that a configuration stands for: what it names, and for
    /// what it leaves open the limited-broadcast address and port 9.
    pub open spec fn resolved(destination: Option<IpAddress>, port: Option<u16>) -> BroadcastTarget {
        BroadcastTarget {
            destination: match destination {
                Some(address) => address,
                None => IpAddress::spec_limited_broadcast(),
            },
            port: match port {
                Some(number) => number,
                None => DEFAULT_WOL_PORT,
            },
        }
    }

    /// Applies the defaults to an optional destination and an optional port.
    pub fn resolve(destination: Option<IpAddress>, port: Option<u16>) -> (target: BroadcastTarget)
        ensures
            target == Self::resolved(destination, port),
    {
        let destination = match destination {
            Some(address) => address,
            None => IpAddress::limited_broadcast(),
        };
        let port = match port {
            Some(number) => number,
            None => DEFAULT_WOL_PORT,
        };
        BroadcastTarget { destination, port }
    }
}

} // verus!
