use vstd::prelude::*;

verus! {

/// A socket address as plain numbers: the IP address as one integer, most
/// significant octet first, and the port.
#[derive(Clone, Copy, Debug, PartialEq, Eq, Structural)]
#[allow(inconsistent_fields)]
pub enum SocketAddress {
    V4 { ip: u32, port: u16 },
    V6 { ip: u128, port: u16 },
}

impl SocketAddress {
    /// The IPv4 address `0.0.0.0:0`, which stands where there is no peer.
    pub open spec fn zero() -> SocketAddress {
        SocketAddress::V4 { ip: 0, port: 0 }
    }

    /// The IPv4 address `0.0.0.0:0`.
    pub fn unspecified() -> (address: SocketAddress)
        ensures
            address == Self::zero(),
    {
        SocketAddress::V4 { ip: 0, port: 0 }
    }
}

} // verus!
