//! Plain network values: addresses, endpoints and keys.
use vstd::prelude::*;

verus! {

/// An IP address: IPv4 as a big-endian `u32`, IPv6 as a big-endian `u128`.
#[derive(Clone, Copy, Debug, PartialEq, Eq, Structural)]
pub enum IpAddress {
    V4(u32),
    V6(u128),
}

/// An IP address together with a port.
#[derive(Clone, Copy, Debug, PartialEq, Eq, Structural)]
pub struct SocketAddress {
    pub ip: IpAddress,
    pub port: u16,
}

impl SocketAddress {
    /// Replaces the address, keeping the port.
    pub fn set_ip(&mut self, ip: IpAddress)
        ensures
            *final(self) == (SocketAddress { ip, port: old(self).port }),
    {
        self.ip = ip;
    }
}

/// Transport protocol of an endpoint.
#[derive(Clone, Copy, Debug, PartialEq, Eq, Structural)]
pub enum TransportProtocol {
    Udp,
    Tcp,
}

/// An address and the transport protocol used to reach it.
#[derive(Clone, Copy, Debug, PartialEq, Eq, Structural)]
pub struct Endpoint {
    pub address: SocketAddress,
    pub protocol: TransportProtocol,
}

/// An IP network: an address and a prefix length.
#[derive(Clone, Copy, Debug, PartialEq, Eq, Structural)]
pub struct IpNetwork {
    pub ip: IpAddress,
    pub prefix: u8,
}

/// A WireGuard public key.
#[derive(Clone, Copy, Debug)]
pub struct PublicKey {
    pub bytes: [u8; 32],
}

/// A WireGuard private key.
#[derive(Clone, Copy, Debug)]
pub struct PrivateKey {
    pub bytes: [u8; 32],
}

} // verus!
