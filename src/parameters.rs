//! Tunnel options and the protocol-specific tunnel parameters built from them.
use vstd::prelude::*;
use crate::net::{Endpoint, IpAddress, PrivateKey, SocketAddress};
use crate::relays::PeerConfig;

verus! {

/// OpenVPN-specific tunnel options.
#[derive(Clone, Copy, Debug, PartialEq, Eq, Structural)]
pub struct OpenVpnTunnelOptions {
    pub mssfix: Option<u16>,
}

/// WireGuard-specific tunnel options.
#[derive(Clone, Copy, Debug, PartialEq, Eq, Structural)]
pub struct WireguardTunnelOptions {
    pub mtu: Option<u16>,
}

/// Options common to both protocols.
#[derive(Clone, Copy, Debug, PartialEq, Eq, Structural)]
pub struct GenericTunnelOptions {
    pub enable_ipv6: bool,
}

/// The user's tunnel settings.
#[derive(Clone, Copy, Debug, PartialEq, Eq, Structural)]
pub struct TunnelOptions {
    pub openvpn: OpenVpnTunnelOptions,
    pub wireguard: WireguardTunnelOptions,
    pub generic: GenericTunnelOptions,
}

/// How OpenVPN traffic is proxied through a bridge.
#[derive(Clone, Debug)]
pub enum ProxySettings {
    /// A proxy running on this machine, forwarding to `peer`.
    Local { port: u16, peer: SocketAddress },
    /// A remote SOCKS proxy, with optional user name and password.
    Remote { address: SocketAddress, auth: Option<(String, String)> },
    /// A Shadowsocks bridge.
    Shadowsocks { peer: SocketAddress, password: String, cipher: String },
}

/// How WireGuard traffic is obfuscated.
#[derive(Clone, Copy, Debug, PartialEq, Eq, Structural)]
pub enum ObfuscatorConfig {
    Udp2Tcp { endpoint: SocketAddress },
}

/// How to reach an OpenVPN server and log in to it.
#[derive(Clone, Debug)]
pub struct OpenVpnConnectionConfig {
    pub endpoint: Endpoint,
    pub username: String,
    pub password: String,
}

/// The local side of a WireGuard tunnel.
#[derive(Clone, Debug)]
pub struct TunnelConfig {
    pub private_key: PrivateKey,
    pub addresses: Vec<IpAddress>,
}

/// Both sides of a WireGuard tunnel.
#[derive(Clone, Debug)]
pub struct WireguardConnectionConfig {
    pub tunnel: TunnelConfig,
    pub peer: PeerConfig,
    pub exit_peer: Option<PeerConfig>,
    pub ipv4_gateway: u32,
    pub ipv6_gateway: Option<u128>,
}

/// Everything needed for one OpenVPN connection attempt.
#[derive(Clone, Debug)]
pub struct OpenVpnTunnelParameters {
    pub config: OpenVpnConnectionConfig,
    pub options: OpenVpnTunnelOptions,
    pub generic_options: GenericTunnelOptions,
    pub proxy: Option<ProxySettings>,
}

/// Everything needed for one WireGuard connection attempt.
#[derive(Clone, Debug)]
pub struct WireguardTunnelParameters {
    pub connection: WireguardConnectionConfig,
    pub options: WireguardTunnelOptions,
    pub generic_options: GenericTunnelOptions,
    pub obfuscation: Option<ObfuscatorConfig>,
}

/// Tunnel parameters of either protocol.
#[derive(Clone, Debug)]
pub enum TunnelParameters {
    OpenVpn(OpenVpnTunnelParameters),
    Wireguard(WireguardTunnelParameters),
}

/// A connection configuration written by the user.
#[derive(Clone, Debug)]
pub enum ConnectionConfig {
    OpenVpn(OpenVpnConnectionConfig),
    Wireguard(WireguardConnectionConfig),
}

/// A relay given by the user: a host name and a connection configuration
/// whose server address is replaced by what the host name resolves to.
#[derive(Clone, Debug)]
pub struct CustomTunnelEndpoint {
    pub host: String,
    pub config: ConnectionConfig,
}

/// The connection configuration with its server address set to `ip`.
pub open spec fn config_with_ip(config: ConnectionConfig, ip: IpAddress) -> ConnectionConfig {
    match config {
        ConnectionConfig::OpenVpn(c) => ConnectionConfig::OpenVpn(OpenVpnConnectionConfig {
            endpoint: Endpoint {
                address: SocketAddress { ip, port: c.endpoint.address.port },
                protocol: c.endpoint.protocol,
            },
            username: c.username,
            password: c.password,
        }),
        ConnectionConfig::Wireguard(c) => ConnectionConfig::Wireguard(WireguardConnectionConfig {
            peer: PeerConfig {
                endpoint: SocketAddress { ip, port: c.peer.endpoint.port },
                public_key: c.peer.public_key,
                allowed_ips: c.peer.allowed_ips,
                protocol: c.peer.protocol,
            },
            tunnel: c.tunnel,
            exit_peer: c.exit_peer,
            ipv4_gateway: c.ipv4_gateway,
            ipv6_gateway: c.ipv6_gateway,
        }),
    }
}

/// The parameters of a custom relay whose host resolved to `ip`: its own
/// configuration with that address, the options of its protocol, and the
/// proxy for OpenVPN. A custom WireGuard relay is never obfuscated.
pub open spec fn custom_parameters(
    endpoint: CustomTunnelEndpoint,
    ip: IpAddress,
    options: TunnelOptions,
    proxy: Option<ProxySettings>,
) -> TunnelParameters {
    match config_with_ip(endpoint.config, ip) {
        ConnectionConfig::OpenVpn(config) => TunnelParameters::OpenVpn(OpenVpnTunnelParameters {
            config,
            options: options.openvpn,
            generic_options: options.generic,
            proxy,
        }),
        ConnectionConfig::Wireguard(connection) => TunnelParameters::Wireguard(WireguardTunnelParameters {
            connection,
            options: options.wireguard,
            generic_options: options.generic,
            obfuscation: None,
        }),
    }
}

impl ConnectionConfig {
    /// Points the configuration at the server address `ip`.
    pub fn set_ip(&mut self, ip: IpAddress)
        ensures
            *final(self) == config_with_ip(*old(self), ip),
    {
        match self {
            ConnectionConfig::OpenVpn(c) => c.endpoint.address.set_ip(ip),
            ConnectionConfig::Wireguard(c) => c.peer.endpoint.set_ip(ip),
        }
    }
}

impl CustomTunnelEndpoint {
    /// Builds tunnel parameters for this relay, whose host resolved to `ip`.
    pub fn to_tunnel_parameters(
        self,
        ip: IpAddress,
        tunnel_options: TunnelOptions,
        proxy: Option<ProxySettings>,
    ) -> (r: TunnelParameters)
        ensures
            r == custom_parameters(self, ip, tunnel_options, proxy),
    {
        let mut config = self.config;
        config.set_ip(ip);
        match config {
            ConnectionConfig::OpenVpn(config) => TunnelParameters::OpenVpn(OpenVpnTunnelParameters {
                config,
                options: tunnel_options.openvpn,
                generic_options: tunnel_options.generic,
                proxy,
            }),
            ConnectionConfig::Wireguard(connection) => TunnelParameters::Wireguard(WireguardTunnelParameters {
                connection,
                options: tunnel_options.wireguard,
                generic_options: tunnel_options.generic,
                obfuscation: None,
            }),
        }
    }
}

} // verus!
