//! Relays, credentials and what the relay selector hands back.
use vstd::prelude::*;
use crate::net::{Endpoint, IpAddress, IpNetwork, PrivateKey, PublicKey, SocketAddress, TransportProtocol};
use crate::parameters::{CustomTunnelEndpoint, ProxySettings, ObfuscatorConfig};

verus! {

/// Where a relay stands. Coordinates are in millionths of a degree.
#[derive(Clone, Debug)]
pub struct Location {
    pub country: String,
    pub city: String,
    pub latitude_microdegrees: i64,
    pub longitude_microdegrees: i64,
}

/// A relay server, as far as this library reads it.
#[derive(Clone, Debug)]
pub struct Relay {
    pub hostname: String,
    pub location: Location,
}

/// The WireGuard material issued for this device: a private key and the
/// tunnel addresses that belong to it.
#[derive(Clone, Copy, Debug)]
pub struct WireguardData {
    pub private_key: PrivateKey,
    pub ipv4_address: u32,
    pub ipv6_address: u128,
}

/// The credentials currently usable to build tunnel parameters.
#[derive(Clone, Debug)]
pub struct AuthDetails {
    /// Account token, used as the OpenVPN user name.
    pub openvpn_user: String,
    pub wg_data: WireguardData,
}

/// A WireGuard peer.
#[derive(Clone, Debug)]
pub struct PeerConfig {
    pub public_key: PublicKey,
    pub allowed_ips: Vec<IpNetwork>,
    pub endpoint: SocketAddress,
    pub protocol: TransportProtocol,
}

/// The WireGuard endpoint of a selected relay, with its exit peer when
/// multihop is in use.
#[derive(Clone, Debug)]
pub struct MullvadWireguardEndpoint {
    pub peer: PeerConfig,
    pub exit_peer: Option<PeerConfig>,
    pub ipv4_gateway: u32,
    pub ipv6_gateway: u128,
}

/// The endpoint chosen by the selector, per protocol.
#[derive(Clone, Debug)]
pub enum MullvadEndpoint {
    OpenVpn(Endpoint),
    Wireguard(MullvadWireguardEndpoint),
}

/// A relay chain picked from the relay list.
#[derive(Clone, Debug)]
pub struct NormalSelectedRelay {
    pub exit_relay: Relay,
    pub entry_relay: Option<Relay>,
    pub endpoint: MullvadEndpoint,
}

/// A custom relay, with the address its host name resolved to, or `None`
/// where resolution failed.
#[derive(Clone, Debug)]
pub struct ResolvedCustomRelay {
    pub endpoint: CustomTunnelEndpoint,
    pub address: Option<IpAddress>,
}

/// The relay part of a selection.
#[derive(Clone, Debug)]
pub enum SelectedRelay {
    Normal(NormalSelectedRelay),
    Custom(ResolvedCustomRelay),
}

/// A bridge from the relay list, with its proxy settings.
#[derive(Clone, Debug)]
pub struct SelectedNormalBridge {
    pub settings: ProxySettings,
    pub relay: Relay,
}

/// A bridge: one from the relay list, or custom proxy settings.
#[derive(Clone, Debug)]
pub enum SelectedBridge {
    Normal(SelectedNormalBridge),
    Custom(ProxySettings),
}

/// An obfuscator, with the relay that runs it.
#[derive(Clone, Debug)]
pub struct SelectedObfuscator {
    pub config: ObfuscatorConfig,
    pub relay: Relay,
}

/// Everything the relay selector picked for one attempt.
#[derive(Clone, Debug)]
pub struct Selection {
    pub relay: SelectedRelay,
    pub bridge: Option<SelectedBridge>,
    pub obfuscator: Option<SelectedObfuscator>,
}

/// The proxy settings of a bridge, if any.
pub open spec fn bridge_settings(bridge: Option<SelectedBridge>) -> Option<ProxySettings> {
    match bridge {
        Some(SelectedBridge::Normal(b)) => Some(b.settings),
        Some(SelectedBridge::Custom(settings)) => Some(settings),
        None => None,
    }
}

/// The relay of a bridge: only a bridge from the relay list has one.
pub open spec fn bridge_relay(bridge: Option<SelectedBridge>) -> Option<Relay> {
    match bridge {
        Some(SelectedBridge::Normal(b)) => Some(b.relay),
        _ => None,
    }
}

/// The configuration of an obfuscator, if any.
pub open spec fn obfuscator_config(obfuscator: Option<SelectedObfuscator>) -> Option<ObfuscatorConfig> {
    match obfuscator {
        Some(o) => Some(o.config),
        None => None,
    }
}

/// The relay of an obfuscator, if any.
pub open spec fn obfuscator_relay(obfuscator: Option<SelectedObfuscator>) -> Option<Relay> {
    match obfuscator {
        Some(o) => Some(o.relay),
        None => None,
    }
}

/// Splits a bridge into its proxy settings and its relay.
pub fn split_bridge(bridge: Option<SelectedBridge>) -> (r: (Option<ProxySettings>, Option<Relay>))
    ensures
        r.0 == bridge_settings(bridge),
        r.1 == bridge_relay(bridge),
{
    match bridge {
        Some(SelectedBridge::Normal(b)) => (Some(b.settings), Some(b.relay)),
        Some(SelectedBridge::Custom(settings)) => (Some(settings), None),
        None => (None, None),
    }
}

/// Splits an obfuscator into its relay and its configuration.
pub fn split_obfuscator(obfuscator: Option<SelectedObfuscator>) -> (r: (Option<Relay>, Option<ObfuscatorConfig>))
    ensures
        r.0 == obfuscator_relay(obfuscator),
        r.1 == obfuscator_config(obfuscator),
{
    match obfuscator {
        Some(o) => (Some(o.relay), Some(o.config)),
        None => (None, None),
    }
}

} // verus!
