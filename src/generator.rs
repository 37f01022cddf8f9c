//! The generator state: cached credentials, tunnel options and the relays of
//! the last generated parameters, with the operations on it.
use vstd::prelude::*;
use crate::errors::{
    generation_error, generation_error_spec, selector_error, selector_error_spec,
    CredentialFetchError, Error, ParameterGenerationError, SelectorError,
};
use crate::net::{Endpoint, IpAddress};
use crate::parameters::{
    custom_parameters, ObfuscatorConfig, OpenVpnConnectionConfig, OpenVpnTunnelParameters,
    ProxySettings, TunnelConfig, TunnelOptions, TunnelParameters, WireguardConnectionConfig,
    WireguardTunnelParameters,
};
use crate::relays::{
    bridge_relay, bridge_settings, obfuscator_config, obfuscator_relay, split_bridge,
    split_obfuscator, AuthDetails, MullvadEndpoint, MullvadWireguardEndpoint, Relay,
    SelectedBridge, SelectedObfuscator, SelectedRelay, Selection, WireguardData,
};

verus! {

/// The relays that were selected the last time tunnel parameters were
/// generated.
#[derive(Clone, Debug)]
pub enum LastSelectedRelays {
    /// The relays of a WireGuard tunnel. Traffic may flow
    /// client -> obfuscator -> entry -> exit -> internet,
    /// or, for most users, client -> entry -> internet.
    WireGuard { wg_entry: Option<Relay>, wg_exit: Relay, obfuscator: Option<Relay> },
    /// The relays of an OpenVPN tunnel: client -> bridge -> relay -> internet.
    OpenVpn { relay: Relay, bridge: Option<Relay> },
}

/// A location as reported to the user.
#[derive(Clone, Debug)]
pub struct GeoIpLocation {
    pub ipv4: Option<u32>,
    pub ipv6: Option<u128>,
    pub country: String,
    pub city: Option<String>,
    pub latitude_microdegrees: i64,
    pub longitude_microdegrees: i64,
    pub mullvad_exit_ip: bool,
    pub hostname: Option<String>,
    pub bridge_hostname: Option<String>,
    pub entry_hostname: Option<String>,
    pub obfuscator_hostname: Option<String>,
}

/// The host name of a relay, if there is one.
pub open spec fn hostname_of(relay: Option<Relay>) -> Option<String> {
    match relay {
        Some(r) => Some(r.hostname),
        None => None,
    }
}

/// The location of `relay`, with the given auxiliary host names.
pub open spec fn location_at(
    relay: Relay,
    bridge_hostname: Option<String>,
    entry_hostname: Option<String>,
    obfuscator_hostname: Option<String>,
) -> GeoIpLocation {
    GeoIpLocation {
        ipv4: None,
        ipv6: None,
        country: relay.location.country,
        city: Some(relay.location.city),
        latitude_microdegrees: relay.location.latitude_microdegrees,
        longitude_microdegrees: relay.location.longitude_microdegrees,
        mullvad_exit_ip: true,
        hostname: Some(relay.hostname),
        bridge_hostname,
        entry_hostname,
        obfuscator_hostname,
    }
}

/// The location reported for a record of relays: the exit relay's for
/// WireGuard, with entry and obfuscator host names; the relay's for OpenVPN,
/// with the bridge host name.
pub open spec fn last_location(relays: Option<LastSelectedRelays>) -> Option<GeoIpLocation> {
    match relays {
        None => None,
        Some(LastSelectedRelays::WireGuard { wg_entry, wg_exit, obfuscator }) => Some(
            location_at(wg_exit, None, hostname_of(wg_entry), hostname_of(obfuscator)),
        ),
        Some(LastSelectedRelays::OpenVpn { relay, bridge }) => Some(
            location_at(relay, hostname_of(bridge), None, None),
        ),
    }
}

/// `p` is the OpenVPN configuration for `endpoint`, logged in as `user` with
/// the placeholder password "-".
pub open spec fn is_openvpn_parameters(
    p: OpenVpnTunnelParameters,
    endpoint: Endpoint,
    user: String,
    options: TunnelOptions,
    proxy: Option<ProxySettings>,
) -> bool {
    &&& p.config.endpoint == endpoint
    &&& p.config.username == user
    &&& p.config.password@ == seq!['-']
    &&& p.options == options.openvpn
    &&& p.generic_options == options.generic
    &&& p.proxy == proxy
}

/// `p` is the WireGuard configuration for `endpoint` with the device's key
/// and its IPv4 and IPv6 addresses, in that order.
pub open spec fn is_wireguard_parameters(
    p: WireguardTunnelParameters,
    keys: WireguardData,
    endpoint: MullvadWireguardEndpoint,
    options: TunnelOptions,
    obfuscation: Option<ObfuscatorConfig>,
) -> bool {
    &&& p.connection.tunnel.private_key == keys.private_key
    &&& p.connection.tunnel.addresses@ == seq![
        IpAddress::V4(keys.ipv4_address),
        IpAddress::V6(keys.ipv6_address),
    ]
    &&& p.connection.peer == endpoint.peer
    &&& p.connection.exit_peer == endpoint.exit_peer
    &&& p.connection.ipv4_gateway == endpoint.ipv4_gateway
    &&& p.connection.ipv6_gateway == Some(endpoint.ipv6_gateway)
    &&& p.options == options.wireguard
    &&& p.generic_options == options.generic
    &&& p.obfuscation == obfuscation
}

/// The relays recorded after building parameters for a relay chain.
pub open spec fn relays_record(
    relay: Relay,
    entry_relay: Option<Relay>,
    endpoint: MullvadEndpoint,
    bridge: Option<SelectedBridge>,
    obfuscator: Option<SelectedObfuscator>,
) -> LastSelectedRelays {
    match endpoint {
        MullvadEndpoint::OpenVpn(_) => LastSelectedRelays::OpenVpn {
            relay,
            bridge: bridge_relay(bridge),
        },
        MullvadEndpoint::Wireguard(_) => LastSelectedRelays::WireGuard {
            wg_entry: entry_relay,
            wg_exit: relay,
            obfuscator: obfuscator_relay(obfuscator),
        },
    }
}

/// `p` is the tunnel configuration for a relay chain, given the credentials.
pub open spec fn is_chain_parameters(
    p: TunnelParameters,
    auth: AuthDetails,
    endpoint: MullvadEndpoint,
    options: TunnelOptions,
    bridge: Option<SelectedBridge>,
    obfuscator: Option<SelectedObfuscator>,
) -> bool {
    match (endpoint, p) {
        (MullvadEndpoint::OpenVpn(e), TunnelParameters::OpenVpn(p)) => is_openvpn_parameters(
            p,
            e,
            auth.openvpn_user,
            options,
            bridge_settings(bridge),
        ),
        (MullvadEndpoint::Wireguard(e), TunnelParameters::Wireguard(p)) => is_wireguard_parameters(
            p,
            auth.wg_data,
            e,
            options,
            obfuscator_config(obfuscator),
        ),
        _ => false,
    }
}

/// Holds the state from which tunnel parameters are generated.
pub struct ParametersGenerator {
    tunnel_options: TunnelOptions,
    auth_details: Option<AuthDetails>,
    last_generated_relays: Option<LastSelectedRelays>,
}

/// The selector is asked for `retry_attempt` only where credentials are
/// cached; otherwise generation fails at once.
pub open spec fn selection_request_spec(g: ParametersGenerator, retry_attempt: u32) -> Result<u32, Error> {
    if g.auth() is None {
        Err(Error::NoAuthDetails)
    } else {
        Ok(retry_attempt)
    }
}

/// Why generation from `selection` fails in state `g`, or `None` where it
/// succeeds.
pub open spec fn generation_failure(
    g: ParametersGenerator,
    selection: Result<Selection, SelectorError>,
) -> Option<Error> {
    if g.auth() is None {
        Some(Error::NoAuthDetails)
    } else {
        match selection {
            Err(e) => Some(selector_error_spec(e)),
            Ok(s) => match s.relay {
                SelectedRelay::Custom(c) => if c.address is None {
                    Some(Error::ResolveCustomHostnameError)
                } else {
                    None
                },
                SelectedRelay::Normal(_) => None,
            },
        }
    }
}

/// The relays recorded after generation from `selection` in state `g`: only a
/// successful generation for a relay chain replaces the record.
pub open spec fn next_relays(
    g: ParametersGenerator,
    selection: Result<Selection, SelectorError>,
) -> Option<LastSelectedRelays> {
    if generation_failure(g, selection) is Some {
        g.last_relays()
    } else {
        match selection {
            Ok(s) => match s.relay {
                SelectedRelay::Normal(n) => Some(
                    relays_record(n.exit_relay, n.entry_relay, n.endpoint, s.bridge, s.obfuscator),
                ),
                SelectedRelay::Custom(_) => g.last_relays(),
            },
            Err(_) => g.last_relays(),
        }
    }
}

/// `p` is what a successful generation from `selection` in state `g` returns.
pub open spec fn is_generated(
    g: ParametersGenerator,
    selection: Result<Selection, SelectorError>,
    p: TunnelParameters,
) -> bool {
    match selection {
        Ok(s) => match s.relay {
            SelectedRelay::Custom(c) => p == custom_parameters(
                c.endpoint,
                c.address->Some_0,
                g.options(),
                None,
            ),
            SelectedRelay::Normal(n) => is_chain_parameters(
                p,
                g.auth()->Some_0,
                n.endpoint,
                g.options(),
                s.bridge,
                s.obfuscator,
            ),
        },
        Err(_) => false,
    }
}

/// The result and final state of a generation from `selection` that started
/// in state `old` and ended in state `new`, with errors as `r` reports them.
pub open spec fn generation_outcome(
    old: ParametersGenerator,
    selection: Result<Selection, SelectorError>,
    r: Result<TunnelParameters, Error>,
    new: ParametersGenerator,
) -> bool {
    &&& new.options() == old.options()
    &&& new.auth() == old.auth()
    &&& new.last_relays() == next_relays(old, selection)
    &&& match generation_failure(old, selection) {
        Some(e) => r == Err::<TunnelParameters, Error>(e),
        None => r is Ok && is_generated(old, selection, r->Ok_0),
    }
}

impl ParametersGenerator {
    /// The tunnel options in use.
    pub closed spec fn options(&self) -> TunnelOptions {
        self.tunnel_options
    }

    /// The cached credentials, if any.
    pub closed spec fn auth(&self) -> Option<AuthDetails> {
        self.auth_details
    }

    /// The relays of the last successful generation for a relay chain.
    pub closed spec fn last_relays(&self) -> Option<LastSelectedRelays> {
        self.last_generated_relays
    }

    /// Creates a generator from the credential store's first answer. Having
    /// no credentials yet is a valid state; failing to fetch them is not.
    pub fn new(
        initial_auth: Result<Option<AuthDetails>, CredentialFetchError>,
        tunnel_options: TunnelOptions,
    ) -> (r: Result<Self, Error>)
        ensures
            match initial_auth {
                Err(_) => r == Err::<Self, Error>(Error::NoAuthDetails),
                Ok(auth) => {
                    &&& r is Ok
                    &&& r->Ok_0.auth() == auth
                    &&& r->Ok_0.options() == tunnel_options
                    &&& r->Ok_0.last_relays() is None
                },
            },
    {
        match initial_auth {
            Err(_) => Err(Error::NoAuthDetails),
            Ok(auth_details) => Ok(ParametersGenerator {
                tunnel_options,
                auth_details,
                last_generated_relays: None,
            }),
        }
    }

    /// Replaces the tunnel options used by later generations.
    pub fn set_tunnel_options(&mut self, tunnel_options: &TunnelOptions)
        ensures
            final(self).options() == *tunnel_options,
            final(self).auth() == old(self).auth(),
            final(self).last_relays() == old(self).last_relays(),
    {
        self.tunnel_options = *tunnel_options;
    }

    /// Installs the credentials of a credential-change event, replacing the
    /// cached ones wholesale; `None` means they were revoked.
    pub fn update_auth_details(&mut self, auth_details: Option<AuthDetails>)
        ensures
            final(self).auth() == auth_details,
            final(self).options() == old(self).options(),
            final(self).last_relays() == old(self).last_relays(),
    {
        self.auth_details = auth_details;
    }

    /// Whether the relay selector is to be asked for `retry_attempt`: it is
    /// only when credentials are cached, and otherwise generation fails.
    pub fn selection_request(&self, retry_attempt: u32) -> (r: Result<u32, Error>)
        ensures
            r == selection_request_spec(*self, retry_attempt),
    {
        match self.auth_details {
            None => Err(Error::NoAuthDetails),
            Some(_) => Ok(retry_attempt),
        }
    }
    /// Builds the parameters for a relay chain picked from the relay list and
    /// records its relays.
    fn create_tunnel_parameters(
        &mut self,
        relay: Relay,
        entry_relay: Option<Relay>,
        endpoint: MullvadEndpoint,
        bridge: Option<SelectedBridge>,
        obfuscator: Option<SelectedObfuscator>,
    ) -> (r: Result<TunnelParameters, Error>)
        ensures
            final(self).options() == old(self).options(),
            final(self).auth() == old(self).auth(),
            match old(self).auth() {
                None => {
                    &&& r == Err::<TunnelParameters, Error>(Error::NoAuthDetails)
                    &&& final(self).last_relays() == old(self).last_relays()
                },
                Some(auth) => {
                    &&& r is Ok
                    &&& is_chain_parameters(
                        r->Ok_0,
                        auth,
                        endpoint,
                        old(self).options(),
                        bridge,
                        obfuscator,
                    )
                    &&& final(self).last_relays() == Some(
                        relays_record(relay, entry_relay, endpoint, bridge, obfuscator),
                    )
                },
            },
    {
        let auth_details = match &self.auth_details {
            Some(a) => a,
            None => return Err(Error::NoAuthDetails),
        };
        match endpoint {
            MullvadEndpoint::OpenVpn(endpoint) => {
                let (bridge_settings, bridge_relay) = split_bridge(bridge);
                let username = auth_details.openvpn_user.clone();
                let password = "-".to_owned();
                proof {
                    reveal_strlit("-");
                }
                assert(password@ =~= seq!['-']);
                self.last_generated_relays = Some(
                    LastSelectedRelays::OpenVpn { relay, bridge: bridge_relay },
                );
                Ok(
                    TunnelParameters::OpenVpn(
                        OpenVpnTunnelParameters {
                            config: OpenVpnConnectionConfig { endpoint, username, password },
                            options: self.tunnel_options.openvpn,
                            generic_options: self.tunnel_options.generic,
                            proxy: bridge_settings,
                        },
                    ),
                )
            },
            MullvadEndpoint::Wireguard(endpoint) => {
                let wg_data = auth_details.wg_data;
                let mut addresses: Vec<IpAddress> = Vec::new();
                addresses.push(IpAddress::V4(wg_data.ipv4_address));
                addresses.push(IpAddress::V6(wg_data.ipv6_address));
                assert(addresses@ =~= seq![
                    IpAddress::V4(wg_data.ipv4_address),
                    IpAddress::V6(wg_data.ipv6_address),
                ]);
                let tunnel = TunnelConfig { private_key: wg_data.private_key, addresses };
                let (obfuscator_relay, obfuscator_config) = split_obfuscator(obfuscator);
                self.last_generated_relays = Some(
                    LastSelectedRelays::WireGuard {
                        wg_entry: entry_relay,
                        wg_exit: relay,
                        obfuscator: obfuscator_relay,
                    },
                );
                Ok(
                    TunnelParameters::Wireguard(
                        WireguardTunnelParameters {
                            connection: WireguardConnectionConfig {
                                tunnel,
                                peer: endpoint.peer,
                                exit_peer: endpoint.exit_peer,
                                ipv4_gateway: endpoint.ipv4_gateway,
                                ipv6_gateway: Some(endpoint.ipv6_gateway),
                            },
                            options: self.tunnel_options.wireguard,
                            generic_options: self.tunnel_options.generic,
                            obfuscation: obfuscator_config,
                        },
                    ),
                )
            },
        }
    }

    /// Generates tunnel parameters from what the relay selector returned.
    /// Fails without consulting the selection when no credentials are cached.
    /// Only a successful generation for a relay chain replaces the record of
    /// the last relays; credentials and options are left as they are.
    pub fn try_generate(&mut self, selection: Result<Selection, SelectorError>) -> (r: Result<
        TunnelParameters,
        Error,
    >)
        ensures
            generation_outcome(*old(self), selection, r, *final(self)),
    {
        if self.auth_details.is_none() {
            return Err(Error::NoAuthDetails);
        }
        match selection {
            Ok(Selection { relay: SelectedRelay::Custom(custom), bridge: _, obfuscator: _ }) => {
                match custom.address {
                    Some(ip) => Ok(custom.endpoint.to_tunnel_parameters(ip, self.tunnel_options, None)),
                    None => Err(Error::ResolveCustomHostnameError),
                }
            },
            Ok(Selection { relay: SelectedRelay::Normal(normal), bridge, obfuscator }) => {
                self.create_tunnel_parameters(
                    normal.exit_relay,
                    normal.entry_relay,
                    normal.endpoint,
                    bridge,
                    obfuscator,
                )
            },
            Err(e) => Err(selector_error(e)),
        }
    }

    /// Generates tunnel parameters as `try_generate` does, with errors in the
    /// classification of the tunnel state machine.
    pub fn generate(&mut self, selection: Result<Selection, SelectorError>) -> (r: Result<
        TunnelParameters,
        ParameterGenerationError,
    >)
        ensures
            final(self).options() == old(self).options(),
            final(self).auth() == old(self).auth(),
            final(self).last_relays() == next_relays(*old(self), selection),
            match generation_failure(*old(self), selection) {
                Some(e) => r == Err::<TunnelParameters, ParameterGenerationError>(
                    generation_error_spec(e),
                ),
                None => r is Ok && is_generated(*old(self), selection, r->Ok_0),
            },
    {
        match self.try_generate(selection) {
            Ok(p) => Ok(p),
            Err(e) => Err(generation_error(e)),
        }
    }

    /// The location of the last generated tunnel parameters, or `None` before
    /// any generation for a relay chain succeeded.
    pub fn get_last_location(&self) -> (r: Option<GeoIpLocation>)
        ensures
            r == last_location(self.last_relays()),
    {
        match &self.last_generated_relays {
            None => None,
            Some(LastSelectedRelays::WireGuard { wg_entry, wg_exit, obfuscator }) => Some(
                location_of(wg_exit, None, take_hostname(wg_entry), take_hostname(obfuscator)),
            ),
            Some(LastSelectedRelays::OpenVpn { relay, bridge }) => Some(
                location_of(relay, take_hostname(bridge), None, None),
            ),
        }
    }
}

/// The host name of a relay, if there is one.
fn take_hostname(relay: &Option<Relay>) -> (r: Option<String>)
    ensures
        r == hostname_of(*relay),
{
    match relay {
        Some(relay) => Some(relay.hostname.clone()),
        None => None,
    }
}

/// The location of `relay`, with the given auxiliary host names.
fn location_of(
    relay: &Relay,
    bridge_hostname: Option<String>,
    entry_hostname: Option<String>,
    obfuscator_hostname: Option<String>,
) -> (r: GeoIpLocation)
    ensures
        r == location_at(*relay, bridge_hostname, entry_hostname, obfuscator_hostname),
{
    GeoIpLocation {
        ipv4: None,
        ipv6: None,
        country: relay.location.country.clone(),
        city: Some(relay.location.city.clone()),
        latitude_microdegrees: relay.location.latitude_microdegrees,
        longitude_microdegrees: relay.location.longitude_microdegrees,
        mullvad_exit_ip: true,
        hostname: Some(relay.hostname.clone()),
        bridge_hostname,
        entry_hostname,
        obfuscator_hostname,
    }
}

} // verus!
