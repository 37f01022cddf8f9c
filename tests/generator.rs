use tunnel_parameters::errors::{generation_error, selector_error};
use tunnel_parameters::net::{
    Endpoint, IpAddress, IpNetwork, PrivateKey, PublicKey, SocketAddress, TransportProtocol,
};
use tunnel_parameters::parameters::{
    ConnectionConfig, CustomTunnelEndpoint, GenericTunnelOptions, ObfuscatorConfig,
    OpenVpnConnectionConfig, OpenVpnTunnelOptions, ProxySettings, TunnelConfig, TunnelOptions,
    TunnelParameters, WireguardConnectionConfig, WireguardTunnelOptions,
};
use tunnel_parameters::relays::{
    AuthDetails, Location, MullvadEndpoint, MullvadWireguardEndpoint, NormalSelectedRelay,
    PeerConfig, Relay, ResolvedCustomRelay, SelectedBridge, SelectedNormalBridge,
    SelectedObfuscator, SelectedRelay, Selection, WireguardData,
};
use tunnel_parameters::{
    CredentialFetchError, Error, ParameterGenerationError, ParametersGenerator, SelectorError,
};

const IPV4: u32 = 0x0A00_0001; // 10.0.0.1
const IPV6: u128 = 0xfe80 << 112 | 1; // fe80::1

fn options() -> TunnelOptions {
    TunnelOptions {
        openvpn: OpenVpnTunnelOptions { mssfix: Some(1300) },
        wireguard: WireguardTunnelOptions { mtu: Some(1380) },
        generic: GenericTunnelOptions { enable_ipv6: false },
    }
}

fn auth() -> AuthDetails {
    AuthDetails {
        openvpn_user: "1234567890".to_string(),
        wg_data: WireguardData {
            private_key: PrivateKey { bytes: [7; 32] },
            ipv4_address: IPV4,
            ipv6_address: IPV6,
        },
    }
}

fn relay(hostname: &str, city: &str) -> Relay {
    Relay {
        hostname: hostname.to_string(),
        location: Location {
            country: "Sweden".to_string(),
            city: city.to_string(),
            latitude_microdegrees: 59_329_300,
            longitude_microdegrees: 18_068_600,
        },
    }
}

fn addr(last: u32, port: u16) -> SocketAddress {
    SocketAddress { ip: IpAddress::V4(0xC0A8_0000 | last), port }
}

fn peer() -> PeerConfig {
    PeerConfig {
        public_key: PublicKey { bytes: [1; 32] },
        allowed_ips: vec![IpNetwork { ip: IpAddress::V4(0), prefix: 0 }],
        endpoint: addr(1, 51820),
        protocol: TransportProtocol::Udp,
    }
}

fn wg_endpoint() -> MullvadEndpoint {
    MullvadEndpoint::Wireguard(MullvadWireguardEndpoint {
        peer: peer(),
        exit_peer: None,
        ipv4_gateway: 0x0A40_0001,
        ipv6_gateway: 0xfc00 << 112 | 1,
    })
}

fn ovpn_endpoint() -> MullvadEndpoint {
    MullvadEndpoint::OpenVpn(Endpoint { address: addr(2, 1194), protocol: TransportProtocol::Udp })
}

fn normal(
    exit: Relay,
    entry: Option<Relay>,
    endpoint: MullvadEndpoint,
    bridge: Option<SelectedBridge>,
    obfuscator: Option<SelectedObfuscator>,
) -> Result<Selection, SelectorError> {
    Ok(Selection {
        relay: SelectedRelay::Normal(NormalSelectedRelay { exit_relay: exit, entry_relay: entry, endpoint }),
        bridge,
        obfuscator,
    })
}

fn generator(auth: Option<AuthDetails>) -> ParametersGenerator {
    ParametersGenerator::new(Ok(auth), options()).unwrap()
}

fn custom_wireguard(address: Option<IpAddress>) -> Result<Selection, SelectorError> {
    Ok(Selection {
        relay: SelectedRelay::Custom(ResolvedCustomRelay {
            endpoint: CustomTunnelEndpoint {
                host: "vpn.example.com".to_string(),
                config: ConnectionConfig::Wireguard(WireguardConnectionConfig {
                    tunnel: TunnelConfig {
                        private_key: PrivateKey { bytes: [9; 32] },
                        addresses: vec![IpAddress::V4(0x0A00_0063)],
                    },
                    peer: peer(),
                    exit_peer: None,
                    ipv4_gateway: 0x0A00_0062,
                    ipv6_gateway: None,
                }),
            },
            address,
        }),
        bridge: None,
        obfuscator: None,
    })
}

#[test]
fn wireguard_selection_reports_exit_location() {
    let mut g = generator(Some(auth()));
    let r = g.try_generate(normal(relay("se-sto-wg-001", "Stockholm"), None, wg_endpoint(), None, None));
    match r {
        Ok(TunnelParameters::Wireguard(p)) => {
            assert_eq!(p.connection.tunnel.addresses, vec![IpAddress::V4(IPV4), IpAddress::V6(IPV6)]);
            assert_eq!(p.connection.tunnel.private_key.bytes, [7; 32]);
            assert_eq!(p.connection.ipv4_gateway, 0x0A40_0001);
            assert_eq!(p.connection.ipv6_gateway, Some(0xfc00 << 112 | 1));
            assert_eq!(p.options, options().wireguard);
            assert_eq!(p.generic_options, options().generic);
            assert_eq!(p.obfuscation, None);
        }
        _ => panic!("expected WireGuard parameters"),
    }
    let loc = g.get_last_location().unwrap();
    assert_eq!(loc.city, Some("Stockholm".to_string()));
    assert_eq!(loc.country, "Sweden");
    assert_eq!(loc.hostname, Some("se-sto-wg-001".to_string()));
    assert_eq!(loc.entry_hostname, None);
    assert_eq!(loc.obfuscator_hostname, None);
    assert_eq!(loc.bridge_hostname, None);
    assert!(loc.mullvad_exit_ip);
    assert_eq!(loc.ipv4, None);
}

#[test]
fn no_bridge_error_for_any_attempt() {
    let mut g = generator(Some(auth()));
    g.try_generate(normal(relay("se-got-ovpn-001", "Gothenburg"), None, ovpn_endpoint(), None, None))
        .unwrap();
    for attempt in [0u32, 1, 7, u32::MAX] {
        assert_eq!(g.selection_request(attempt), Ok(attempt));
        assert!(matches!(g.try_generate(Err(SelectorError::NoBridge)), Err(Error::NoBridgeAvailable)));
        assert_eq!(g.get_last_location().unwrap().city, Some("Gothenburg".to_string()));
    }
    assert!(matches!(
        g.generate(Err(SelectorError::NoBridge)),
        Err(ParameterGenerationError::NoMatchingBridgeRelay)
    ));
}

#[test]
fn unresolved_custom_relay_fails() {
    let mut g = generator(Some(auth()));
    assert!(matches!(g.try_generate(custom_wireguard(None)), Err(Error::ResolveCustomHostnameError)));
    assert!(g.get_last_location().is_none());
    assert!(matches!(
        g.generate(custom_wireguard(None)),
        Err(ParameterGenerationError::CustomTunnelHostResultionError)
    ));
    // The credentials are still there: a chain selection succeeds.
    assert!(g.try_generate(normal(relay("a", "Oslo"), None, wg_endpoint(), None, None)).is_ok());
}

#[test]
fn resolved_custom_relay_uses_resolved_address() {
    let mut g = generator(Some(auth()));
    let ip = IpAddress::V4(0x5DB8_D822);
    match g.try_generate(custom_wireguard(Some(ip))) {
        Ok(TunnelParameters::Wireguard(p)) => {
            assert_eq!(p.connection.peer.endpoint, SocketAddress { ip, port: 51820 });
            assert_eq!(p.connection.tunnel.addresses, vec![IpAddress::V4(0x0A00_0063)]);
            assert_eq!(p.obfuscation, None);
            assert_eq!(p.options, options().wireguard);
        }
        _ => panic!("expected WireGuard parameters"),
    }
    // Custom relays are not recorded.
    assert!(g.get_last_location().is_none());
}

#[test]
fn custom_openvpn_relay_keeps_port() {
    let endpoint = CustomTunnelEndpoint {
        host: "ovpn.example.com".to_string(),
        config: ConnectionConfig::OpenVpn(OpenVpnConnectionConfig {
            endpoint: Endpoint { address: addr(3, 443), protocol: TransportProtocol::Tcp },
            username: "user".to_string(),
            password: "pass".to_string(),
        }),
    };
    let ip = IpAddress::V6(1);
    match endpoint.to_tunnel_parameters(ip, options(), None) {
        TunnelParameters::OpenVpn(p) => {
            assert_eq!(p.config.endpoint.address, SocketAddress { ip, port: 443 });
            assert_eq!(p.config.endpoint.protocol, TransportProtocol::Tcp);
            assert_eq!(p.config.username, "user");
            assert_eq!(p.options, options().openvpn);
            assert!(p.proxy.is_none());
        }
        _ => panic!("expected OpenVPN parameters"),
    }
}

#[test]
fn missing_credentials_fail_before_selection() {
    let mut g = generator(None);
    for attempt in [0u32, 3, u32::MAX] {
        assert_eq!(g.selection_request(attempt), Err(Error::NoAuthDetails));
    }
    let r = g.try_generate(normal(relay("a", "Oslo"), None, wg_endpoint(), None, None));
    assert!(matches!(r, Err(Error::NoAuthDetails)));
    assert!(matches!(
        g.generate(Err(SelectorError::NoBridge)),
        Err(ParameterGenerationError::NoMatchingRelay)
    ));
    assert!(g.get_last_location().is_none());
}

#[test]
fn no_location_before_generation() {
    let g = generator(Some(auth()));
    assert!(g.get_last_location().is_none());
}

#[test]
fn new_fails_when_fetch_fails() {
    assert!(matches!(ParametersGenerator::new(Err(CredentialFetchError), options()), Err(Error::NoAuthDetails)));
}

#[test]
fn openvpn_selection_with_bridge() {
    let mut g = generator(Some(auth()));
    let settings = ProxySettings::Shadowsocks {
        peer: addr(9, 443),
        password: "mullvad".to_string(),
        cipher: "aes-256-gcm".to_string(),
    };
    let bridge = SelectedBridge::Normal(SelectedNormalBridge {
        settings,
        relay: relay("se-sto-br-001", "Stockholm"),
    });
    let r = g.try_generate(normal(relay("de-ber-ovpn-001", "Berlin"), None, ovpn_endpoint(), Some(bridge), None));
    match r {
        Ok(TunnelParameters::OpenVpn(p)) => {
            assert_eq!(p.config.username, "1234567890");
            assert_eq!(p.config.password, "-");
            assert_eq!(p.config.endpoint.address, addr(2, 1194));
            assert_eq!(p.options, options().openvpn);
            assert!(matches!(p.proxy, Some(ProxySettings::Shadowsocks { .. })));
        }
        _ => panic!("expected OpenVPN parameters"),
    }
    let loc = g.get_last_location().unwrap();
    assert_eq!(loc.city, Some("Berlin".to_string()));
    assert_eq!(loc.hostname, Some("de-ber-ovpn-001".to_string()));
    assert_eq!(loc.bridge_hostname, Some("se-sto-br-001".to_string()));
    assert_eq!(loc.entry_hostname, None);
    assert_eq!(loc.obfuscator_hostname, None);
}

#[test]
fn openvpn_custom_bridge_has_no_bridge_relay() {
    let mut g = generator(Some(auth()));
    let bridge = SelectedBridge::Custom(ProxySettings::Local { port: 1080, peer: addr(4, 443) });
    match g.try_generate(normal(relay("nl-ams-001", "Amsterdam"), None, ovpn_endpoint(), Some(bridge), None)) {
        Ok(TunnelParameters::OpenVpn(p)) => {
            assert!(matches!(p.proxy, Some(ProxySettings::Local { port: 1080, .. })))
        }
        _ => panic!("expected OpenVPN parameters"),
    }
    assert_eq!(g.get_last_location().unwrap().bridge_hostname, None);
}

#[test]
fn wireguard_entry_and_obfuscator_hostnames() {
    let mut g = generator(Some(auth()));
    let config = ObfuscatorConfig::Udp2Tcp { endpoint: addr(5, 443) };
    let obfuscator = SelectedObfuscator { config, relay: relay("se-mma-wg-002", "Malmo") };
    let r = g.try_generate(normal(
        relay("us-nyc-wg-001", "New York"),
        Some(relay("se-mma-wg-001", "Malmo")),
        wg_endpoint(),
        None,
        Some(obfuscator),
    ));
    match r {
        Ok(TunnelParameters::Wireguard(p)) => assert_eq!(p.obfuscation, Some(config)),
        _ => panic!("expected WireGuard parameters"),
    }
    let loc = g.get_last_location().unwrap();
    assert_eq!(loc.city, Some("New York".to_string()));
    assert_eq!(loc.entry_hostname, Some("se-mma-wg-001".to_string()));
    assert_eq!(loc.obfuscator_hostname, Some("se-mma-wg-002".to_string()));
    assert_eq!(loc.bridge_hostname, None);

    // An OpenVPN generation replaces the WireGuard record wholesale.
    g.try_generate(normal(relay("de-ber-ovpn-001", "Berlin"), None, ovpn_endpoint(), None, None)).unwrap();
    let loc = g.get_last_location().unwrap();
    assert_eq!(loc.city, Some("Berlin".to_string()));
    assert_eq!(loc.entry_hostname, None);
    assert_eq!(loc.obfuscator_hostname, None);
}

#[test]
fn other_selector_errors_mean_no_relay() {
    let mut g = generator(Some(auth()));
    for e in [SelectorError::NoRelay, SelectorError::NoObfuscator] {
        assert!(matches!(g.try_generate(Err(e)), Err(Error::NoRelayAvailable)));
        assert!(matches!(g.generate(Err(e)), Err(ParameterGenerationError::NoMatchingRelay)));
    }
    assert!(g.get_last_location().is_none());
}

#[test]
fn error_mappings() {
    assert_eq!(selector_error(SelectorError::NoBridge), Error::NoBridgeAvailable);
    assert_eq!(selector_error(SelectorError::NoRelay), Error::NoRelayAvailable);
    assert_eq!(generation_error(Error::NoAuthDetails), ParameterGenerationError::NoMatchingRelay);
    assert_eq!(generation_error(Error::NoRelayAvailable), ParameterGenerationError::NoMatchingRelay);
    assert_eq!(generation_error(Error::NoBridgeAvailable), ParameterGenerationError::NoMatchingBridgeRelay);
    assert_eq!(
        generation_error(Error::ResolveCustomHostnameError),
        ParameterGenerationError::CustomTunnelHostResultionError
    );
}

#[test]
fn credential_updates_are_visible() {
    let mut g = generator(Some(auth()));
    g.update_auth_details(None);
    assert_eq!(g.selection_request(0), Err(Error::NoAuthDetails));
    let mut fresh = auth();
    fresh.wg_data.ipv4_address = 0x0A00_0002;
    g.update_auth_details(Some(fresh));
    match g.try_generate(normal(relay("a", "Oslo"), None, wg_endpoint(), None, None)) {
        Ok(TunnelParameters::Wireguard(p)) => {
            assert_eq!(p.connection.tunnel.addresses, vec![IpAddress::V4(0x0A00_0002), IpAddress::V6(IPV6)])
        }
        _ => panic!("expected WireGuard parameters"),
    }
}

#[test]
fn tunnel_options_apply_to_next_generation() {
    let mut g = generator(Some(auth()));
    let mut opts = options();
    opts.wireguard.mtu = Some(1280);
    opts.generic.enable_ipv6 = true;
    g.set_tunnel_options(&opts);
    match g.try_generate(normal(relay("a", "Oslo"), None, wg_endpoint(), None, None)) {
        Ok(TunnelParameters::Wireguard(p)) => {
            assert_eq!(p.options.mtu, Some(1280));
            assert!(p.generic_options.enable_ipv6);
        }
        _ => panic!("expected WireGuard parameters"),
    }
}
