//! Properties of generation that relate its result, the cached state and the
//! reported location.
use vstd::prelude::*;
use crate::errors::{Error, SelectorError};
use crate::generator::{
    generation_failure, generation_outcome, hostname_of, is_generated, last_location,
    selection_request_spec, ParametersGenerator,
};
use crate::net::IpAddress;
use crate::parameters::TunnelParameters;
use crate::relays::{AuthDetails, bridge_relay, obfuscator_relay, MullvadEndpoint, Selection};

verus! {

/// Without cached credentials, the selector is never asked for any retry
/// attempt, and generation fails with `NoAuthDetails` whatever the selection,
/// leaving the record of the last relays as it was.
pub proof fn lemma_no_credentials_fails(
    g: ParametersGenerator,
    retry_attempt: u32,
    selection: Result<Selection, SelectorError>,
    r: Result<TunnelParameters, Error>,
    new: ParametersGenerator,
)
    requires
        g.auth() is None,
        generation_outcome(g, selection, r, new),
    ensures
        selection_request_spec(g, retry_attempt) == Err::<u32, Error>(Error::NoAuthDetails),
        r == Err::<TunnelParameters, Error>(Error::NoAuthDetails),
        new.last_relays() == g.last_relays(),
{
}

/// WireGuard parameters generated for a relay chain carry exactly the cached
/// IPv4 and IPv6 addresses, in that order.
pub proof fn lemma_wireguard_addresses_are_cached_ones(
    g: ParametersGenerator,
    selection: Result<Selection, SelectorError>,
    r: Result<TunnelParameters, Error>,
    new: ParametersGenerator,
)
    requires
        generation_outcome(g, selection, r, new),
        selection is Ok && selection->Ok_0.relay is Normal,
        r is Ok && r->Ok_0 is Wireguard,
    ensures
        g.auth() is Some,
        r->Ok_0->Wireguard_0.connection.tunnel.addresses@ == seq![
            IpAddress::V4(g.auth()->Some_0.wg_data.ipv4_address),
            IpAddress::V6(g.auth()->Some_0.wg_data.ipv6_address),
        ],
{
}

/// After a successful generation for a relay chain there is a location, and
/// its auxiliary host names are those of the protocol just used: entry and
/// obfuscator for WireGuard, bridge for OpenVPN, the others absent.
pub proof fn lemma_location_follows_protocol(
    g: ParametersGenerator,
    selection: Result<Selection, SelectorError>,
    r: Result<TunnelParameters, Error>,
    new: ParametersGenerator,
)
    requires
        generation_outcome(g, selection, r, new),
        selection is Ok && selection->Ok_0.relay is Normal,
        r is Ok,
    ensures
        ({
            let s = selection->Ok_0;
            let n = s.relay->Normal_0;
            let loc = last_location(new.last_relays())->Some_0;
            &&& last_location(new.last_relays()) is Some
            &&& loc.hostname == Some(n.exit_relay.hostname)
            &&& loc.city == Some(n.exit_relay.location.city)
            &&& (r->Ok_0 is Wireguard ==> {
                &&& loc.bridge_hostname is None
                &&& loc.entry_hostname == hostname_of(n.entry_relay)
                &&& loc.obfuscator_hostname == hostname_of(obfuscator_relay(s.obfuscator))
            })
            &&& (r->Ok_0 is OpenVpn ==> {
                &&& loc.entry_hostname is None
                &&& loc.obfuscator_hostname is None
                &&& loc.bridge_hostname == hostname_of(bridge_relay(s.bridge))
            })
        }),
{
    let s = selection->Ok_0;
    let n = s.relay->Normal_0;
    match n.endpoint {
        MullvadEndpoint::OpenVpn(_) => {},
        MullvadEndpoint::Wireguard(_) => {},
    }
}

/// A failed generation leaves the record of relays unchanged, so before any
/// successful generation there is no location to report.
pub proof fn lemma_no_location_before_success(
    g: ParametersGenerator,
    selection: Result<Selection, SelectorError>,
    r: Result<TunnelParameters, Error>,
    new: ParametersGenerator,
)
    requires
        generation_outcome(g, selection, r, new),
        r is Err,
    ensures
        new.last_relays() == g.last_relays(),
        g.last_relays() is None ==> last_location(new.last_relays()) is None,
{
}

/// With credentials cached, a missing bridge always yields
/// `NoBridgeAvailable` and every other selector failure `NoRelayAvailable`;
/// neither changes the record of relays.
pub proof fn lemma_selector_failures(
    g: ParametersGenerator,
    e: SelectorError,
    r: Result<TunnelParameters, Error>,
    new: ParametersGenerator,
)
    requires
        g.auth() is Some,
        generation_outcome(g, Err(e), r, new),
    ensures
        e == SelectorError::NoBridge ==> r == Err::<TunnelParameters, Error>(Error::NoBridgeAvailable),
        e != SelectorError::NoBridge ==> r == Err::<TunnelParameters, Error>(Error::NoRelayAvailable),
        new.last_relays() == g.last_relays(),
{
}

/// Generation reads only the state present when it begins: two states with
/// the same credentials and options fail alike and accept the same
/// parameters for any selection, so an update not yet applied plays no part.
pub proof fn lemma_generation_reads_current_state(
    g1: ParametersGenerator,
    g2: ParametersGenerator,
    selection: Result<Selection, SelectorError>,
    p: TunnelParameters,
)
    requires
        g1.auth() == g2.auth(),
        g1.options() == g2.options(),
    ensures
        generation_failure(g1, selection) == generation_failure(g2, selection),
        is_generated(g1, selection, p) == is_generated(g2, selection, p),
{
}

/// A credential update applied before a generation is what that generation
/// sees: revoked credentials make it fail with `NoAuthDetails`, and new
/// WireGuard credentials give the addresses of the parameters built for a
/// relay chain.
pub proof fn lemma_update_is_visible(
    g: ParametersGenerator,
    auth: Option<AuthDetails>,
    updated: ParametersGenerator,
    selection: Result<Selection, SelectorError>,
    r: Result<TunnelParameters, Error>,
    new: ParametersGenerator,
)
    requires
        updated.auth() == auth,
        updated.options() == g.options(),
        updated.last_relays() == g.last_relays(),
        generation_outcome(updated, selection, r, new),
    ensures
        auth is None ==> r == Err::<TunnelParameters, Error>(Error::NoAuthDetails),
        (auth is Some && selection is Ok && selection->Ok_0.relay is Normal && r is Ok
            && r->Ok_0 is Wireguard) ==> r->Ok_0->Wireguard_0.connection.tunnel.addresses@ == seq![
            IpAddress::V4(auth->Some_0.wg_data.ipv4_address),
            IpAddress::V6(auth->Some_0.wg_data.ipv6_address),
        ],
{
    if auth is Some && selection is Ok && selection->Ok_0.relay is Normal && r is Ok
        && r->Ok_0 is Wireguard {
        lemma_wireguard_addresses_are_cached_ones(updated, selection, r, new);
    }
}

} // verus!
