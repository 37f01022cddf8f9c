//! Tunnel-parameter generation: turns a relay selection and cached credentials
//! into the configuration of one WireGuard or OpenVPN connection attempt, and
//! remembers which relays were used last.

pub mod net;
pub mod errors;
pub mod generator;
pub mod laws;
pub mod parameters;
pub mod relays;

pub use errors::{CredentialFetchError, Error, ParameterGenerationError, SelectorError};
pub use generator::{GeoIpLocation, LastSelectedRelays, ParametersGenerator};
