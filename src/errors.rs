//! Errors of parameter generation, and their coarser form as seen by the
//! tunnel state machine.
use vstd::prelude::*;

verus! {

/// Why the generator could not produce tunnel parameters.
#[derive(Clone, Copy, Debug, PartialEq, Eq, Structural)]
pub enum Error {
    /// Not logged in on a valid device: no credentials are cached.
    NoAuthDetails,
    /// The relay selector found no relay matching the constraints.
    NoRelayAvailable,
    /// The relay selector found no bridge matching the constraints.
    NoBridgeAvailable,
    /// The host name of a custom relay could not be resolved.
    ResolveCustomHostnameError,
}

/// The error classification handed to the tunnel state machine.
#[derive(Clone, Copy, Debug, PartialEq, Eq, Structural)]
pub enum ParameterGenerationError {
    NoMatchingRelay,
    NoMatchingBridgeRelay,
    CustomTunnelHostResultionError,
}

/// The failure reported by the relay selector.
#[derive(Clone, Copy, Debug, PartialEq, Eq, Structural)]
pub enum SelectorError {
    NoRelay,
    NoBridge,
    NoObfuscator,
}

/// The credential store could not report the current credentials.
#[derive(Clone, Copy, Debug, PartialEq, Eq, Structural)]
pub struct CredentialFetchError;

/// The generator error for a selector failure: a missing bridge stays
/// distinct, every other failure means that no relay is available.
pub open spec fn selector_error_spec(e: SelectorError) -> Error {
    match e {
        SelectorError::NoBridge => Error::NoBridgeAvailable,
        _ => Error::NoRelayAvailable,
    }
}

/// The state machine's classification of a generator error.
pub open spec fn generation_error_spec(e: Error) -> ParameterGenerationError {
    match e {
        Error::NoBridgeAvailable => ParameterGenerationError::NoMatchingBridgeRelay,
        Error::ResolveCustomHostnameError => ParameterGenerationError::CustomTunnelHostResultionError,
        _ => ParameterGenerationError::NoMatchingRelay,
    }
}

/// Maps a selector failure onto the generator's error.
pub fn selector_error(e: SelectorError) -> (r: Error)
    ensures
        r == selector_error_spec(e),
{
    match e {
        SelectorError::NoBridge => Error::NoBridgeAvailable,
        _ => Error::NoRelayAvailable,
    }
}

/// Maps a generator error onto the classification that the tunnel state
/// machine acts on.
pub fn generation_error(e: Error) -> (r: ParameterGenerationError)
    ensures
        r == generation_error_spec(e),
{
    match e {
        Error::NoBridgeAvailable => ParameterGenerationError::NoMatchingBridgeRelay,
        Error::ResolveCustomHostnameError => ParameterGenerationError::CustomTunnelHostResultionError,
        _ => ParameterGenerationError::NoMatchingRelay,
    }
}

} // verus!
