//! The failures that the library reports.

use vstd::prelude::*;

verus! {

/// Why a quote could not be fetched.
#[derive(Clone, Copy, Debug, PartialEq, Eq, Structural)]
pub enum FetchError {
    /// No complete response arrived: name resolution, connection, timeout,
    /// or a body that could not be read.
    Transport,
    /// A response arrived whose status is outside 200..=299.
    BadStatus,
}

/// Why no price could be taken from a payload.
#[derive(Clone, Copy, Debug, PartialEq, Eq, Structural)]
pub enum ExtractError {
    /// The payload is not JSON text.
    InvalidPayload,
    /// The payload holds no member of the wanted name, or one that is not a
    /// string.
    MissingField,
}

/// Why the operator's configuration was refused.
#[derive(Clone, Copy, Debug, PartialEq, Eq, Structural)]
pub enum ConfigError {
    /// The poll interval is not an unsigned decimal number of seconds that
    /// fits in 64 bits.
    InvalidInterval,
}

/// Why one attempt to observe the price failed.
#[derive(Clone, Copy, Debug, PartialEq, Eq, Structural)]
pub enum PriceError {
    /// The quote could not be fetched.
    Fetch(FetchError),
    /// The quote arrived, but no price could be taken from it.
    Extract(ExtractError),
}

} // verus!
