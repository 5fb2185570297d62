//! The ways fetching or projecting a secret can fail.

use vstd::prelude::*;

verus! {

/// Why a fetch or a projection failed. Each variant carries the context that
/// makes it diagnosable.
#[derive(Debug)]
pub enum SecretError {
    /// The ambient configuration could not be materialized; the provider's
    /// message.
    ConfigLoad(String),
    /// The provider call failed at the network or authentication layer; the
    /// provider's message.
    Transport(String),
    /// The provider answered without a string payload; the secret's name.
    EmptySecret(String),
    /// The payload is not well-formed JSON.
    Decode(serde_json::Error),
    /// A requested key is absent from the secret body or does not hold a
    /// string; the key.
    MissingKey(String),
}

} // verus!
