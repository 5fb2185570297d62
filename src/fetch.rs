//! Turning what the secret store answered into a decoded secret body.

use vstd::prelude::*;

use crate::error::SecretError;
use crate::json::{json_parse, json_view, parse_json};

verus! {

/// What one "get secret by name" exchange with the provider came to.
pub enum ProviderReply {
    /// The ambient configuration could not be materialized; its message.
    ConfigFailed(String),
    /// The request could not be issued or was refused; its message.
    Failed(String),
    /// The provider answered, with its string payload if the answer had one.
    Answered(Option<String>),
}

/// Whether `r` is what decoding `reply` for the secret `name` must give.
pub open spec fn decoded_as(
    name: Seq<char>,
    reply: ProviderReply,
    r: Result<serde_json::Value, SecretError>,
) -> bool {
    match reply {
        ProviderReply::ConfigFailed(m) => r matches Err(SecretError::ConfigLoad(e)) && e@ == m@,
        ProviderReply::Failed(m) => r matches Err(SecretError::Transport(e)) && e@ == m@,
        ProviderReply::Answered(None) => r matches Err(SecretError::EmptySecret(n)) && n@ == name,
        ProviderReply::Answered(Some(t)) => match json_parse(t@) {
            Some(view) => r matches Ok(v) && json_view(v) == view,
            None => r matches Err(SecretError::Decode(_)),
        },
    }
}

/// Whether two replies carry the same kind and the same text.
pub open spec fn same_reply(a: ProviderReply, b: ProviderReply) -> bool {
    match (a, b) {
        (ProviderReply::ConfigFailed(x), ProviderReply::ConfigFailed(y)) => x@ == y@,
        (ProviderReply::Failed(x), ProviderReply::Failed(y)) => x@ == y@,
        (ProviderReply::Answered(None), ProviderReply::Answered(None)) => true,
        (ProviderReply::Answered(Some(x)), ProviderReply::Answered(Some(y))) => x@ == y@,
        _ => false,
    }
}

/// Whether two errors are of the same kind and carry the same text.
pub open spec fn same_error(a: SecretError, b: SecretError) -> bool {
    match (a, b) {
        (SecretError::ConfigLoad(x), SecretError::ConfigLoad(y)) => x@ == y@,
        (SecretError::Transport(x), SecretError::Transport(y)) => x@ == y@,
        (SecretError::EmptySecret(x), SecretError::EmptySecret(y)) => x@ == y@,
        (SecretError::Decode(_), SecretError::Decode(_)) => true,
        (SecretError::MissingKey(x), SecretError::MissingKey(y)) => x@ == y@,
        _ => false,
    }
}

/// Whether two outcomes of a fetch are semantically equal: two bodies that
/// agree on being an object and on every string field, or like errors.
pub open spec fn same_outcome(
    a: Result<serde_json::Value, SecretError>,
    b: Result<serde_json::Value, SecretError>,
) -> bool {
    match (a, b) {
        (Ok(x), Ok(y)) => json_view(x) == json_view(y),
        (Err(x), Err(y)) => same_error(x, y),
        _ => false,
    }
}

/// Decodes the provider's reply for the secret `secret_name`: the JSON value
/// of its payload, or the error that says which step failed. A failed request
/// is reported as such, never as a missing payload.
pub fn decode_secret(secret_name: &str, reply: ProviderReply) -> (r: Result<
    serde_json::Value,
    SecretError,
>)
    ensures
        decoded_as(secret_name@, reply, r),
{
    match reply {
        ProviderReply::ConfigFailed(m) => Err(SecretError::ConfigLoad(m)),
        ProviderReply::Failed(m) => Err(SecretError::Transport(m)),
        ProviderReply::Answered(None) => Err(SecretError::EmptySecret(secret_name.to_owned())),
        ProviderReply::Answered(Some(text)) => match parse_json(&text) {
            Ok(v) => Ok(v),
            Err(e) => Err(SecretError::Decode(e)),
        },
    }
}

/// Fetching is idempotent: the same secret fetched twice against a provider
/// that answers the same way both times decodes to semantically equal
/// outcomes.
pub proof fn lemma_fetch_idempotent(
    name: Seq<char>,
    reply_a: ProviderReply,
    reply_b: ProviderReply,
    first: Result<serde_json::Value, SecretError>,
    second: Result<serde_json::Value, SecretError>,
)
    requires
        same_reply(reply_a, reply_b),
        decoded_as(name, reply_a, first),
        decoded_as(name, reply_b, second),
    ensures
        same_outcome(first, second),
{
}

} // verus!
