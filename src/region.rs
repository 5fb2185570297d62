//! Choosing the region a secret is fetched from.

use vstd::prelude::*;

verus! {

/// The region that is used: the one the ambient configuration exposes, if
/// any, else the caller's default.
pub open spec fn effective_region(ambient: Option<Seq<char>>, default: Seq<char>) -> Seq<char> {
    match ambient {
        Some(r) => r,
        None => default,
    }
}

/// Picks the region for a request. `ambient` is what the environment's
/// configuration chain yielded; `default` is the caller's fallback.
pub fn resolve_region(ambient: Option<String>, default: &str) -> (r: String)
    ensures
        r@ == effective_region(
            match ambient {
                Some(a) => Some(a@),
                None => None,
            },
            default@,
        ),
{
    match ambient {
        Some(a) => a,
        None => default.to_owned(),
    }
}

} // verus!
