//! Fetching a secret from a managed secret store, decoding its JSON body and
//! lifting chosen string fields out of it.
//!
//! The network side (loading the ambient configuration, sending the request)
//! happens outside this crate; what it observed is handed in as plain values
//! and every decision taken on them is verified here.

pub mod error;
pub mod fetch;
pub mod json;
pub mod projection;
pub mod region;
