//! An authenticated RPC client core: OAuth2 client-credentials tokens are
//! obtained from a discovered identity provider, cached until expiry, and
//! attached as bearer credentials to every outbound call.
//!
//! This crate holds the verified logic: endpoint construction, client
//! configuration, the token cache with its freshness discipline, and the
//! per-call authentication decision. The unverified surroundings perform
//! the actual HTTP and RPC traffic and feed plain values through this API.
use vstd::prelude::*;

pub mod auth;
pub mod errors;
pub mod oauth2;

verus! {

/// The base URL of the service API for a given domain.
pub fn api_url(domain: &str) -> (r: String)
    ensures
        r@ == "https://api."@ + domain@,
{
    let mut s = String::from_str("https://api.");
    s.append(domain);
    s
}

} // verus!
