//! The authenticating call interceptor's per-call decision: obtain a token,
//! and either reject the call without touching the transport or forward it
//! with a bearer authorization header attached.
//!
//! The interceptor itself is stateless; every call is planned from its own
//! token-acquisition outcome alone, so concurrent calls cannot affect each
//! other's plan. The unverified surroundings wrap the transport, ask the
//! token source for a token, plan the call here, and then either fail it or
//! send the decorated request on a handle of their own for that call.
use vstd::prelude::*;

use crate::errors::CallError;
use crate::errors::TokenAcquisitionError;

verus! {

/// What the interceptor does with one outbound call.
pub enum CallPlan {
    /// Fail the call with this error; the underlying transport is never
    /// invoked.
    Reject(CallError),
    /// Forward the call with this value set as its `authorization` header.
    Forward(String),
}

/// The name of the call metadata entry that carries the bearer credential.
pub fn authorization_header_name() -> (r: &'static str)
    ensures
        r@ == "authorization"@,
{
    "authorization"
}

/// The `authorization` header value carrying an access token as a bearer
/// credential.
pub fn bearer_header_value(token: &str) -> (r: String)
    ensures
        r@ == "Bearer "@ + token@,
{
    let mut s = String::from_str("Bearer ");
    s.append(token);
    s
}

/// Plans one outbound call from the token source's outcome. A failed token
/// acquisition rejects the call with that failure, wrapped so the caller
/// can tell it from a transport failure; the transport is only ever invoked
/// with the granted token attached as a bearer credential.
pub fn plan_call(token_result: Result<String, TokenAcquisitionError>) -> (p: CallPlan)
    ensures
        p is Reject <==> token_result is Err,
        token_result matches Err(e) ==> p == CallPlan::Reject(CallError::TokenAcquisition(e)),
        token_result matches Ok(t) ==> p matches CallPlan::Forward(h) && h@ == "Bearer "@ + t@,
{
    match token_result {
        Ok(token) => CallPlan::Forward(bearer_header_value(token.as_str())),
        Err(e) => CallPlan::Reject(CallError::TokenAcquisition(e)),
    }
}

} // verus!
