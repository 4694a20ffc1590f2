//! A session-gated gateway library: a cookie session codec, a bearer-token
//! validator, a route dispatcher, an SSR-envelope builder, and the
//! response-transform logic for shared-conversation resources.

pub mod assets;
pub mod b64;
pub mod captcha;
pub mod envelope;
pub mod handlers;
pub mod config;
pub mod routes;
pub mod session;
pub mod share;
pub mod timefmt;
pub mod token;
pub mod text;

use vstd::prelude::*;

verus! {

/// The error kinds the library's fallible operations surface. A broken
/// cookie is an invalid session; a broken bearer token is unauthorized.
/// Upstream failures and bad requests surface directly as response shapes.
#[derive(PartialEq, Eq, Structural, Clone, Copy, Debug)]
pub enum GatewayError {
    InvalidSession,
    Unauthorized,
}

} // verus!
