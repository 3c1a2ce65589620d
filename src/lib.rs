//! Session tokens for an HTTP-facing service: credential checks, signed
//! claims, a revocation store that decides whether a session is still live,
//! and the authorization check that every protected request passes.
use vstd::prelude::*;

pub mod claims;
pub mod codec;
pub mod config;
pub mod credentials;
pub mod error;
pub mod authorization;
pub mod laws;
pub mod password;
pub mod revocation;
pub mod session;
pub mod subject;

verus! {

} // verus!
