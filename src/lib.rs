//! Identity and authorization core of a certificate-issuance platform.
//!
//! Two kinds of principals sign in: email/password accounts (validators and
//! admins) and wallet holders who prove control of an address by signing a
//! one-time challenge. Both end up with the same signed, expiring token, and
//! the workflow guard decides every state transition from the identity the
//! token carries and the entity values already fetched by the caller.
use vstd::prelude::*;

pub mod address;
pub mod claims;
pub mod config;
pub mod error;
pub mod gateway;
pub mod identity;
pub mod models;
pub mod nonce;
pub mod signature;
pub mod state;
pub mod token;
pub mod workflow;

verus! {

} // verus!
