//! Client authentication against an identity provider: construction of OAuth
//! token requests, and verification of bearer JWTs against the provider's
//! published JSON Web Key Set, with a single refresh-on-miss of the cached set.

pub mod client;
pub mod error;
pub mod keys;
pub mod policy;
pub mod urls;
pub mod verify;
