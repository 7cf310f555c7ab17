//! The error taxonomy: every failure path returns a distinct, inspectable value.

use vstd::prelude::*;

verus! {

/// The reason a token failed signature or claims validation.
#[derive(Debug, Clone, Copy, PartialEq, Eq, Structural)]
pub enum JwtFailure {
    /// The token does not have the shape of a compact-serialized JWT.
    InvalidToken,
    /// The cryptographic signature check failed.
    InvalidSignature,
    /// A claim named in the policy's required set is absent. Only `exp`,
    /// `nbf`, `aud`, `iss` and `sub` are ever enforced; other required names
    /// are ignored by the underlying validator.
    MissingRequiredClaim,
    /// The `exp` claim lies in the past.
    ExpiredSignature,
    /// The `iss` claim does not match the expected issuer.
    InvalidIssuer,
    /// The `aud` claim does not match the expected audience.
    InvalidAudience,
    /// The `sub` claim does not match the expected subject.
    InvalidSubject,
    /// The `nbf` claim lies in the future.
    ImmatureSignature,
    /// The header's algorithm is not in the policy's allow-list.
    InvalidAlgorithm,
    /// The policy's algorithm allow-list is empty.
    MissingAlgorithm,
    /// Any other validation-time failure (malformed payload, bad base64, ...).
    Other,
}

/// Every failure the library reports.
#[derive(Debug, Clone, Copy, PartialEq, Eq, Structural)]
pub enum Error {
    /// The network call did not complete; raised by the surrounding transport.
    Transport,
    /// A response body does not parse as the expected structure.
    MalformedResponse,
    /// The token's header segment cannot be parsed.
    MalformedToken,
    /// The header carries no `kid`, or no published key matches it
    /// even after one refresh.
    JwtMissingKid,
    /// The matched key's algorithm family is unsupported, or its published
    /// parameters cannot be turned into verification key material.
    InvalidJwk,
    /// Verification ran but failed, for the wrapped reason.
    InvalidJwt(JwtFailure),
}

pub type Auth0Result<T> = Result<T, Error>;

} // verus!
